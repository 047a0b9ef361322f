use gcode3d::bridge::{Bridge, BridgeInput};
use gcode3d::frames::{frame_of, Frame, FrameDescription};
use gcode3d::machine::BridgeEffect;
use gcode3d::manager::{Manager, ManagerEffect};
use gcode3d::models::{BridgeEvents, BridgeState, EventInfo, EventType};
use uuid::Uuid;

/// Runs a supervisor and the bridge that it spawns on what the serial side
/// reports, and collects the frames for the clients and the bytes written.
struct World {
    manager: Manager,
    bridge: Option<Bridge>,
    frames: Vec<Frame>,
    written: Vec<Vec<u8>>,
    killed: bool,
}

impl World {
    fn new() -> World {
        World { manager: Manager::new(), bridge: None, frames: Vec::new(), written: Vec::new(), killed: false }
    }

    fn publish(&mut self, event: EventInfo) {
        let mut inbox = vec![event];
        while !inbox.is_empty() {
            let event = inbox.remove(0);
            for effect in self.manager.handle(event) {
                match effect {
                    ManagerEffect::Spawn { address, port } => {
                        self.bridge = Some(Bridge::new(address, port));
                        self.report(BridgeInput::Start, &mut inbox);
                    }
                    ManagerEffect::Forward { event } => {
                        self.report(BridgeInput::Event { event }, &mut inbox);
                    }
                    ManagerEffect::Publish { event } => inbox.push(event),
                    ManagerEffect::Broadcast { message } => {
                        if let Some(frame) = frame_of(&message, 0) {
                            self.frames.push(frame);
                        }
                    }
                    ManagerEffect::Teardown => self.bridge = None,
                }
            }
        }
    }

    fn report(&mut self, input: BridgeInput, inbox: &mut Vec<EventInfo>) {
        let mut reports = vec![input];
        while !reports.is_empty() {
            let input = reports.remove(0);
            let bridge = match self.bridge.as_mut() {
                Some(bridge) => bridge,
                None => return,
            };
            for effect in bridge.handle(input, Uuid::from_u128(1)) {
                match effect {
                    BridgeEffect::Open { .. } => reports.push(BridgeInput::PortOpened),
                    BridgeEffect::Write { message, id } => {
                        self.written.push(message.clone());
                        reports.push(BridgeInput::WriteDone { message, id });
                    }
                    BridgeEffect::Publish { event } => inbox.push(event),
                    BridgeEffect::Close => self.killed = true,
                    BridgeEffect::Watch { .. } | BridgeEffect::Pause { .. } => {}
                }
            }
        }
    }

    fn serial(&mut self, input: BridgeInput) {
        let mut inbox = Vec::new();
        self.report(input, &mut inbox);
        for event in inbox {
            self.publish(event);
        }
    }

    fn line(&mut self, text: &str) {
        for byte in text.bytes() {
            self.serial(BridgeInput::Byte { byte });
        }
        self.serial(BridgeInput::Byte { byte: b'\n' });
    }
}

fn create() -> EventInfo {
    EventInfo {
        event_type: EventType::Bridge(BridgeEvents::ConnectionCreate {
            address: b"/dev/ttyUSB0".to_vec(),
            port: 115200,
        }),
    }
}

#[test]
fn connect_timeout_is_one_errored_frame_and_a_dead_bridge() {
    let mut world = World::new();
    world.publish(create());
    assert_eq!(world.written, vec![b"M115\n".to_vec()]);
    world.frames.clear();
    world.serial(BridgeInput::TimeoutElapsed);
    assert_eq!(
        world.frames,
        vec![Frame::StateUpdate {
            state: "Errored",
            description: FrameDescription::Error { error_description: b"Timed out".to_vec() }
        }]
    );
    assert!(world.killed);
    assert!(!world.manager.bridge_live());
    assert_eq!(world.manager.state().state, BridgeState::Errored);
    world.publish(create());
    assert!(world.manager.bridge_live());
}

#[test]
fn connecting_tells_clients_of_each_state_once() {
    let mut world = World::new();
    world.publish(create());
    world.line("FIRMWARE_NAME:Marlin 2.0");
    world.line("ok");
    world.line("ok");
    let states: Vec<&str> = world
        .frames
        .iter()
        .filter_map(|frame| match frame {
            Frame::StateUpdate { state, .. } => Some(*state),
            _ => None,
        })
        .collect();
    assert_eq!(states, vec!["Connecting", "Connected"]);
    assert_eq!(world.written, vec![b"M115\n".to_vec(), b"G90\n".to_vec()]);
    assert_eq!(world.manager.state().state, BridgeState::Connected);
}

#[test]
fn every_write_is_shown_once_as_input() {
    let mut world = World::new();
    world.publish(create());
    world.line("FIRMWARE_NAME:Marlin 2.0");
    world.line("ok");
    world.line("ok");
    world.publish(EventInfo {
        event_type: EventType::Bridge(BridgeEvents::TerminalSend {
            message: b"M105".to_vec(),
            id: Uuid::from_u128(9),
        }),
    });
    let inputs: Vec<Vec<u8>> = world
        .frames
        .iter()
        .filter_map(|frame| match frame {
            Frame::TerminalMessage { message, kind: gcode3d::frames::MessageKind::Input, .. } => {
                Some(message.clone())
            }
            _ => None,
        })
        .collect();
    assert_eq!(inputs, vec![b"M115".to_vec(), b"G90".to_vec(), b"M105".to_vec()]);
    assert_eq!(world.written.len(), 3);
}

#[test]
fn second_connection_request_ends_the_session() {
    let mut world = World::new();
    world.publish(create());
    world.frames.clear();
    world.publish(create());
    assert_eq!(
        world.frames,
        vec![Frame::StateUpdate {
            state: "Errored",
            description: FrameDescription::Error { error_description: b"already connected".to_vec() }
        }]
    );
    assert!(!world.manager.bridge_live());
}
