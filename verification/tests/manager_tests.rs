use gcode3d::manager::{Manager, ManagerEffect};
use gcode3d::models::{
    BridgeEvents, BridgeState, EventInfo, EventType, StateDescription, WebsocketEvents,
};
use gcode3d::print_info::PrintInfo;
use uuid::Uuid;

fn info(event_type: EventType) -> EventInfo {
    EventInfo { event_type }
}

fn create() -> EventInfo {
    info(EventType::Bridge(BridgeEvents::ConnectionCreate {
        address: b"/dev/ttyUSB0".to_vec(),
        port: 115200,
    }))
}

#[test]
fn supervisor_starts_disconnected() {
    let manager = Manager::new();
    assert_eq!(manager.state().state, BridgeState::Disconnected);
    assert_eq!(manager.state().description, StateDescription::Empty);
    assert!(!manager.bridge_live());
}

#[test]
fn create_bridge_spawns_one() {
    let mut manager = Manager::new();
    assert_eq!(
        manager.handle(create()),
        vec![ManagerEffect::Spawn { address: b"/dev/ttyUSB0".to_vec(), port: 115200 }]
    );
    assert!(manager.bridge_live());
}

#[test]
fn second_bridge_is_refused() {
    let mut manager = Manager::new();
    manager.handle(create());
    assert_eq!(
        manager.handle(create()),
        vec![ManagerEffect::Publish {
            event: info(EventType::Bridge(BridgeEvents::ConnectionCreateError {
                error: b"already connected".to_vec()
            }))
        }]
    );
    assert!(manager.bridge_live());
}

#[test]
fn connect_error_takes_the_bridge_down() {
    let mut manager = Manager::new();
    manager.handle(create());
    let effects = manager.handle(info(EventType::Bridge(BridgeEvents::ConnectionCreateError {
        error: b"No such file or directory".to_vec(),
    })));
    assert_eq!(
        effects,
        vec![
            ManagerEffect::Forward { event: info(EventType::Kill) },
            ManagerEffect::Publish {
                event: info(EventType::Bridge(BridgeEvents::StateUpdate {
                    state: BridgeState::Errored,
                    description: StateDescription::Error {
                        message: b"No such file or directory".to_vec()
                    },
                }))
            },
            ManagerEffect::Teardown,
        ]
    );
    assert!(!manager.bridge_live());
    assert_eq!(manager.handle(create()).len(), 1);
    assert!(manager.bridge_live());
}

#[test]
fn connect_timeout() {
    let mut manager = Manager::new();
    manager.handle(create());
    let effects = manager.handle(info(EventType::Bridge(BridgeEvents::StateUpdate {
        state: BridgeState::Errored,
        description: StateDescription::Error { message: b"Timed out".to_vec() },
    })));
    assert_eq!(
        effects,
        vec![
            ManagerEffect::Broadcast {
                message: WebsocketEvents::StateUpdate {
                    state: BridgeState::Errored,
                    description: StateDescription::Error { message: b"Timed out".to_vec() },
                }
            },
            ManagerEffect::Forward { event: info(EventType::Kill) },
        ]
    );
    assert!(!manager.bridge_live());
    assert_eq!(manager.state().state, BridgeState::Errored);
    assert_eq!(
        manager.state().description,
        StateDescription::Error { message: b"Timed out".to_vec() }
    );
}

#[test]
fn state_update_is_installed_and_broadcast() {
    let mut manager = Manager::new();
    manager.handle(create());
    let effects = manager.handle(info(EventType::Bridge(BridgeEvents::StateUpdate {
        state: BridgeState::Connected,
        description: StateDescription::Empty,
    })));
    assert_eq!(
        effects,
        vec![ManagerEffect::Broadcast {
            message: WebsocketEvents::StateUpdate {
                state: BridgeState::Connected,
                description: StateDescription::Empty
            }
        }]
    );
    assert!(manager.bridge_live());
    assert_eq!(manager.state().state, BridgeState::Connected);
}

#[test]
fn disconnect_takes_the_bridge_down() {
    let mut manager = Manager::new();
    manager.handle(create());
    let effects = manager.handle(info(EventType::Bridge(BridgeEvents::StateUpdate {
        state: BridgeState::Disconnected,
        description: StateDescription::Empty,
    })));
    assert_eq!(effects.len(), 2);
    assert_eq!(effects[1], ManagerEffect::Forward { event: info(EventType::Kill) });
    assert!(!manager.bridge_live());
}

#[test]
fn commands_are_passed_on_to_a_live_bridge() {
    let mut manager = Manager::new();
    let send = || {
        info(EventType::Bridge(BridgeEvents::TerminalSend {
            message: b"M105".to_vec(),
            id: Uuid::from_u128(5),
        }))
    };
    assert!(manager.handle(send()).is_empty());
    assert!(manager.handle(info(EventType::Bridge(BridgeEvents::PrintEnd))).is_empty());
    manager.handle(create());
    assert_eq!(manager.handle(send()), vec![ManagerEffect::Forward { event: send() }]);
    assert_eq!(
        manager.handle(info(EventType::Bridge(BridgeEvents::PrintEnd))),
        vec![ManagerEffect::Forward { event: info(EventType::Bridge(BridgeEvents::PrintEnd)) }]
    );
    let job = PrintInfo::new(b"f".to_vec(), &vec![b"G28".to_vec()], 5);
    let effects = manager.handle(info(EventType::Bridge(BridgeEvents::PrintStart { info: job })));
    assert!(matches!(
        &effects[0],
        ManagerEffect::Forward { event: EventInfo { event_type: EventType::Bridge(BridgeEvents::PrintStart { .. }) } }
    ));
}

#[test]
fn client_events_are_broadcast() {
    let mut manager = Manager::new();
    let effects = manager.handle(info(EventType::Websocket(WebsocketEvents::TerminalRead {
        message: b"echo:hi".to_vec(),
    })));
    assert_eq!(
        effects,
        vec![ManagerEffect::Broadcast {
            message: WebsocketEvents::TerminalRead { message: b"echo:hi".to_vec() }
        }]
    );
}

#[test]
fn kill_on_the_distributor_is_ignored() {
    let mut manager = Manager::new();
    manager.handle(create());
    assert!(manager.handle(info(EventType::Kill)).is_empty());
    assert!(manager.bridge_live());
}

#[test]
fn boot_connects_when_all_settings_ask_for_it() {
    let manager = Manager::new();
    assert_eq!(
        manager.connect_boot(Some(true), Some(b"/dev/ttyUSB0".to_vec()), Some(115200)),
        Some(create())
    );
}

#[test]
fn boot_does_not_connect_otherwise() {
    let manager = Manager::new();
    let path = || Some(b"/dev/ttyUSB0".to_vec());
    assert_eq!(manager.connect_boot(Some(false), path(), Some(115200)), None);
    assert_eq!(manager.connect_boot(None, path(), Some(115200)), None);
    assert_eq!(manager.connect_boot(Some(true), None, Some(115200)), None);
    assert_eq!(manager.connect_boot(Some(true), Some(Vec::new()), Some(115200)), None);
    assert_eq!(manager.connect_boot(Some(true), path(), None), None);
    assert_eq!(manager.connect_boot(Some(true), path(), Some(0)), None);
    assert_eq!(manager.connect_boot(Some(true), path(), Some(1 << 32)), None);
    let mut busy = Manager::new();
    busy.handle(info(EventType::Bridge(BridgeEvents::StateUpdate {
        state: BridgeState::Connected,
        description: StateDescription::Empty,
    })));
    assert_eq!(busy.connect_boot(Some(true), path(), Some(115200)), None);
}

#[test]
fn supervisor_rests_less_while_printing() {
    let mut manager = Manager::new();
    assert_eq!(manager.idle_pause(), 300);
    manager.handle(info(EventType::Bridge(BridgeEvents::StateUpdate {
        state: BridgeState::Printing,
        description: StateDescription::Empty,
    })));
    assert_eq!(manager.idle_pause(), 3);
}
