use gcode3d::auth::AuthPermissions;
use gcode3d::frames::{
    describe, frame_now, frame_of, name_of, ready_frame, show_reading, socket_action, Frame,
    FrameDescription, Incoming, MessageKind, Reading, SocketAction,
};
use gcode3d::models::{BridgeState, StateDescription, StateWrapper, WebsocketEvents};
use gcode3d::parser::TempInfo;
use gcode3d::print_info::Progress;
use uuid::Uuid;

fn print_description() -> StateDescription {
    StateDescription::Print {
        filename: b"cube.gcode".to_vec(),
        progress: Progress { data_sent: 5, filesize: 10 },
        start: 1000,
        end: None,
    }
}

#[test]
fn phases_have_their_names() {
    assert_eq!(name_of(BridgeState::Disconnected), Some("Disconnected"));
    assert_eq!(name_of(BridgeState::Connecting), Some("Connecting"));
    assert_eq!(name_of(BridgeState::Connected), Some("Connected"));
    assert_eq!(name_of(BridgeState::Errored), Some("Errored"));
    assert_eq!(name_of(BridgeState::Printing), Some("Printing"));
    assert_eq!(name_of(BridgeState::Preparing), None);
    assert_eq!(name_of(BridgeState::Finishing), None);
}

#[test]
fn state_frame_of_an_error() {
    let event = WebsocketEvents::StateUpdate {
        state: BridgeState::Errored,
        description: StateDescription::Error { message: b"Timed out".to_vec() },
    };
    assert_eq!(
        frame_of(&event, 7),
        Some(Frame::StateUpdate {
            state: "Errored",
            description: FrameDescription::Error { error_description: b"Timed out".to_vec() }
        })
    );
}

#[test]
fn state_frame_of_a_print() {
    let event = WebsocketEvents::StateUpdate {
        state: BridgeState::Printing,
        description: print_description(),
    };
    assert_eq!(
        frame_of(&event, 7),
        Some(Frame::StateUpdate {
            state: "Printing",
            description: FrameDescription::Print {
                name: b"cube.gcode".to_vec(),
                progress: Progress { data_sent: 5, filesize: 10 },
                start_time: 1000,
                est_end_time: None
            }
        })
    );
}

#[test]
fn state_frame_says_nothing_of_a_description_that_does_not_fit() {
    for (state, name) in [
        (BridgeState::Disconnected, "Disconnected"),
        (BridgeState::Connecting, "Connecting"),
        (BridgeState::Connected, "Connected"),
        (BridgeState::Errored, "Errored"),
    ] {
        let event = WebsocketEvents::StateUpdate { state, description: print_description() };
        assert_eq!(
            frame_of(&event, 0),
            Some(Frame::StateUpdate { state: name, description: FrameDescription::Null })
        );
    }
    let snapshot = StateWrapper {
        state: BridgeState::Printing,
        description: StateDescription::Error { message: b"x".to_vec() },
    };
    assert_eq!(describe(&snapshot), FrameDescription::Null);
    let snapshot = StateWrapper {
        state: BridgeState::Connected,
        description: StateDescription::Capability { capabilities: vec![b"Cap:EEPROM:1".to_vec()] },
    };
    assert_eq!(describe(&snapshot), FrameDescription::Null);
}

#[test]
fn state_frame_of_a_nameless_phase_is_none() {
    for state in [BridgeState::Preparing, BridgeState::Finishing] {
        let event = WebsocketEvents::StateUpdate { state, description: StateDescription::Empty };
        assert_eq!(frame_of(&event, 0), None);
    }
}

#[test]
fn terminal_frames() {
    assert_eq!(
        frame_of(&WebsocketEvents::TerminalRead { message: b" echo:hi ".to_vec() }, 42),
        Some(Frame::TerminalMessage {
            message: b" echo:hi ".to_vec(),
            kind: MessageKind::Output,
            id: None,
            time: 42
        })
    );
    let id = Uuid::from_u128(77);
    assert_eq!(
        frame_of(&WebsocketEvents::TerminalSend { message: b"  M105 \n".to_vec(), id }, 43),
        Some(Frame::TerminalMessage {
            message: b"M105".to_vec(),
            kind: MessageKind::Input,
            id: Some(id),
            time: 43
        })
    );
}

#[test]
fn temperature_frame_leaves_out_zero_readings() {
    let event = WebsocketEvents::TempUpdate {
        tools: vec![
            TempInfo::new(b"T".to_vec(), b"203.12".to_vec(), b"210.00".to_vec()),
            TempInfo::new(b"T1".to_vec(), b"0.00".to_vec(), b"0.00".to_vec()),
        ],
        bed: Some(TempInfo::new_no_name(b"0".to_vec(), b"60".to_vec())),
        chamber: None,
    };
    assert_eq!(
        frame_of(&event, 99),
        Some(Frame::TemperatureChange {
            tools: vec![
                Some(Reading {
                    name: b"T".to_vec(),
                    current_temp: b"203.12".to_vec(),
                    target_temp: b"210.00".to_vec()
                }),
                None
            ],
            bed: None,
            chamber: None,
            time: 99
        })
    );
    assert_eq!(
        show_reading(&TempInfo::new_no_name(b"59.8".to_vec(), b"60.0".to_vec())),
        Some(Reading {
            name: Vec::new(),
            current_temp: b"59.8".to_vec(),
            target_temp: b"60.0".to_vec()
        })
    );
}

#[test]
fn frame_now_carries_the_time_of_the_call() {
    match frame_now(&WebsocketEvents::TerminalRead { message: b"ok".to_vec() }) {
        Some(Frame::TerminalMessage { message, kind, id, time }) => {
            assert_eq!(message, b"ok".to_vec());
            assert_eq!(kind, MessageKind::Output);
            assert_eq!(id, None);
            assert!(time > 1_600_000_000_000);
        }
        other => panic!("unexpected frame {:?}", other),
    }
}

#[test]
fn ready_frame_names_the_permissions() {
    let user = AuthPermissions::new("ann".to_string(), 0b100_0001_0100);
    let snapshot = StateWrapper { state: BridgeState::Connected, description: StateDescription::Empty };
    let frame = ready_frame(&user, &snapshot).unwrap();
    assert_eq!(frame.username, "ann");
    assert_eq!(frame.state, "Connected");
    assert_eq!(frame.description, None);
    assert_eq!(
        frame.permissions,
        vec![
            ("admin", false),
            ("connection.edit", false),
            ("file.access", true),
            ("file.edit", false),
            ("print_state.edit", true),
            ("settings.edit", false),
            ("permissions.edit", false),
            ("terminal.read", false),
            ("terminal.send", false),
            ("webcam.view", false),
            ("update.check", true),
            ("update.manage", true),
        ]
    );
}

#[test]
fn ready_frame_of_an_administrator_grants_everything() {
    let user = AuthPermissions::new("root".to_string(), 1);
    let snapshot = StateWrapper { state: BridgeState::Disconnected, description: StateDescription::Empty };
    let frame = ready_frame(&user, &snapshot).unwrap();
    assert_eq!(frame.permissions.len(), 12);
    assert!(frame.permissions.iter().all(|(_, granted)| *granted));
}

#[test]
fn ready_frame_of_a_failed_session() {
    let user = AuthPermissions::new("ann".to_string(), 0);
    let known = StateWrapper {
        state: BridgeState::Errored,
        description: StateDescription::Error { message: b"Timed out".to_vec() },
    };
    assert_eq!(
        ready_frame(&user, &known).unwrap().description,
        Some(FrameDescription::Error { error_description: b"Timed out".to_vec() })
    );
    let unknown = StateWrapper { state: BridgeState::Errored, description: StateDescription::Empty };
    assert_eq!(
        ready_frame(&user, &unknown).unwrap().description,
        Some(FrameDescription::Error { error_description: b"Unknown error".to_vec() })
    );
}

#[test]
fn ready_frame_of_a_print() {
    let user = AuthPermissions::new("ann".to_string(), 0);
    let snapshot = StateWrapper { state: BridgeState::Printing, description: print_description() };
    let frame = ready_frame(&user, &snapshot).unwrap();
    assert_eq!(frame.state, "Printing");
    assert!(matches!(frame.description, Some(FrameDescription::Print { .. })));
    let bare = StateWrapper { state: BridgeState::Printing, description: StateDescription::Empty };
    assert_eq!(ready_frame(&user, &bare).unwrap().description, Some(FrameDescription::Null));
    let nameless = StateWrapper { state: BridgeState::Preparing, description: StateDescription::Empty };
    assert_eq!(ready_frame(&user, &nameless), None);
}

#[test]
fn sockets_answer_pings_and_refuse_messages() {
    assert_eq!(socket_action(Incoming::Close), SocketAction::Forget);
    assert_eq!(socket_action(Incoming::Ping), SocketAction::Pong);
    assert_eq!(socket_action(Incoming::Message), SocketAction::Refuse);
    assert_eq!(socket_action(Incoming::Failure), SocketAction::Forget);
}
