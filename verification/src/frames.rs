//! What clients are sent over their sockets, as values: the frames that
//! tell of a state, of a line on the terminal and of temperatures, and the
//! frame that greets a client. Writing them out as JSON is left to the sink.

use crate::auth::{AuthPermissions, AuthPermissionsView};
use crate::models::{
    BridgeState, StateDescription, StateDescriptionView, StateWrapper, StateWrapperView,
    WebsocketEvents, WebsocketEventsView,
};
use crate::outside::now;
use crate::parser::{reads_zero, TempInfo, TempInfoView};
use crate::print_info::Progress;
use crate::text::{copy_bytes, trim, trimmed};
use uuid::Uuid;
use vstd::prelude::*;

verus! {

/// The name under which clients know a phase; the two phases that no
/// session ever enters have none.
pub open spec fn state_name(state: BridgeState) -> Option<Seq<char>> {
    match state {
        BridgeState::Disconnected => Some("Disconnected"@),
        BridgeState::Connecting => Some("Connecting"@),
        BridgeState::Connected => Some("Connected"@),
        BridgeState::Errored => Some("Errored"@),
        BridgeState::Printing => Some("Printing"@),
        BridgeState::Preparing => None,
        BridgeState::Finishing => None,
    }
}

/// The name under which clients know a phase.
pub fn name_of(state: BridgeState) -> (r: Option<&'static str>)
    ensures
        match r {
            Some(name) => state_name(state) == Some(name@),
            None => state_name(state) is None,
        },
{
    match state {
        BridgeState::Disconnected => Some("Disconnected"),
        BridgeState::Connecting => Some("Connecting"),
        BridgeState::Connected => Some("Connected"),
        BridgeState::Errored => Some("Errored"),
        BridgeState::Printing => Some("Printing"),
        BridgeState::Preparing => None,
        BridgeState::Finishing => None,
    }
}

/// What a frame says of a state beyond its name.
#[derive(Debug, PartialEq, Eq)]
pub enum FrameDescription {
    /// Nothing.
    Null,
    /// Why the session failed.
    Error { error_description: Vec<u8> },
    /// Which file is printed and how far the print has come.
    Print { name: Vec<u8>, progress: Progress, start_time: i64, est_end_time: Option<i64> },
}

pub enum FrameDescriptionView {
    Null,
    Error { error_description: Seq<u8> },
    Print { name: Seq<u8>, progress: Progress, start_time: i64, est_end_time: Option<i64> },
}

impl View for FrameDescription {
    type V = FrameDescriptionView;

    open spec fn view(&self) -> FrameDescriptionView {
        match self {
            FrameDescription::Null => FrameDescriptionView::Null,
            FrameDescription::Error { error_description } => FrameDescriptionView::Error {
                error_description: error_description@,
            },
            FrameDescription::Print { name, progress, start_time, est_end_time } => {
                FrameDescriptionView::Print {
                    name: name@,
                    progress: *progress,
                    start_time: *start_time,
                    est_end_time: *est_end_time,
                }
            },
        }
    }
}

/// What a frame says of a snapshot: of a failed session why it failed, of a
/// print what is printed, and nothing otherwise.
pub open spec fn described(snapshot: StateWrapperView) -> FrameDescriptionView {
    match (snapshot.state, snapshot.description) {
        (BridgeState::Errored, StateDescriptionView::Error { message }) => {
            FrameDescriptionView::Error { error_description: message }
        },
        (
            BridgeState::Printing,
            StateDescriptionView::Print { filename, progress, start, end },
        ) => FrameDescriptionView::Print {
            name: filename,
            progress,
            start_time: start,
            est_end_time: end,
        },
        _ => FrameDescriptionView::Null,
    }
}

/// What a frame says of a snapshot.
pub fn describe(snapshot: &StateWrapper) -> (r: FrameDescription)
    ensures
        r@ == described(snapshot@),
{
    match snapshot.state {
        BridgeState::Errored => match &snapshot.description {
            StateDescription::Error { message } => FrameDescription::Error {
                error_description: copy_bytes(message.as_slice()),
            },
            _ => FrameDescription::Null,
        },
        BridgeState::Printing => match &snapshot.description {
            StateDescription::Print { filename, progress, start, end } => FrameDescription::Print {
                name: copy_bytes(filename.as_slice()),
                progress: *progress,
                start_time: *start,
                est_end_time: *end,
            },
            _ => FrameDescription::Null,
        },
        _ => FrameDescription::Null,
    }
}

/// The direction of a line on the clients' terminal: a command that went to
/// the firmware is input, a line that came from it is output.
#[derive(Clone, Copy, Debug, PartialEq, Eq, Structural)]
pub enum MessageKind {
    Input,
    Output,
}

/// A temperature as clients are sent it.
#[derive(Debug, PartialEq, Eq)]
pub struct Reading {
    pub name: Vec<u8>,
    pub current_temp: Vec<u8>,
    pub target_temp: Vec<u8>,
}

pub struct ReadingView {
    pub name: Seq<u8>,
    pub current_temp: Seq<u8>,
    pub target_temp: Seq<u8>,
}

impl View for Reading {
    type V = ReadingView;

    open spec fn view(&self) -> ReadingView {
        ReadingView {
            name: self.name@,
            current_temp: self.current_temp@,
            target_temp: self.target_temp@,
        }
    }
}

impl DeepView for Reading {
    type V = ReadingView;

    open spec fn deep_view(&self) -> ReadingView {
        self@
    }
}

/// A reading as clients are sent it: none if the temperature reads zero.
pub open spec fn shown_reading(info: TempInfoView) -> Option<ReadingView> {
    if reads_zero(info.current_temp) {
        None
    } else {
        Some(
            ReadingView {
                name: info.tool_name,
                current_temp: info.current_temp,
                target_temp: info.target_temp,
            },
        )
    }
}

/// The readings of an optional heater.
pub open spec fn shown_heater(info: Option<TempInfoView>) -> Option<ReadingView> {
    match info {
        Some(info) => shown_reading(info),
        None => None,
    }
}

/// A reading as clients are sent it.
pub fn show_reading(info: &TempInfo) -> (r: Option<Reading>)
    ensures
        r.deep_view() == shown_reading(info@),
{
    if info.is_absent() {
        None
    } else {
        Some(
            Reading {
                name: copy_bytes(info.tool_name().as_slice()),
                current_temp: copy_bytes(info.current_temp().as_slice()),
                target_temp: copy_bytes(info.target_temp().as_slice()),
            },
        )
    }
}

/// One frame for the clients.
#[derive(Debug, PartialEq, Eq)]
pub enum Frame {
    StateUpdate { state: &'static str, description: FrameDescription },
    TerminalMessage { message: Vec<u8>, kind: MessageKind, id: Option<Uuid>, time: i64 },
    TemperatureChange {
        tools: Vec<Option<Reading>>,
        bed: Option<Reading>,
        chamber: Option<Reading>,
        time: i64,
    },
}

pub enum FrameView {
    StateUpdate { state: Seq<char>, description: FrameDescriptionView },
    TerminalMessage { message: Seq<u8>, kind: MessageKind, id: Option<Uuid>, time: i64 },
    TemperatureChange {
        tools: Seq<Option<ReadingView>>,
        bed: Option<ReadingView>,
        chamber: Option<ReadingView>,
        time: i64,
    },
}

impl View for Frame {
    type V = FrameView;

    open spec fn view(&self) -> FrameView {
        match self {
            Frame::StateUpdate { state, description } => FrameView::StateUpdate {
                state: state@,
                description: description@,
            },
            Frame::TerminalMessage { message, kind, id, time } => FrameView::TerminalMessage {
                message: message@,
                kind: *kind,
                id: *id,
                time: *time,
            },
            Frame::TemperatureChange { tools, bed, chamber, time } => {
                FrameView::TemperatureChange {
                    tools: tools.deep_view(),
                    bed: bed.deep_view(),
                    chamber: chamber.deep_view(),
                    time: *time,
                }
            },
        }
    }
}

/// The frame that tells clients of an event at the time `time`. A state
/// whose phase has no name makes no frame. A command is shown without the
/// white space around it.
pub open spec fn frame_at(event: WebsocketEventsView, time: i64) -> Option<FrameView> {
    match event {
        WebsocketEventsView::StateUpdate { state, description } => match state_name(state) {
            Some(name) => Some(
                FrameView::StateUpdate {
                    state: name,
                    description: described(StateWrapperView { state, description }),
                },
            ),
            None => None,
        },
        WebsocketEventsView::TerminalRead { message } => Some(
            FrameView::TerminalMessage { message, kind: MessageKind::Output, id: None, time },
        ),
        WebsocketEventsView::TerminalSend { message, id } => Some(
            FrameView::TerminalMessage {
                message: trimmed(message),
                kind: MessageKind::Input,
                id: Some(id),
                time,
            },
        ),
        WebsocketEventsView::TempUpdate { tools, bed, chamber } => Some(
            FrameView::TemperatureChange {
                tools: tools.map_values(|info: TempInfoView| shown_reading(info)),
                bed: shown_heater(bed),
                chamber: shown_heater(chamber),
                time,
            },
        ),
    }
}

/// The frame that tells clients of an event at the time `time`.
pub fn frame_of(event: &WebsocketEvents, time: i64) -> (r: Option<Frame>)
    ensures
        match r {
            Some(frame) => Some(frame@),
            None => None,
        } == frame_at(event@, time),
{
    match event {
        WebsocketEvents::StateUpdate { state, description } => {
            match name_of(*state) {
                Some(name) => {
                    let snapshot = StateWrapper { state: *state, description: description.copy() };
                    Some(Frame::StateUpdate { state: name, description: describe(&snapshot) })
                },
                None => None,
            }
        },
        WebsocketEvents::TerminalRead { message } => Some(
            Frame::TerminalMessage {
                message: copy_bytes(message.as_slice()),
                kind: MessageKind::Output,
                id: None,
                time,
            },
        ),
        WebsocketEvents::TerminalSend { message, id } => Some(
            Frame::TerminalMessage {
                message: trim(message.as_slice()),
                kind: MessageKind::Input,
                id: Some(*id),
                time,
            },
        ),
        WebsocketEvents::TempUpdate { tools, bed, chamber } => {
            let mut shown: Vec<Option<Reading>> = Vec::new();
            let mut i: usize = 0;
            let ghost all = tools.deep_view().map_values(|info: TempInfoView| shown_reading(info));
            while i < tools.len()
                invariant
                    i <= tools.len(),
                    all == tools.deep_view().map_values(|info: TempInfoView| shown_reading(info)),
                    shown.deep_view() == all.subrange(0, i as int),
                decreases tools.len() - i,
            {
                let reading = show_reading(&tools[i]);
                let ghost before = shown.deep_view();
                shown.push(reading);
                assert(shown.deep_view() == before.push(reading.deep_view()));
                assert(all.subrange(0, i + 1) == all.subrange(0, i as int).push(all[i as int]));
                i = i + 1;
            }
            assert(all.subrange(0, tools.len() as int) == all);
            let bed = match bed {
                Some(info) => show_reading(info),
                None => None,
            };
            let chamber = match chamber {
                Some(info) => show_reading(info),
                None => None,
            };
            Some(Frame::TemperatureChange { tools: shown, bed, chamber, time })
        },
    }
}

/// The frame that tells clients of an event now.
pub fn frame_now(event: &WebsocketEvents) -> (r: Option<Frame>)
    ensures
        exists|time: i64|
            match r {
                Some(frame) => Some(frame@),
                None => None,
            } == #[trigger] frame_at(event@, time),
{
    let time = now();
    frame_of(event, time)
}

/// What comes in from a client's socket.
#[derive(Clone, Copy, Debug, PartialEq, Eq, Structural)]
pub enum Incoming {
    /// The client closes the socket.
    Close,
    /// The client asks whether the server is there.
    Ping,
    /// Any other message: clients have nothing to say on this socket.
    Message,
    /// The socket failed.
    Failure,
}

/// What to do with a client's socket.
#[derive(Clone, Copy, Debug, PartialEq, Eq, Structural)]
pub enum SocketAction {
    /// Close the socket in the ordinary way and forget it.
    Forget,
    /// Answer the ping.
    Pong,
    /// Tell the client that its message is not supported.
    Refuse,
}

/// What to do with a client's socket on what came in from it.
pub fn socket_action(incoming: Incoming) -> (r: SocketAction)
    ensures
        r == match incoming {
            Incoming::Close => SocketAction::Forget,
            Incoming::Ping => SocketAction::Pong,
            Incoming::Message => SocketAction::Refuse,
            Incoming::Failure => SocketAction::Forget,
        },
{
    match incoming {
        Incoming::Close => SocketAction::Forget,
        Incoming::Ping => SocketAction::Pong,
        Incoming::Message => SocketAction::Refuse,
        Incoming::Failure => SocketAction::Forget,
    }
}

/// The names of the permissions in the frame that greets a client, each
/// with the bit that grants it.
pub open spec fn permission_names() -> Seq<(Seq<char>, u16)> {
    seq![
        ("admin"@, 0u16),
        ("connection.edit"@, 1u16),
        ("file.access"@, 2u16),
        ("file.edit"@, 3u16),
        ("print_state.edit"@, 4u16),
        ("settings.edit"@, 5u16),
        ("permissions.edit"@, 6u16),
        ("terminal.read"@, 7u16),
        ("terminal.send"@, 8u16),
        ("webcam.view"@, 9u16),
        ("update.check"@, 10u16),
        ("update.manage"@, 10u16),
    ]
}

/// The frame that greets a client: who it is, what it may do, and the state.
#[derive(Debug, PartialEq, Eq)]
pub struct ReadyFrame {
    pub username: String,
    pub permissions: Vec<(&'static str, bool)>,
    pub state: &'static str,
    pub description: Option<FrameDescription>,
}

pub struct ReadyFrameView {
    pub username: Seq<char>,
    pub permissions: Seq<(Seq<char>, bool)>,
    pub state: Seq<char>,
    pub description: Option<FrameDescriptionView>,
}

/// The permissions of a user by their names.
pub open spec fn named_permissions(user: AuthPermissionsView) -> Seq<(Seq<char>, bool)> {
    permission_names().map_values(|entry: (Seq<char>, u16)| (entry.0, user.may(entry.1)))
}

/// What the greeting says of a snapshot beyond the phase's name: of a
/// failed session why it failed, or that the reason is unknown; of a print
/// what is printed, if that is known; and nothing of any other phase.
pub open spec fn greeted(snapshot: StateWrapperView) -> Option<FrameDescriptionView> {
    match snapshot.state {
        BridgeState::Errored => match snapshot.description {
            StateDescriptionView::Error { message } => Some(
                FrameDescriptionView::Error { error_description: message },
            ),
            _ => Some(
                FrameDescriptionView::Error {
                    error_description: crate::text::lit("Unknown error"),
                },
            ),
        },
        BridgeState::Printing => Some(described(snapshot)),
        _ => None,
    }
}

impl View for ReadyFrame {
    type V = ReadyFrameView;

    open spec fn view(&self) -> ReadyFrameView {
        ReadyFrameView {
            username: self.username@,
            permissions: Seq::new(
                self.permissions@.len(),
                |i: int| (self.permissions@[i].0@, self.permissions@[i].1),
            ),
            state: self.state@,
            description: match self.description {
                Some(description) => Some(description@),
                None => None,
            },
        }
    }
}

/// The frame that greets a client, if the phase has a name.
pub fn ready_frame(user: &AuthPermissions, snapshot: &StateWrapper) -> (r: Option<ReadyFrame>)
    ensures
        r is Some <==> state_name(snapshot@.state) is Some,
        match r {
            Some(frame) => frame@ == (ReadyFrameView {
                username: user@.username,
                permissions: named_permissions(user@),
                state: state_name(snapshot@.state).unwrap(),
                description: greeted(snapshot@),
            }),
            None => true,
        },
{
    let state = match name_of(snapshot.state) {
        Some(name) => name,
        None => {
            return None;
        },
    };
    let mut permissions: Vec<(&'static str, bool)> = Vec::new();
    permissions.push(("admin", *user.admin()));
    permissions.push(("connection.edit", *user.edit_connection()));
    permissions.push(("file.access", *user.file_access()));
    permissions.push(("file.edit", *user.file_edit()));
    permissions.push(("print_state.edit", *user.print_state_edit()));
    permissions.push(("settings.edit", *user.settings_edit()));
    permissions.push(("permissions.edit", *user.users_edit()));
    permissions.push(("terminal.read", *user.terminal_read()));
    permissions.push(("terminal.send", *user.terminal_send()));
    permissions.push(("webcam.view", *user.webcam()));
    permissions.push(("update.check", *user.update()));
    permissions.push(("update.manage", *user.update()));
    let description = match snapshot.state {
        BridgeState::Errored => match &snapshot.description {
            StateDescription::Error { message } => Some(
                FrameDescription::Error { error_description: copy_bytes(message.as_slice()) },
            ),
            _ => Some(
                FrameDescription::Error {
                    error_description: crate::text::bytes_of("Unknown error"),
                },
            ),
        },
        BridgeState::Printing => Some(describe(snapshot)),
        _ => None,
    };
    let frame = ReadyFrame {
        username: user.username().to_owned(),
        permissions,
        state,
        description,
    };
    assert(frame@.permissions =~= named_permissions(user@));
    Some(frame)
}

} // verus!
