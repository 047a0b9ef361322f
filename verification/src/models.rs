//! The bridge's state as others see it, and the events that travel between
//! the bridge, the supervisor and the clients.

use crate::parser::{TempInfo, TempInfoView};
use crate::print_info::{PrintInfo, PrintInfoView, Progress};
use crate::text::{copy_bytes, copy_lines, views};
use uuid::Uuid;
use vstd::prelude::*;

verus! {

/// The phase of the serial session.
#[derive(Clone, Copy, Debug, PartialEq, Eq, Structural)]
pub enum BridgeState {
    Disconnected,
    Connected,
    Connecting,
    Errored,
    Preparing,
    Printing,
    Finishing,
}

/// What the parser makes of the firmware's replies up to an acknowledgement.
#[derive(Clone, Copy, Debug, PartialEq, Eq)]
pub enum BridgeAction {
    Continue(Option<u64>),
    Resend(u64),
    Error,
}

/// What goes with a phase.
#[derive(Debug, PartialEq, Eq)]
pub enum StateDescription {
    Empty,
    Capability { capabilities: Vec<Vec<u8>> },
    Error { message: Vec<u8> },
    Print { filename: Vec<u8>, progress: Progress, start: i64, end: Option<i64> },
}

pub enum StateDescriptionView {
    Empty,
    Capability { capabilities: Seq<Seq<u8>> },
    Error { message: Seq<u8> },
    Print { filename: Seq<u8>, progress: Progress, start: i64, end: Option<i64> },
}

impl View for StateDescription {
    type V = StateDescriptionView;

    open spec fn view(&self) -> StateDescriptionView {
        match self {
            StateDescription::Empty => StateDescriptionView::Empty,
            StateDescription::Capability { capabilities } => StateDescriptionView::Capability {
                capabilities: views(capabilities@),
            },
            StateDescription::Error { message } => StateDescriptionView::Error {
                message: message@,
            },
            StateDescription::Print { filename, progress, start, end } => {
                StateDescriptionView::Print {
                    filename: filename@,
                    progress: *progress,
                    start: *start,
                    end: *end,
                }
            },
        }
    }
}

impl StateDescription {
    pub fn copy(&self) -> (r: Self)
        ensures
            r@ == self@,
    {
        match self {
            StateDescription::Empty => StateDescription::Empty,
            StateDescription::Capability { capabilities } => StateDescription::Capability {
                capabilities: copy_lines(capabilities),
            },
            StateDescription::Error { message } => StateDescription::Error {
                message: copy_bytes(message.as_slice()),
            },
            StateDescription::Print { filename, progress, start, end } => StateDescription::Print {
                filename: copy_bytes(filename.as_slice()),
                progress: *progress,
                start: *start,
                end: *end,
            },
        }
    }
}

/// The one snapshot of the bridge's state: a phase and what goes with it.
#[derive(Debug, PartialEq, Eq)]
pub struct StateWrapper {
    pub state: BridgeState,
    pub description: StateDescription,
}

pub struct StateWrapperView {
    pub state: BridgeState,
    pub description: StateDescriptionView,
}

impl View for StateWrapper {
    type V = StateWrapperView;

    open spec fn view(&self) -> StateWrapperView {
        StateWrapperView { state: self.state, description: self.description@ }
    }
}

impl StateWrapper {
    pub fn copy(&self) -> (r: Self)
        ensures
            r@ == self@,
    {
        StateWrapper { state: self.state, description: self.description.copy() }
    }
}

/// A command for the firmware and the identifier under which clients know it.
#[derive(Debug, PartialEq, Eq)]
pub struct Message {
    pub content: Vec<u8>,
    pub id: Uuid,
}

pub struct MessageView {
    pub content: Seq<u8>,
    pub id: Uuid,
}

impl View for Message {
    type V = MessageView;

    open spec fn view(&self) -> MessageView {
        MessageView { content: self.content@, id: self.id }
    }
}

impl DeepView for Message {
    type V = MessageView;

    open spec fn deep_view(&self) -> MessageView {
        self@
    }
}

impl Message {
    pub fn new(content: Vec<u8>, id: Uuid) -> (r: Self)
        ensures
            r@ == (MessageView { content: content@, id }),
    {
        Self { content, id }
    }
}

/// What clients are told.
#[derive(Debug, PartialEq, Eq)]
pub enum WebsocketEvents {
    TerminalRead { message: Vec<u8> },
    TerminalSend { message: Vec<u8>, id: Uuid },
    TempUpdate { tools: Vec<TempInfo>, bed: Option<TempInfo>, chamber: Option<TempInfo> },
    StateUpdate { state: BridgeState, description: StateDescription },
}

pub enum WebsocketEventsView {
    TerminalRead { message: Seq<u8> },
    TerminalSend { message: Seq<u8>, id: Uuid },
    TempUpdate { tools: Seq<TempInfoView>, bed: Option<TempInfoView>, chamber: Option<TempInfoView> },
    StateUpdate { state: BridgeState, description: StateDescriptionView },
}

impl View for WebsocketEvents {
    type V = WebsocketEventsView;

    open spec fn view(&self) -> WebsocketEventsView {
        match self {
            WebsocketEvents::TerminalRead { message } => WebsocketEventsView::TerminalRead {
                message: message@,
            },
            WebsocketEvents::TerminalSend { message, id } => WebsocketEventsView::TerminalSend {
                message: message@,
                id: *id,
            },
            WebsocketEvents::TempUpdate { tools, bed, chamber } => WebsocketEventsView::TempUpdate {
                tools: tools.deep_view(),
                bed: bed.deep_view(),
                chamber: chamber.deep_view(),
            },
            WebsocketEvents::StateUpdate { state, description } => WebsocketEventsView::StateUpdate {
                state: *state,
                description: description@,
            },
        }
    }
}

/// What the bridge and the supervisor are told.
#[derive(Debug, PartialEq, Eq)]
pub enum BridgeEvents {
    ConnectionCreate { address: Vec<u8>, port: u32 },
    ConnectionCreateError { error: Vec<u8> },
    TerminalSend { message: Vec<u8>, id: Uuid },
    StateUpdate { state: BridgeState, description: StateDescription },
    PrintStart { info: PrintInfo },
    PrintEnd,
}

pub enum BridgeEventsView {
    ConnectionCreate { address: Seq<u8>, port: u32 },
    ConnectionCreateError { error: Seq<u8> },
    TerminalSend { message: Seq<u8>, id: Uuid },
    StateUpdate { state: BridgeState, description: StateDescriptionView },
    PrintStart { info: PrintInfoView },
    PrintEnd,
}

impl View for BridgeEvents {
    type V = BridgeEventsView;

    open spec fn view(&self) -> BridgeEventsView {
        match self {
            BridgeEvents::ConnectionCreate { address, port } => BridgeEventsView::ConnectionCreate {
                address: address@,
                port: *port,
            },
            BridgeEvents::ConnectionCreateError { error } => {
                BridgeEventsView::ConnectionCreateError { error: error@ }
            },
            BridgeEvents::TerminalSend { message, id } => BridgeEventsView::TerminalSend {
                message: message@,
                id: *id,
            },
            BridgeEvents::StateUpdate { state, description } => BridgeEventsView::StateUpdate {
                state: *state,
                description: description@,
            },
            BridgeEvents::PrintStart { info } => BridgeEventsView::PrintStart { info: info@ },
            BridgeEvents::PrintEnd => BridgeEventsView::PrintEnd,
        }
    }
}

/// An event of the distributor.
#[derive(Debug, PartialEq, Eq)]
pub enum EventType {
    Kill,
    Bridge(BridgeEvents),
    Websocket(WebsocketEvents),
}

pub enum EventTypeView {
    Kill,
    Bridge(BridgeEventsView),
    Websocket(WebsocketEventsView),
}

impl View for EventType {
    type V = EventTypeView;

    open spec fn view(&self) -> EventTypeView {
        match self {
            EventType::Kill => EventTypeView::Kill,
            EventType::Bridge(event) => EventTypeView::Bridge(event@),
            EventType::Websocket(event) => EventTypeView::Websocket(event@),
        }
    }
}

#[derive(Debug, PartialEq, Eq)]
pub struct EventInfo {
    pub event_type: EventType,
}

impl View for EventInfo {
    type V = EventTypeView;

    open spec fn view(&self) -> EventTypeView {
        self.event_type@
    }
}

impl DeepView for EventInfo {
    type V = EventTypeView;

    open spec fn deep_view(&self) -> EventTypeView {
        self@
    }
}

} // verus!
