//! The supervisor: it consumes the distributor's events, keeps the snapshot
//! that clients are shown, passes commands on to the bridge and brings the
//! bridge up and down. Like the bridge it performs nothing itself.

use crate::models::{
    BridgeEvents, BridgeEventsView, BridgeState, EventInfo, EventType, EventTypeView,
    StateDescription, StateDescriptionView, StateWrapper, StateWrapperView, WebsocketEvents,
    WebsocketEventsView,
};
use crate::text::{bytes_of, lit};
use vstd::prelude::*;

verus! {

/// The milliseconds that the supervisor rests between two looks at an empty
/// distributor.
pub const IDLE_PAUSE: u64 = 300;

/// The same while a print runs.
pub const PRINTING_PAUSE: u64 = 3;

/// What the supervisor asks its runner to do.
#[derive(Debug, PartialEq, Eq)]
pub enum ManagerEffect {
    /// Make a bridge for this port and start it.
    Spawn { address: Vec<u8>, port: u32 },
    /// Put this event in the bridge's inbox.
    Forward { event: EventInfo },
    /// Tell every client.
    Broadcast { message: WebsocketEvents },
    /// Hand this event to the distributor.
    Publish { event: EventInfo },
    /// Give up the bridge's task.
    Teardown,
}

pub enum ManagerEffectView {
    Spawn { address: Seq<u8>, port: u32 },
    Forward { event: EventTypeView },
    Broadcast { message: WebsocketEventsView },
    Publish { event: EventTypeView },
    Teardown,
}

impl View for ManagerEffect {
    type V = ManagerEffectView;

    open spec fn view(&self) -> ManagerEffectView {
        match self {
            ManagerEffect::Spawn { address, port } => ManagerEffectView::Spawn {
                address: address@,
                port: *port,
            },
            ManagerEffect::Forward { event } => ManagerEffectView::Forward { event: event@ },
            ManagerEffect::Broadcast { message } => ManagerEffectView::Broadcast {
                message: message@,
            },
            ManagerEffect::Publish { event } => ManagerEffectView::Publish { event: event@ },
            ManagerEffect::Teardown => ManagerEffectView::Teardown,
        }
    }
}

impl DeepView for ManagerEffect {
    type V = ManagerEffectView;

    open spec fn deep_view(&self) -> ManagerEffectView {
        self@
    }
}

/// The supervisor's state: the snapshot, and whether a bridge is live.
pub struct ManagerView {
    pub state: StateWrapperView,
    pub bridge_live: bool,
}

/// The supervisor after an event and the effects that the event asks for.
pub struct Turn {
    pub next: ManagerView,
    pub effects: Seq<ManagerEffectView>,
}

/// The phases in which no serial session is left.
pub open spec fn is_down(state: BridgeState) -> bool {
    state == BridgeState::Disconnected || state == BridgeState::Errored
}

impl ManagerView {
    /// The supervisor at boot: disconnected, without a bridge.
    pub open spec fn fresh() -> ManagerView {
        ManagerView {
            state: StateWrapperView {
                state: BridgeState::Disconnected,
                description: StateDescriptionView::Empty,
            },
            bridge_live: false,
        }
    }

    /// A connection is asked for. While a bridge is live the request is an
    /// error; otherwise a bridge is made.
    pub open spec fn create(self, address: Seq<u8>, port: u32) -> Turn {
        if self.bridge_live {
            Turn {
                next: self,
                effects: seq![
                    ManagerEffectView::Publish {
                        event: EventTypeView::Bridge(
                            BridgeEventsView::ConnectionCreateError {
                                error: lit("already connected"),
                            },
                        ),
                    },
                ],
            }
        } else {
            Turn {
                next: ManagerView { bridge_live: true, ..self },
                effects: seq![ManagerEffectView::Spawn { address, port }],
            }
        }
    }

    /// A connection failed: the bridge is killed and given up, and the
    /// failure becomes the new snapshot by way of the distributor.
    pub open spec fn create_failed(self, error: Seq<u8>) -> Turn {
        let told = seq![
            ManagerEffectView::Forward { event: EventTypeView::Kill },
            ManagerEffectView::Publish {
                event: EventTypeView::Bridge(
                    BridgeEventsView::StateUpdate {
                        state: BridgeState::Errored,
                        description: StateDescriptionView::Error { message: error },
                    },
                ),
            },
        ];
        Turn {
            next: ManagerView { bridge_live: false, ..self },
            effects: if self.bridge_live {
                told.push(ManagerEffectView::Teardown)
            } else {
                told
            },
        }
    }

    /// The state has changed: the snapshot is replaced and every client is
    /// told; a session that is over takes the bridge down.
    pub open spec fn state_update(self, state: BridgeState, description: StateDescriptionView) -> Turn {
        let told = seq![
            ManagerEffectView::Broadcast {
                message: WebsocketEventsView::StateUpdate { state, description },
            },
        ];
        if is_down(state) {
            Turn {
                next: ManagerView {
                    state: StateWrapperView { state, description },
                    bridge_live: false,
                },
                effects: told.push(ManagerEffectView::Forward { event: EventTypeView::Kill }),
            }
        } else {
            Turn {
                next: ManagerView { state: StateWrapperView { state, description }, ..self },
                effects: told,
            }
        }
    }

    /// A command for the bridge: it is passed on while a bridge is live, and
    /// dropped otherwise.
    pub open spec fn pass_on(self, event: EventTypeView) -> Turn {
        Turn {
            next: self,
            effects: if self.bridge_live {
                seq![ManagerEffectView::Forward { event }]
            } else {
                Seq::empty()
            },
        }
    }

    /// What an event of the distributor does.
    pub open spec fn turn(self, event: EventTypeView) -> Turn {
        match event {
            EventTypeView::Kill => Turn { next: self, effects: Seq::empty() },
            EventTypeView::Websocket(shown) => Turn {
                next: self,
                effects: seq![ManagerEffectView::Broadcast { message: shown }],
            },
            EventTypeView::Bridge(BridgeEventsView::ConnectionCreate { address, port }) => {
                self.create(address, port)
            },
            EventTypeView::Bridge(BridgeEventsView::ConnectionCreateError { error }) => {
                self.create_failed(error)
            },
            EventTypeView::Bridge(BridgeEventsView::StateUpdate { state, description }) => {
                self.state_update(state, description)
            },
            EventTypeView::Bridge(command) => self.pass_on(event),
        }
    }

    /// The connection that the supervisor asks for at boot: with all three
    /// settings at hand, the switch on, a device path and a baud rate that
    /// fits, and no session yet.
    pub open spec fn boot_request(
        self,
        start_on_boot: Option<bool>,
        device_path: Option<Seq<u8>>,
        device_baud: Option<u64>,
    ) -> Option<EventTypeView> {
        if self.state.state == BridgeState::Disconnected && start_on_boot == Some(true)
            && device_path is Some && device_path.unwrap().len() > 0 && device_baud is Some
            && 0 < device_baud.unwrap() <= u32::MAX {
            Some(
                EventTypeView::Bridge(
                    BridgeEventsView::ConnectionCreate {
                        address: device_path.unwrap(),
                        port: device_baud.unwrap() as u32,
                    },
                ),
            )
        } else {
            None
        }
    }
}

#[derive(Debug)]
pub struct Manager {
    state: StateWrapper,
    bridge_live: bool,
}

impl View for Manager {
    type V = ManagerView;

    closed spec fn view(&self) -> ManagerView {
        ManagerView { state: self.state@, bridge_live: self.bridge_live }
    }
}

impl Manager {
    pub fn new() -> (r: Self)
        ensures
            r@ == ManagerView::fresh(),
    {
        Self {
            state: StateWrapper {
                state: BridgeState::Disconnected,
                description: StateDescription::Empty,
            },
            bridge_live: false,
        }
    }

    /// The snapshot that clients are shown.
    pub fn state(&self) -> (r: &StateWrapper)
        ensures
            r@ == self@.state,
    {
        &self.state
    }

    /// Whether a bridge is live.
    pub fn bridge_live(&self) -> (r: bool)
        ensures
            r == self@.bridge_live,
    {
        self.bridge_live
    }

    /// The milliseconds to rest when the distributor is empty: a print needs
    /// the supervisor awake.
    pub fn idle_pause(&self) -> (r: u64)
        ensures
            r == if self@.state.state == BridgeState::Printing {
                PRINTING_PAUSE
            } else {
                IDLE_PAUSE
            },
    {
        if self.state.state == BridgeState::Printing {
            PRINTING_PAUSE
        } else {
            IDLE_PAUSE
        }
    }

    /// Takes one event of the distributor.
    pub fn handle(&mut self, event: EventInfo) -> (effects: Vec<ManagerEffect>)
        ensures
            final(self)@ == old(self)@.turn(event@).next,
            effects.deep_view() == old(self)@.turn(event@).effects,
    {
        let mut out: Vec<ManagerEffect> = Vec::new();
        match event.event_type {
            EventType::Kill => {},
            EventType::Websocket(shown) => {
                out.push(ManagerEffect::Broadcast { message: shown });
            },
            EventType::Bridge(BridgeEvents::ConnectionCreate { address, port }) => {
                if self.bridge_live {
                    out.push(
                        ManagerEffect::Publish {
                            event: EventInfo {
                                event_type: EventType::Bridge(
                                    BridgeEvents::ConnectionCreateError {
                                        error: bytes_of("already connected"),
                                    },
                                ),
                            },
                        },
                    );
                } else {
                    self.bridge_live = true;
                    out.push(ManagerEffect::Spawn { address, port });
                }
            },
            EventType::Bridge(BridgeEvents::ConnectionCreateError { error }) => {
                out.push(ManagerEffect::Forward { event: EventInfo { event_type: EventType::Kill } });
                out.push(
                    ManagerEffect::Publish {
                        event: EventInfo {
                            event_type: EventType::Bridge(
                                BridgeEvents::StateUpdate {
                                    state: BridgeState::Errored,
                                    description: StateDescription::Error { message: error },
                                },
                            ),
                        },
                    },
                );
                if self.bridge_live {
                    out.push(ManagerEffect::Teardown);
                }
                self.bridge_live = false;
            },
            EventType::Bridge(BridgeEvents::StateUpdate { state, description }) => {
                let shown = description.copy();
                self.state = StateWrapper { state, description };
                out.push(
                    ManagerEffect::Broadcast {
                        message: WebsocketEvents::StateUpdate { state, description: shown },
                    },
                );
                if state == BridgeState::Disconnected || state == BridgeState::Errored {
                    out.push(
                        ManagerEffect::Forward { event: EventInfo { event_type: EventType::Kill } },
                    );
                    self.bridge_live = false;
                }
            },
            EventType::Bridge(command) => {
                if self.bridge_live {
                    out.push(
                        ManagerEffect::Forward {
                            event: EventInfo { event_type: EventType::Bridge(command) },
                        },
                    );
                }
            },
        }
        assert(out.deep_view() =~= old(self)@.turn(event@).effects);
        out
    }

    /// The connection to ask for at boot, if the settings ask for one.
    pub fn connect_boot(
        &self,
        start_on_boot: Option<bool>,
        device_path: Option<Vec<u8>>,
        device_baud: Option<u64>,
    ) -> (r: Option<EventInfo>)
        ensures
            match r {
                Some(event) => Some(event@),
                None => None,
            } == self@.boot_request(
                start_on_boot,
                match device_path {
                    Some(path) => Some(path@),
                    None => None,
                },
                device_baud,
            ),
    {
        if self.state.state != BridgeState::Disconnected {
            return None;
        }
        match (start_on_boot, device_path, device_baud) {
            (Some(true), Some(address), Some(baud)) => {
                if address.len() > 0 && 0 < baud && baud <= 0xffff_ffff {
                    Some(
                        EventInfo {
                            event_type: EventType::Bridge(
                                BridgeEvents::ConnectionCreate { address, port: baud as u32 },
                            ),
                        },
                    )
                } else {
                    None
                }
            },
            _ => None,
        }
    }
}

/// There is one bridge at a time: an event makes the supervisor spawn a
/// bridge only if none is live, and then that bridge is live.
pub proof fn lemma_one_bridge_at_a_time(s: ManagerView, event: EventTypeView)
    ensures
        forall|k: int|
            0 <= k < s.turn(event).effects.len() && (#[trigger] s.turn(event).effects[k] is Spawn)
                ==> !s.bridge_live && s.turn(event).next.bridge_live,
{
}

/// The end of a session takes the bridge down: an update to a state that
/// is down makes the supervisor kill the bridge and count it as gone.
pub proof fn lemma_session_end_takes_bridge_down(
    s: ManagerView,
    state: BridgeState,
    description: StateDescriptionView,
)
    requires
        is_down(state),
    ensures
        ({
            let turn = s.turn(
                EventTypeView::Bridge(BridgeEventsView::StateUpdate { state, description }),
            );
            &&& !turn.next.bridge_live
            &&& turn.next.state == (StateWrapperView { state, description })
            &&& turn.effects == seq![
                ManagerEffectView::Broadcast {
                    message: WebsocketEventsView::StateUpdate { state, description },
                },
                ManagerEffectView::Forward { event: EventTypeView::Kill },
            ]
        }),
{
}

} // verus!
