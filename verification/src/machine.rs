//! The bridge as a state machine over mathematical values: what each event
//! does to the bridge's state and which effects it asks its runner to perform.

use crate::models::{
    BridgeAction, BridgeEventsView, BridgeState, EventInfo, EventTypeView, MessageView,
    StateDescriptionView, StateWrapperView, WebsocketEventsView,
};
use crate::parser::{
    checksummed, classification, decision, is_ok, is_temperature, lemma_checksummed_shape,
    temperature_event,
};
use crate::print_info::PrintInfoView;
use crate::text::{lit, lowered, occurs_in};
use uuid::Uuid;
use vstd::prelude::*;

verus! {

/// After this many capability probes that another firmware answered, the
/// bridge gives up.
pub const MAX_PROBES: u32 = 5;

/// The seconds within which the firmware has to identify itself.
pub const CONNECT_TIMEOUT: u64 = 10;

/// The milliseconds after which a read from the port gives up.
pub const READ_TIMEOUT: u64 = 10;

/// The milliseconds to wait when the firmware says that it is busy.
pub const BUSY_PAUSE: u64 = 1000;

/// What the bridge asks its runner to do.
#[derive(Debug, PartialEq, Eq)]
pub enum BridgeEffect {
    /// Open the serial port.
    Open { address: Vec<u8>, baudrate: u32 },
    /// Report back when this many seconds have passed.
    Watch { seconds: u64 },
    /// Write these bytes to the port and report how it went.
    Write { message: Vec<u8>, id: Uuid },
    /// Hand this event to the distributor.
    Publish { event: EventInfo },
    /// Wait before reading on.
    Pause { millis: u64 },
    /// Close the port.
    Close,
}

pub enum BridgeEffectView {
    Open { address: Seq<u8>, baudrate: u32 },
    Watch { seconds: u64 },
    Write { message: Seq<u8>, id: Uuid },
    Publish { event: EventTypeView },
    Pause { millis: u64 },
    Close,
}

impl View for BridgeEffect {
    type V = BridgeEffectView;

    open spec fn view(&self) -> BridgeEffectView {
        match self {
            BridgeEffect::Open { address, baudrate } => BridgeEffectView::Open {
                address: address@,
                baudrate: *baudrate,
            },
            BridgeEffect::Watch { seconds } => BridgeEffectView::Watch { seconds: *seconds },
            BridgeEffect::Write { message, id } => BridgeEffectView::Write {
                message: message@,
                id: *id,
            },
            BridgeEffect::Publish { event } => BridgeEffectView::Publish { event: event@ },
            BridgeEffect::Pause { millis } => BridgeEffectView::Pause { millis: *millis },
            BridgeEffect::Close => BridgeEffectView::Close,
        }
    }
}

impl DeepView for BridgeEffect {
    type V = BridgeEffectView;

    open spec fn deep_view(&self) -> BridgeEffectView {
        self@
    }
}

/// What happens to the bridge.
pub enum BridgeInputView {
    Start,
    PortOpened,
    PortFailed { error: Seq<u8> },
    Event { event: EventTypeView },
    Byte { byte: u8 },
    ReadTimedOut,
    ReadFailed { error: Seq<u8> },
    WriteDone { message: Seq<u8>, id: Uuid },
    WriteFailed { error: Seq<u8> },
    TimeoutElapsed,
}

/// The bridge's state.
pub struct BridgeView {
    pub address: Seq<u8>,
    pub baudrate: u32,
    /// The snapshot: the phase and what goes with it.
    pub state: StateWrapperView,
    /// The job that is printed.
    pub print_info: Option<PrintInfoView>,
    /// The commands that wait for the firmware to be ready.
    pub message_queue: Seq<MessageView>,
    /// Whether the firmware is ready for the next command.
    pub ready: bool,
    /// The bytes of the line that is being read.
    pub collected: Seq<u8>,
    /// The batch: the lines read since the last acknowledgement.
    pub collected_responses: Seq<Seq<u8>>,
    /// Whether the firmware has reported its capabilities.
    pub has_collected_capabilities: bool,
    /// The commands that follow the capability report, the next one last.
    pub commands_left_to_send: Seq<Seq<u8>>,
    /// How often the capability probe was sent again.
    pub probes: u32,
    /// Whether the bridge was killed.
    pub canceled: bool,
}

/// The state after an event and the effects that the event asks for.
pub struct Step {
    pub next: BridgeView,
    pub effects: Seq<BridgeEffectView>,
}

/// `text`, ended by a newline if it does not end with one.
pub open spec fn with_newline(text: Seq<u8>) -> Seq<u8> {
    if text.len() > 0 && text.last() == 10 {
        text
    } else {
        text.push(10)
    }
}

/// The effect that tells the distributor of a new snapshot.
pub open spec fn publish_state(
    state: BridgeState,
    description: StateDescriptionView,
) -> BridgeEffectView {
    BridgeEffectView::Publish {
        event: EventTypeView::Bridge(BridgeEventsView::StateUpdate { state, description }),
    }
}

/// The effect that shows clients a line of the firmware.
pub open spec fn publish_read(line: Seq<u8>) -> BridgeEffectView {
    BridgeEffectView::Publish {
        event: EventTypeView::Websocket(WebsocketEventsView::TerminalRead { message: line }),
    }
}

/// The effect that shows clients a command that was written.
pub open spec fn publish_sent(message: Seq<u8>, id: Uuid) -> BridgeEffectView {
    BridgeEffectView::Publish {
        event: EventTypeView::Websocket(WebsocketEventsView::TerminalSend { message, id }),
    }
}

/// Some line of the batch holds `p`.
pub open spec fn any_line_holds(batch: Seq<Seq<u8>>, p: Seq<u8>) -> bool {
    exists|i: int| 0 <= i < batch.len() && occurs_in(#[trigger] batch[i], p)
}

/// The commands that follow the capability report, in the order in which
/// they are put aside: the one put aside last goes out first.
pub open spec fn follow_ups(batch: Seq<Seq<u8>>) -> Seq<Seq<u8>> {
    let report = if any_line_holds(batch, lit("Cap:AUTOREPORT_TEMP:1")) {
        seq![lit("M155 S2")]
    } else {
        Seq::<Seq<u8>>::empty()
    };
    if any_line_holds(batch, lit("Cap:EEPROM:1")) {
        report.push(lit("M501"))
    } else {
        report
    }
}

/// The description of a running print.
pub open spec fn print_description(job: PrintInfoView) -> StateDescriptionView {
    StateDescriptionView::Print {
        filename: job.filename,
        progress: job.progress(),
        start: job.start,
        end: job.end,
    }
}

impl BridgeView {
    /// A bridge for that port, before it is started.
    pub open spec fn fresh(address: Seq<u8>, baudrate: u32) -> BridgeView {
        BridgeView {
            address,
            baudrate,
            state: StateWrapperView {
                state: BridgeState::Disconnected,
                description: StateDescriptionView::Empty,
            },
            print_info: None,
            message_queue: Seq::empty(),
            ready: true,
            collected: Seq::empty(),
            collected_responses: Seq::empty(),
            has_collected_capabilities: false,
            commands_left_to_send: Seq::empty(),
            probes: 0,
            canceled: false,
        }
    }

    /// Nothing happens.
    pub open spec fn stay(self) -> Step {
        Step { next: self, effects: Seq::empty() }
    }

    /// The snapshot is replaced; a bridge that becomes connected is ready.
    pub open spec fn installed(
        self,
        state: BridgeState,
        description: StateDescriptionView,
    ) -> BridgeView {
        BridgeView {
            state: StateWrapperView { state, description },
            ready: state == BridgeState::Connected || self.ready,
            ..self
        }
    }

    /// The snapshot is replaced and the distributor is told.
    pub open spec fn transition(
        self,
        state: BridgeState,
        description: StateDescriptionView,
    ) -> Step {
        Step {
            next: self.installed(state, description),
            effects: seq![publish_state(state, description)],
        }
    }

    /// The bridge fails with that message.
    pub open spec fn errored(self, message: Seq<u8>) -> Step {
        self.transition(BridgeState::Errored, StateDescriptionView::Error { message })
    }

    /// A command is written: the firmware is not ready for another one.
    pub open spec fn write(self, message: Seq<u8>, id: Uuid) -> Step {
        Step {
            next: BridgeView { ready: false, ..self },
            effects: seq![BridgeEffectView::Write { message, id }],
        }
    }

    /// A command is to be sent. A connected bridge whose firmware is not
    /// ready puts it in the queue; otherwise it is written, ended by a newline.
    pub open spec fn send(self, text: Seq<u8>, id: Uuid) -> Step {
        let message = with_newline(text);
        if self.state.state == BridgeState::Connected && !self.ready {
            Step {
                next: BridgeView {
                    message_queue: self.message_queue.push(MessageView { content: message, id }),
                    ..self
                },
                effects: Seq::empty(),
            }
        } else {
            self.write(message, id)
        }
    }

    /// A print is to start. Only a connected bridge takes the job: it moves
    /// to printing and resets the firmware's line counter.
    pub open spec fn start_print(self, info: PrintInfoView, id: Uuid) -> Step {
        if self.state.state != BridgeState::Connected {
            self.stay()
        } else {
            let printing = BridgeView { print_info: Some(info), ..self }.transition(
                BridgeState::Printing,
                print_description(info),
            );
            let reset = printing.next.send(lit("M110 N0"), id);
            Step { next: reset.next, effects: printing.effects + reset.effects }
        }
    }

    /// The print is to end. Only a printing bridge has one to end: it drops
    /// the job and is connected again.
    pub open spec fn end_print(self) -> Step {
        if self.state.state != BridgeState::Printing {
            self.stay()
        } else {
            BridgeView { print_info: None, ..self }.transition(
                BridgeState::Connected,
                StateDescriptionView::Empty,
            )
        }
    }

    /// The bridge is killed: the port is to be closed, and nothing happens
    /// to the bridge any more.
    pub open spec fn kill(self) -> Step {
        Step { next: BridgeView { canceled: true, ..self }, effects: seq![BridgeEffectView::Close] }
    }

    /// An event of the inbox.
    pub open spec fn event(self, event: EventTypeView, id: Uuid) -> Step {
        if self.canceled {
            self.stay()
        } else {
            match event {
                EventTypeView::Kill => self.kill(),
                EventTypeView::Bridge(BridgeEventsView::TerminalSend { message, id: sent }) => {
                    self.send(message, sent)
                },
                EventTypeView::Bridge(BridgeEventsView::PrintStart { info }) => self.start_print(
                    info,
                    id,
                ),
                EventTypeView::Bridge(BridgeEventsView::PrintEnd) => self.end_print(),
                EventTypeView::Bridge(BridgeEventsView::StateUpdate { state, description }) => {
                    Step { next: self.installed(state, description), effects: Seq::empty() }
                },
                _ => self.stay(),
            }
        }
    }

    /// The bridge starts: it is connecting, and the port is to be opened.
    pub open spec fn start(self) -> Step {
        if self.canceled {
            self.stay()
        } else {
            let connecting = self.transition(
                BridgeState::Connecting,
                StateDescriptionView::Empty,
            );
            Step {
                next: connecting.next,
                effects: connecting.effects.push(
                    BridgeEffectView::Open { address: self.address, baudrate: self.baudrate },
                ),
            }
        }
    }

    /// The port is open: the watchdog is set and the firmware is asked to
    /// identify itself.
    pub open spec fn port_opened(self, id: Uuid) -> Step {
        if self.canceled {
            self.stay()
        } else {
            let probe = self.send(lit("M115"), id);
            Step {
                next: probe.next,
                effects: seq![BridgeEffectView::Watch { seconds: CONNECT_TIMEOUT }] + probe.effects,
            }
        }
    }

    /// The port could not be opened: the distributor is told why.
    pub open spec fn port_failed(self, error: Seq<u8>) -> Step {
        if self.canceled {
            self.stay()
        } else {
            Step {
                next: self,
                effects: seq![
                    BridgeEffectView::Publish {
                        event: EventTypeView::Bridge(
                            BridgeEventsView::ConnectionCreateError { error },
                        ),
                    },
                ],
            }
        }
    }

    /// The watchdog's time is over: a bridge that is still connecting fails.
    pub open spec fn timeout_elapsed(self) -> Step {
        if !self.canceled && self.state.state == BridgeState::Connecting {
            self.errored(lit("Timed out"))
        } else {
            self.stay()
        }
    }

    /// A command was written: clients are shown it, under its identifier.
    pub open spec fn write_done(self, message: Seq<u8>, id: Uuid) -> Step {
        if self.canceled {
            self.stay()
        } else {
            Step { next: self, effects: seq![publish_sent(message, id)] }
        }
    }

    /// Writing or reading failed: the bridge fails with the reason.
    pub open spec fn io_failed(self, error: Seq<u8>) -> Step {
        if self.canceled {
            self.stay()
        } else {
            self.errored(error)
        }
    }

    /// Nothing came from the port for a while: if the firmware is ready, the
    /// command that waits longest is written.
    pub open spec fn read_timed_out(self) -> Step {
        if !self.canceled && self.ready && self.message_queue.len() > 0 {
            BridgeView { message_queue: self.message_queue.drop_first(), ..self }.write(
                self.message_queue[0].content,
                self.message_queue[0].id,
            )
        } else {
            self.stay()
        }
    }

    /// The print goes on behind an acknowledgement. With a line number, the
    /// cursor moves there; without one, only a print that has not begun moves,
    /// to line 1. The line behind the cursor goes out; if there is none, the
    /// print is complete.
    pub open spec fn print_on(self, job: PrintInfoView, ack: Option<u64>, id: Uuid) -> Step {
        if ack is None && job.line_number != 0 {
            self.stay()
        } else {
            let cursor: u64 = if ack is Some {
                ack.unwrap()
            } else {
                1
            };
            let next: int = if ack is Some {
                ack.unwrap() + 1
            } else {
                1
            };
            let moved = job.with_line_number(cursor);
            if next >= moved.lines.len() {
                BridgeView { print_info: Some(moved), ..self }.end_print()
            } else {
                let text = moved.lines[next];
                let counted = if text.len() > u64::MAX {
                    moved.with_bytes_sent(u64::MAX)
                } else {
                    moved.with_bytes_sent(text.len() as u64)
                };
                let told = if counted.progress().tenths() != moved.progress().tenths() {
                    BridgeView { print_info: Some(counted), ..self }.transition(
                        BridgeState::Printing,
                        print_description(counted),
                    )
                } else {
                    BridgeView { print_info: Some(counted), ..self }.stay()
                };
                let sent = told.next.send(checksummed(next as nat, text), id);
                Step { next: sent.next, effects: told.effects + sent.effects }
            }
        }
    }

    /// The firmware asks for a line again. The request is counted; too many
    /// of them, or one for a line that the job does not have, fail the
    /// bridge. Otherwise the cursor moves to that line and the line goes out.
    pub open spec fn resend(self, job: PrintInfoView, line: u64, id: Uuid) -> Step {
        let counted = job.with_resend();
        let noted = BridgeView { print_info: Some(counted), ..self };
        if counted.resend_limit_exceeded() {
            noted.errored(lit("Resend ratio went above 10%"))
        } else if line >= counted.lines.len() {
            noted.errored(lit("Cannot resend line"))
        } else {
            BridgeView { print_info: Some(counted.with_line_number(line)), ..self }.send(
                checksummed(line as nat, counted.lines[line as int]),
                id,
            )
        }
    }

    /// What the bridge does on what a batch asks for.
    pub open spec fn decide(self, action: BridgeAction, id: Uuid) -> Step {
        match action {
            BridgeAction::Continue(ack) => {
                if self.state.state == BridgeState::Printing {
                    match self.print_info {
                        Some(job) => self.print_on(job, ack, id),
                        None => self.stay(),
                    }
                } else if self.state.state == BridgeState::Connected {
                    if self.message_queue.len() > 0 {
                        BridgeView {
                            message_queue: self.message_queue.drop_first(),
                            ..self
                        }.write(self.message_queue[0].content, self.message_queue[0].id)
                    } else {
                        Step { next: BridgeView { ready: true, ..self }, effects: Seq::empty() }
                    }
                } else {
                    self.stay()
                }
            },
            BridgeAction::Error => self.errored(lit("Bridge encountered unknown error")),
            BridgeAction::Resend(line) => {
                if self.state.state == BridgeState::Printing {
                    match self.print_info {
                        Some(job) => self.resend(job, line, id),
                        None => self.stay(),
                    }
                } else {
                    self.stay()
                }
            },
        }
    }

    /// An acknowledgement closes the batch: the batch is judged and emptied.
    pub open spec fn ok_response(self, id: Uuid) -> Step {
        BridgeView { collected_responses: Seq::empty(), ..self }.decide(
            decision(self.collected_responses),
            id,
        )
    }

    /// A line arrives at a bridge that is connecting.
    pub open spec fn line_connecting(self, line: Seq<u8>, id: Uuid) -> Step {
        let shown = if is_temperature(line) {
            Seq::<BridgeEffectView>::empty()
        } else {
            seq![publish_read(line)]
        };
        if lit("error").is_prefix_of(lowered(line)) {
            let failed = self.errored(line);
            Step { next: failed.next, effects: shown + failed.effects }
        } else if self.has_collected_capabilities {
            if !is_ok(line) {
                Step { next: self, effects: shown }
            } else if self.commands_left_to_send.len() == 0 {
                let connected = BridgeView {
                    collected_responses: Seq::empty(),
                    ..self
                }.transition(
                    BridgeState::Connected,
                    StateDescriptionView::Capability { capabilities: self.collected_responses },
                );
                Step { next: connected.next, effects: shown + connected.effects }
            } else {
                let sent = BridgeView {
                    commands_left_to_send: self.commands_left_to_send.drop_last(),
                    ..self
                }.send(self.commands_left_to_send.last(), id);
                Step { next: sent.next, effects: shown + sent.effects }
            }
        } else if is_ok(line) {
            if self.collected_responses.len() == 0 {
                Step { next: self, effects: shown }
            } else if lit("FIRMWARE_NAME:Marlin").is_prefix_of(self.collected_responses[0]) {
                let sent = BridgeView {
                    has_collected_capabilities: true,
                    commands_left_to_send: follow_ups(self.collected_responses),
                    ..self
                }.send(lit("G90"), id);
                Step { next: sent.next, effects: shown + sent.effects }
            } else if self.probes + 1 >= MAX_PROBES {
                let failed = BridgeView { collected_responses: Seq::empty(), ..self }.errored(
                    lit("Unsupported firmware"),
                );
                Step { next: failed.next, effects: shown + failed.effects }
            } else {
                let sent = BridgeView {
                    collected_responses: Seq::empty(),
                    probes: (self.probes + 1) as u32,
                    ..self
                }.send(lit("M115"), id);
                Step { next: sent.next, effects: shown + sent.effects }
            }
        } else {
            Step {
                next: BridgeView {
                    collected_responses: self.collected_responses.push(line),
                    ..self
                },
                effects: shown,
            }
        }
    }

    /// A line arrives at a bridge that is not connecting. A temperature
    /// report goes to the clients as such; any other line is shown to them and
    /// joins the batch. A busy firmware makes a printing bridge pause. A line
    /// that begins with `ok` closes the batch.
    pub open spec fn line_running(self, line: Seq<u8>, id: Uuid) -> Step {
        let noted = if is_temperature(line) {
            Step {
                next: self,
                effects: seq![
                    BridgeEffectView::Publish {
                        event: EventTypeView::Websocket(temperature_event(line)),
                    },
                ],
            }
        } else {
            Step {
                next: BridgeView {
                    collected_responses: self.collected_responses.push(line),
                    ..self
                },
                effects: seq![publish_read(line)],
            }
        };
        let paused = if self.state.state == BridgeState::Printing && classification(line) is Busy {
            noted.effects.push(BridgeEffectView::Pause { millis: BUSY_PAUSE })
        } else {
            noted.effects
        };
        if is_ok(line) {
            let judged = noted.next.ok_response(id);
            Step { next: judged.next, effects: paused + judged.effects }
        } else {
            Step { next: noted.next, effects: paused }
        }
    }

    /// A line of the firmware arrives.
    pub open spec fn line(self, line: Seq<u8>, id: Uuid) -> Step {
        if self.canceled {
            self.stay()
        } else if self.state.state == BridgeState::Connecting {
            self.line_connecting(line, id)
        } else {
            self.line_running(line, id)
        }
    }

    /// A byte arrives from the port: a newline ends the line that is being
    /// read, any other byte joins it.
    pub open spec fn byte(self, byte: u8, id: Uuid) -> Step {
        if self.canceled {
            self.stay()
        } else if byte == 10 {
            BridgeView { collected: Seq::empty(), ..self }.line(self.collected, id)
        } else {
            Step {
                next: BridgeView { collected: self.collected.push(byte), ..self },
                effects: Seq::empty(),
            }
        }
    }

    /// What an input does to the bridge; `id` names the command that the
    /// bridge may send of its own.
    pub open spec fn step(self, input: BridgeInputView, id: Uuid) -> Step {
        match input {
            BridgeInputView::Start => self.start(),
            BridgeInputView::PortOpened => self.port_opened(id),
            BridgeInputView::PortFailed { error } => self.port_failed(error),
            BridgeInputView::Event { event } => self.event(event, id),
            BridgeInputView::Byte { byte } => self.byte(byte, id),
            BridgeInputView::ReadTimedOut => self.read_timed_out(),
            BridgeInputView::ReadFailed { error } => self.io_failed(error),
            BridgeInputView::WriteDone { message, id: written } => self.write_done(
                message,
                written,
            ),
            BridgeInputView::WriteFailed { error } => self.io_failed(error),
            BridgeInputView::TimeoutElapsed => self.timeout_elapsed(),
        }
    }
}

/// The effect shows clients a line of the firmware.
pub open spec fn shows_line(effect: BridgeEffectView) -> bool {
    effect matches BridgeEffectView::Publish {
        event: EventTypeView::Websocket(WebsocketEventsView::TerminalRead { .. }),
    }
}

/// The effect shows clients a command that was written.
pub open spec fn shows_command(effect: BridgeEffectView) -> bool {
    effect matches BridgeEffectView::Publish {
        event: EventTypeView::Websocket(WebsocketEventsView::TerminalSend { .. }),
    }
}

/// None of the effects shows clients a line of the firmware.
pub open spec fn shows_no_line(effects: Seq<BridgeEffectView>) -> bool {
    forall|k: int| 0 <= k < effects.len() ==> !shows_line(#[trigger] effects[k])
}

/// None of the effects shows clients a command.
pub open spec fn shows_no_command(effects: Seq<BridgeEffectView>) -> bool {
    forall|k: int| 0 <= k < effects.len() ==> !shows_command(#[trigger] effects[k])
}

/// The writes that empty a queue, the command that waits longest first.
pub open spec fn writes_of(queue: Seq<MessageView>) -> Seq<BridgeEffectView> {
    Seq::new(
        queue.len(),
        |k: int| BridgeEffectView::Write { message: queue[k].content, id: queue[k].id },
    )
}

impl BridgeView {
    /// The bridge after `count` acknowledgements in a row, each closing a
    /// batch without a resend request or an error, and the effects of them all.
    pub open spec fn acknowledged(self, count: nat, ack: Option<u64>, id: Uuid) -> Step
        decreases count,
    {
        if count == 0 {
            self.stay()
        } else {
            let first = self.decide(BridgeAction::Continue(ack), id);
            let rest = first.next.acknowledged((count - 1) as nat, ack, id);
            Step { next: rest.next, effects: first.effects + rest.effects }
        }
    }
}

/// In a print, the acknowledgement of line `i` makes the bridge send line
/// `i + 1` next, numbered and checksummed, and moves the cursor to `i`.
pub proof fn lemma_ack_sends_next_line(s: BridgeView, job: PrintInfoView, i: u64, id: Uuid)
    requires
        s.state.state == BridgeState::Printing,
        s.print_info == Some(job),
        i + 1 < job.lines.len(),
    ensures
        ({
            let r = s.decide(BridgeAction::Continue(Some(i)), id);
            &&& r.effects.len() >= 1
            &&& r.effects.last() == BridgeEffectView::Write {
                message: checksummed((i + 1) as nat, job.lines[i + 1]).push(10),
                id,
            }
            &&& forall|k: int| 0 <= k < r.effects.len() - 1 ==> !(#[trigger] r.effects[k] is Write)
            &&& r.next.state.state == BridgeState::Printing
            &&& r.next.print_info is Some
            &&& r.next.print_info.unwrap().line_number == i
            &&& r.next.print_info.unwrap().lines == job.lines
        }),
{
    lemma_checksummed_shape((i + 1) as nat, job.lines[i + 1]);
}

/// In a print that has not begun, an acknowledgement without a line number
/// makes the bridge send line 1; once the print has begun, such an
/// acknowledgement changes nothing.
pub proof fn lemma_unnumbered_ack(s: BridgeView, job: PrintInfoView, id: Uuid)
    requires
        s.state.state == BridgeState::Printing,
        s.print_info == Some(job),
        1 < job.lines.len(),
    ensures
        job.line_number != 0 ==> s.decide(BridgeAction::Continue(None), id) == s.stay(),
        job.line_number == 0 ==> ({
            let r = s.decide(BridgeAction::Continue(None), id);
            &&& r.effects.len() >= 1
            &&& r.effects.last() == BridgeEffectView::Write {
                message: checksummed(1, job.lines[1]).push(10),
                id,
            }
            &&& r.next.print_info is Some
            &&& r.next.print_info.unwrap().line_number == 1
        }),
{
    lemma_checksummed_shape(1, job.lines[1]);
}

/// In a print, a request to send line `k` again makes the bridge send
/// line `k` next and moves the cursor to `k`, unless more than a tenth of the
/// job's lines were asked for again.
pub proof fn lemma_resend_sends_that_line(s: BridgeView, job: PrintInfoView, k: u64, id: Uuid)
    requires
        s.state.state == BridgeState::Printing,
        s.print_info == Some(job),
        k < job.lines.len(),
        !job.with_resend().resend_limit_exceeded(),
    ensures
        ({
            let r = s.decide(BridgeAction::Resend(k), id);
            &&& r.effects == seq![
                BridgeEffectView::Write {
                    message: checksummed(k as nat, job.lines[k as int]).push(10),
                    id,
                },
            ]
            &&& r.next.state.state == BridgeState::Printing
            &&& r.next.print_info is Some
            &&& r.next.print_info.unwrap().line_number == k
            &&& r.next.print_info.unwrap().lines == job.lines
        }),
{
    lemma_checksummed_shape(k as nat, job.lines[k as int]);
}

/// In a print, the acknowledgement of the job's last line ends the print:
/// nothing is written, the job is dropped and the bridge is connected again.
pub proof fn lemma_last_ack_ends_print(s: BridgeView, job: PrintInfoView, i: u64, id: Uuid)
    requires
        s.state.state == BridgeState::Printing,
        s.print_info == Some(job),
        i + 1 >= job.lines.len(),
    ensures
        ({
            let r = s.decide(BridgeAction::Continue(Some(i)), id);
            &&& r.effects == seq![
                publish_state(BridgeState::Connected, StateDescriptionView::Empty),
            ]
            &&& r.next.state.state == BridgeState::Connected
            &&& r.next.print_info is None
            &&& r.next.ready
        }),
{
}

/// A command that a connected bridge takes while the firmware is not ready
/// is not written: it joins the queue behind those that wait already.
pub proof fn lemma_early_send_waits(s: BridgeView, text: Seq<u8>, id: Uuid)
    requires
        s.state.state == BridgeState::Connected,
        !s.ready,
    ensures
        s.send(text, id).effects == Seq::<BridgeEffectView>::empty(),
        s.send(text, id).next == (BridgeView {
            message_queue: s.message_queue.push(
                MessageView { content: with_newline(text), id },
            ),
            ..s
        }),
{
}

/// Acknowledgements release the commands that wait at a connected bridge
/// one at a time: `count` acknowledgements write the first `count` of them,
/// each once and in their order, and nothing else happens.
pub proof fn lemma_acknowledgements_release(s: BridgeView, count: nat, ack: Option<u64>, id: Uuid)
    requires
        s.state.state == BridgeState::Connected,
        count <= s.message_queue.len(),
    ensures
        s.acknowledged(count, ack, id).effects == writes_of(
            s.message_queue.subrange(0, count as int),
        ),
        s.acknowledged(count, ack, id).next == (BridgeView {
            message_queue: s.message_queue.skip(count as int),
            ready: if count > 0 {
                false
            } else {
                s.ready
            },
            ..s
        }),
    decreases count,
{
    if count == 0 {
        assert(s.message_queue.skip(0) == s.message_queue);
        assert(writes_of(s.message_queue.subrange(0, 0)) == Seq::<BridgeEffectView>::empty());
    } else {
        let first = s.decide(BridgeAction::Continue(ack), id);
        lemma_acknowledgements_release(first.next, (count - 1) as nat, ack, id);
        let rest = first.next.acknowledged((count - 1) as nat, ack, id);
        assert(first.next.message_queue == s.message_queue.drop_first());
        assert(s.message_queue.drop_first().skip(count - 1) == s.message_queue.skip(count as int));
        assert(first.effects + rest.effects == writes_of(
            s.message_queue.subrange(0, count as int),
        ));
    }
}

/// A command that a connected bridge takes while the firmware is not ready
/// is written exactly once, and only behind the acknowledgements that
/// release the commands waiting before it: with `n` commands in the queue,
/// the next `n` acknowledgements write those and not yet this one, and the
/// acknowledgement after them writes this one and leaves the queue empty.
pub proof fn lemma_queued_send_written_once(
    s: BridgeView,
    text: Seq<u8>,
    id: Uuid,
    ack: Option<u64>,
    fresh: Uuid,
)
    requires
        s.state.state == BridgeState::Connected,
        !s.ready,
    ensures
        ({
            let queued = s.send(text, id).next;
            let n = s.message_queue.len();
            let write = BridgeEffectView::Write { message: with_newline(text), id };
            &&& s.send(text, id).effects == Seq::<BridgeEffectView>::empty()
            &&& queued.acknowledged(n, ack, fresh).effects == writes_of(s.message_queue)
            &&& queued.acknowledged(n + 1, ack, fresh).effects == writes_of(s.message_queue).push(
                write,
            )
            &&& queued.acknowledged(n + 1, ack, fresh).next.message_queue.len() == 0
        }),
{
    let queued = s.send(text, id).next;
    let n = s.message_queue.len();
    lemma_acknowledgements_release(queued, n, ack, fresh);
    lemma_acknowledgements_release(queued, n + 1, ack, fresh);
    assert(queued.message_queue.subrange(0, n as int) == s.message_queue);
    assert(queued.message_queue.subrange(0, (n + 1) as int) == queued.message_queue);
    assert(writes_of(queued.message_queue) == writes_of(s.message_queue).push(
        BridgeEffectView::Write { message: with_newline(text), id },
    ));
}

/// When a command was written, clients are shown it once, under the
/// identifier of the command, and nothing else happens.
pub proof fn lemma_written_command_shown_once(
    s: BridgeView,
    message: Seq<u8>,
    id: Uuid,
    fresh: Uuid,
)
    requires
        !s.canceled,
    ensures
        s.step(BridgeInputView::WriteDone { message, id }, fresh).effects == seq![
            publish_sent(message, id),
        ],
        s.step(BridgeInputView::WriteDone { message, id }, fresh).next == s,
{
}

/// Whatever a batch asks for, acting on it shows clients neither a line
/// nor a command.
pub proof fn lemma_decide_shows_nothing(s: BridgeView, action: BridgeAction, id: Uuid)
    ensures
        shows_no_line(s.decide(action, id).effects),
        shows_no_command(s.decide(action, id).effects),
{
    let effects = s.decide(action, id).effects;
    assert forall|k: int| 0 <= k < effects.len() implies !shows_line(#[trigger] effects[k])
        && !shows_command(effects[k]) by {
        match action {
            BridgeAction::Continue(ack) => {
                if s.state.state == BridgeState::Printing && s.print_info is Some {
                    let job = s.print_info.unwrap();
                    assert(effects == s.print_on(job, ack, id).effects);
                }
            },
            BridgeAction::Error => {},
            BridgeAction::Resend(line) => {},
        }
    }
}

/// A temperature report never shows up on the clients' terminal.
pub proof fn lemma_temperature_line_not_shown(s: BridgeView, line: Seq<u8>, id: Uuid)
    requires
        is_temperature(line),
    ensures
        shows_no_line(s.line(line, id).effects),
{
    let effects = s.line(line, id).effects;
    if !s.canceled && s.state.state != BridgeState::Connecting {
        let noted = s;
        if is_ok(line) {
            lemma_decide_shows_nothing(
                BridgeView { collected_responses: Seq::empty(), ..noted },
                decision(noted.collected_responses),
                id,
            );
        }
        assert forall|k: int| 0 <= k < effects.len() implies !shows_line(#[trigger] effects[k]) by {
            let judged = noted.ok_response(id);
            if is_ok(line) && k >= effects.len() - judged.effects.len() {
                assert(effects[k] == judged.effects[k - (effects.len() - judged.effects.len())]);
            }
        }
    }
}

/// Clients are shown a command only when it was written: no other input
/// makes the bridge show one.
pub proof fn lemma_only_written_commands_shown(s: BridgeView, input: BridgeInputView, id: Uuid)
    requires
        !(input is WriteDone),
    ensures
        shows_no_command(s.step(input, id).effects),
{
    let effects = s.step(input, id).effects;
    match input {
        BridgeInputView::Byte { byte } => {
            if !s.canceled && byte == 10 {
                let cleared = BridgeView { collected: Seq::empty(), ..s };
                let line = s.collected;
                if cleared.state.state != BridgeState::Connecting {
                    let noted = if is_temperature(line) {
                        cleared
                    } else {
                        BridgeView {
                            collected_responses: cleared.collected_responses.push(line),
                            ..cleared
                        }
                    };
                    lemma_decide_shows_nothing(
                        BridgeView { collected_responses: Seq::empty(), ..noted },
                        decision(noted.collected_responses),
                        id,
                    );
                    assert forall|k: int| 0 <= k < effects.len() implies !shows_command(
                        #[trigger] effects[k],
                    ) by {
                        let judged = noted.ok_response(id);
                        if is_ok(line) && k >= effects.len() - judged.effects.len() {
                            assert(effects[k] == judged.effects[k - (effects.len()
                                - judged.effects.len())]);
                        }
                    }
                }
            }
        },
        _ => {},
    }
}

/// A bridge that was killed stays as it is, whatever happens, and asks for
/// nothing.
pub proof fn lemma_killed_bridge_is_still(s: BridgeView, input: BridgeInputView, id: Uuid)
    requires
        s.canceled,
    ensures
        s.step(input, id) == s.stay(),
{
}

/// While a connected bridge waits for the firmware to acknowledge a
/// command, nothing is written: not when a command arrives, not when the
/// port is silent, not when a byte arrives that ends no line, and not when
/// the last write is reported.
pub proof fn lemma_no_write_before_acknowledgement(
    s: BridgeView,
    input: BridgeInputView,
    id: Uuid,
)
    requires
        s.state.state == BridgeState::Connected,
        !s.ready,
        input is ReadTimedOut || input is WriteDone || (input matches BridgeInputView::Byte {
            byte,
        } && byte != 10) || (input matches BridgeInputView::Event {
            event: EventTypeView::Bridge(BridgeEventsView::TerminalSend { .. }),
        }),
    ensures
        forall|k: int|
            0 <= k < s.step(input, id).effects.len() ==> !(#[trigger] s.step(
                input,
                id,
            ).effects[k] is Write),
        !s.step(input, id).next.ready,
{
}

} // verus!
