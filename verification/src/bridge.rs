//! The bridge: it owns the state of one serial session and decides, event by
//! event, what is written to the firmware and what the rest of the system is
//! told. It performs nothing itself: each event returns the effects that its
//! runner has to perform, and the runner reports back what came of them.

use crate::machine::{
    any_line_holds, follow_ups, print_description, with_newline, BridgeEffect, BridgeEffectView,
    BridgeInputView, BridgeView, BUSY_PAUSE, CONNECT_TIMEOUT, MAX_PROBES,
};
use crate::models::{
    BridgeAction, BridgeEvents, BridgeState, EventInfo, EventType, Message, StateDescription,
    StateWrapper, WebsocketEvents,
};
use crate::outside::fresh_id;
use crate::parser::{begins_ok, holds_temperature, Classification, Parser};
use crate::print_info::PrintInfo;
use crate::text::{
    bytes_of, contains, copy_bytes, lit, occurs_in, starts_with, starts_with_lowered, views,
};
use std::collections::VecDeque;
use uuid::Uuid;
use vstd::prelude::*;

verus! {

#[derive(Debug)]
pub struct Bridge {
    address: Vec<u8>,
    baudrate: u32,
    state: StateWrapper,
    print_info: Option<PrintInfo>,
    message_queue: VecDeque<Message>,
    ready: bool,
    collected: Vec<u8>,
    collected_responses: Vec<Vec<u8>>,
    has_collected_capabilities: bool,
    commands_left_to_send: Vec<Vec<u8>>,
    probes: u32,
    canceled: bool,
}

/// What happens to the bridge.
#[derive(Debug, PartialEq, Eq)]
pub enum BridgeInput {
    /// The bridge is to start.
    Start,
    /// The port is open.
    PortOpened,
    /// The port could not be opened.
    PortFailed { error: Vec<u8> },
    /// An event arrived in the inbox.
    Event { event: EventInfo },
    /// A byte arrived from the port.
    Byte { byte: u8 },
    /// Nothing arrived from the port within the read timeout.
    ReadTimedOut,
    /// Reading from the port failed.
    ReadFailed { error: Vec<u8> },
    /// The bytes of a `Write` effect were written.
    WriteDone { message: Vec<u8>, id: Uuid },
    /// The bytes of a `Write` effect could not be written.
    WriteFailed { error: Vec<u8> },
    /// The time of a `Watch` effect is over.
    TimeoutElapsed,
}

impl View for BridgeInput {
    type V = BridgeInputView;

    open spec fn view(&self) -> BridgeInputView {
        match self {
            BridgeInput::Start => BridgeInputView::Start,
            BridgeInput::PortOpened => BridgeInputView::PortOpened,
            BridgeInput::PortFailed { error } => BridgeInputView::PortFailed { error: error@ },
            BridgeInput::Event { event } => BridgeInputView::Event { event: event@ },
            BridgeInput::Byte { byte } => BridgeInputView::Byte { byte: *byte },
            BridgeInput::ReadTimedOut => BridgeInputView::ReadTimedOut,
            BridgeInput::ReadFailed { error } => BridgeInputView::ReadFailed { error: error@ },
            BridgeInput::WriteDone { message, id } => BridgeInputView::WriteDone {
                message: message@,
                id: *id,
            },
            BridgeInput::WriteFailed { error } => BridgeInputView::WriteFailed { error: error@ },
            BridgeInput::TimeoutElapsed => BridgeInputView::TimeoutElapsed,
        }
    }
}

impl View for Bridge {
    type V = BridgeView;

    closed spec fn view(&self) -> BridgeView {
        BridgeView {
            address: self.address@,
            baudrate: self.baudrate,
            state: self.state@,
            print_info: match self.print_info {
                Some(job) => Some(job@),
                None => None,
            },
            message_queue: self.message_queue.deep_view(),
            ready: self.ready,
            collected: self.collected@,
            collected_responses: views(self.collected_responses@),
            has_collected_capabilities: self.has_collected_capabilities,
            commands_left_to_send: views(self.commands_left_to_send@),
            probes: self.probes,
            canceled: self.canceled,
        }
    }
}

/// Adds an effect to those that an event asks for.
fn emit(out: &mut Vec<BridgeEffect>, effect: BridgeEffect)
    ensures
        final(out).deep_view() == old(out).deep_view().push(effect@),
{
    out.push(effect);
    assert(out.deep_view() =~= old(out).deep_view().push(effect@));
}

/// Whether some line of the batch holds `p`.
fn some_line_holds(batch: &Vec<Vec<u8>>, p: &[u8]) -> (r: bool)
    ensures
        r == any_line_holds(views(batch@), p@),
{
    let mut i: usize = 0;
    while i < batch.len()
        invariant
            i <= batch.len(),
            forall|j: int| 0 <= j < i ==> !occurs_in(#[trigger] views(batch@)[j], p@),
        decreases batch.len() - i,
    {
        if contains(batch[i].as_slice(), p) {
            assert(occurs_in(views(batch@)[i as int], p@));
            return true;
        }
        i = i + 1;
    }
    false
}

impl Bridge {
    /// A bridge for the port at `address`, not yet started.
    pub fn new(address: Vec<u8>, baudrate: u32) -> (r: Self)
        ensures
            r@ == BridgeView::fresh(address@, baudrate),
    {
        let r = Self {
            address,
            baudrate,
            state: StateWrapper {
                state: BridgeState::Disconnected,
                description: StateDescription::Empty,
            },
            print_info: None,
            message_queue: VecDeque::new(),
            ready: true,
            collected: Vec::new(),
            collected_responses: Vec::new(),
            has_collected_capabilities: false,
            commands_left_to_send: Vec::new(),
            probes: 0,
            canceled: false,
        };
        assert(r@.message_queue =~= Seq::empty());
        assert(r@.collected_responses =~= Seq::empty());
        assert(r@.commands_left_to_send =~= Seq::empty());
        r
    }

    /// The snapshot of the bridge's state.
    pub fn state(&self) -> (r: &StateWrapper)
        ensures
            r@ == self@.state,
    {
        &self.state
    }

    /// The job that is printed.
    pub fn print_info(&self) -> (r: &Option<PrintInfo>)
        ensures
            match *r {
                Some(job) => self@.print_info == Some(job@),
                None => self@.print_info is None,
            },
    {
        &self.print_info
    }

    /// Whether the firmware is ready for the next command.
    pub fn ready(&self) -> (r: bool)
        ensures
            r == self@.ready,
    {
        self.ready
    }

    /// How many commands wait for the firmware to be ready.
    pub fn queued(&self) -> (r: usize)
        ensures
            r == self@.message_queue.len(),
    {
        self.message_queue.len()
    }

    /// Whether the bridge was killed.
    pub fn canceled(&self) -> (r: bool)
        ensures
            r == self@.canceled,
    {
        self.canceled
    }

    fn transition(
        &mut self,
        state: BridgeState,
        description: StateDescription,
        out: &mut Vec<BridgeEffect>,
    )
        ensures
            final(self)@ == old(self)@.transition(state, description@).next,
            final(out).deep_view() == old(out).deep_view() + old(self)@.transition(
                state,
                description@,
            ).effects,
    {
        let told = description.copy();
        self.state = StateWrapper { state, description };
        if state == BridgeState::Connected {
            self.ready = true;
        }
        emit(
            out,
            BridgeEffect::Publish {
                event: EventInfo {
                    event_type: EventType::Bridge(
                        BridgeEvents::StateUpdate { state, description: told },
                    ),
                },
            },
        );
        assert(out.deep_view() =~= old(out).deep_view() + old(self)@.transition(
            state,
            description@,
        ).effects);
    }

    fn errored(&mut self, message: Vec<u8>, out: &mut Vec<BridgeEffect>)
        ensures
            final(self)@ == old(self)@.errored(message@).next,
            final(out).deep_view() == old(out).deep_view() + old(self)@.errored(message@).effects,
    {
        self.transition(BridgeState::Errored, StateDescription::Error { message }, out);
    }

    fn write(&mut self, message: Vec<u8>, id: Uuid, out: &mut Vec<BridgeEffect>)
        ensures
            final(self)@ == old(self)@.write(message@, id).next,
            final(out).deep_view() == old(out).deep_view() + old(self)@.write(message@, id).effects,
    {
        self.ready = false;
        emit(out, BridgeEffect::Write { message, id });
        assert(out.deep_view() =~= old(out).deep_view() + old(self)@.write(message@, id).effects);
    }

    fn send(&mut self, text: Vec<u8>, id: Uuid, out: &mut Vec<BridgeEffect>)
        ensures
            final(self)@ == old(self)@.send(text@, id).next,
            final(out).deep_view() == old(out).deep_view() + old(self)@.send(text@, id).effects,
    {
        let mut message = text;
        let n = message.len();
        if n == 0 || message[n - 1] != 10 {
            message.push(10);
        }
        assert(message@ == with_newline(text@));
        if self.state.state == BridgeState::Connected && !self.ready {
            let ghost before = self.message_queue.deep_view();
            let ghost entry = (crate::models::MessageView { content: message@, id });
            self.message_queue.push_back(Message { content: message, id });
            assert(self.message_queue.deep_view() =~= before.push(entry));
            assert(out.deep_view() =~= old(out).deep_view() + old(self)@.send(text@, id).effects);
        } else {
            self.write(message, id, out);
        }
    }

    fn start_print(&mut self, info: PrintInfo, id: Uuid, out: &mut Vec<BridgeEffect>)
        ensures
            final(self)@ == old(self)@.start_print(info@, id).next,
            final(out).deep_view() == old(out).deep_view() + old(self)@.start_print(
                info@,
                id,
            ).effects,
    {
        if self.state.state != BridgeState::Connected {
            assert(out.deep_view() =~= old(out).deep_view() + old(self)@.stay().effects);
            return ;
        }
        let description = StateDescription::Print {
            filename: copy_bytes(info.filename().as_slice()),
            progress: info.progress(),
            start: info.start(),
            end: info.end(),
        };
        assert(description@ == print_description(info@));
        self.print_info = Some(info);
        self.transition(BridgeState::Printing, description, out);
        self.send(bytes_of("M110 N0"), id, out);
        assert(out.deep_view() =~= old(out).deep_view() + old(self)@.start_print(
            info@,
            id,
        ).effects);
    }

    fn end_print(&mut self, out: &mut Vec<BridgeEffect>)
        ensures
            final(self)@ == old(self)@.end_print().next,
            final(out).deep_view() == old(out).deep_view() + old(self)@.end_print().effects,
    {
        if self.state.state != BridgeState::Printing {
            assert(out.deep_view() =~= old(out).deep_view() + old(self)@.stay().effects);
            return ;
        }
        self.print_info = None;
        self.transition(BridgeState::Connected, StateDescription::Empty, out);
    }

    fn kill(&mut self, out: &mut Vec<BridgeEffect>)
        ensures
            final(self)@ == old(self)@.kill().next,
            final(out).deep_view() == old(out).deep_view() + old(self)@.kill().effects,
    {
        self.canceled = true;
        emit(out, BridgeEffect::Close);
        assert(out.deep_view() =~= old(out).deep_view() + old(self)@.kill().effects);
    }

    fn event(&mut self, event: EventInfo, id: Uuid, out: &mut Vec<BridgeEffect>)
        ensures
            final(self)@ == old(self)@.event(event@, id).next,
            final(out).deep_view() == old(out).deep_view() + old(self)@.event(event@, id).effects,
    {
        if self.canceled {
            assert(out.deep_view() =~= old(out).deep_view() + old(self)@.stay().effects);
            return ;
        }
        match event.event_type {
            EventType::Kill => {
                self.kill(out);
            },
            EventType::Bridge(BridgeEvents::TerminalSend { message, id: sent }) => {
                self.send(message, sent, out);
            },
            EventType::Bridge(BridgeEvents::PrintStart { info }) => {
                self.start_print(info, id, out);
            },
            EventType::Bridge(BridgeEvents::PrintEnd) => {
                self.end_print(out);
            },
            EventType::Bridge(BridgeEvents::StateUpdate { state, description }) => {
                self.state = StateWrapper { state, description };
                if state == BridgeState::Connected {
                    self.ready = true;
                }
                assert(out.deep_view() =~= old(out).deep_view() + Seq::<BridgeEffectView>::empty());
            },
            _ => {
                assert(out.deep_view() =~= old(out).deep_view() + old(self)@.stay().effects);
            },
        }
    }

    fn print_on(&mut self, ack: Option<u64>, id: Uuid, out: &mut Vec<BridgeEffect>)
        requires
            old(self)@.print_info is Some,
        ensures
            final(self)@ == old(self)@.print_on(old(self)@.print_info.unwrap(), ack, id).next,
            final(out).deep_view() == old(out).deep_view() + old(self)@.print_on(
                old(self)@.print_info.unwrap(),
                ack,
                id,
            ).effects,
    {
        let ghost before = self@;
        let ghost expected = before.print_on(before.print_info.unwrap(), ack, id);
        let mut job = match self.print_info.take() {
            Some(job) => job,
            None => {
                return ;
            },
        };
        assert(job@ == before.print_info.unwrap());
        if ack.is_none() && job.line_number() != 0 {
            self.print_info = Some(job);
            assert(self@ == before);
            assert(out.deep_view() =~= old(out).deep_view() + expected.effects);
            return ;
        }
        let cursor: u64 = match ack {
            Some(n) => n,
            None => 1,
        };
        let next: Option<u64> = match ack {
            Some(n) => n.checked_add(1),
            None => Some(1),
        };
        job.set_line_number(cursor);
        // Behind the largest line number there is no line: the lookup of
        // that number itself fails as the lookup of its successor would.
        let line = match next {
            Some(n) => job.get_line_by_index(n),
            None => job.get_line_by_index(u64::MAX),
        };
        match line {
            None => {
                self.print_info = Some(job);
                self.end_print(out);
            },
            Some(line) => {
                let was = job.progress().rounded_tenths();
                job.add_bytes_sent(line.content().len() as u64);
                let is = job.progress().rounded_tenths();
                if is != was {
                    let description = StateDescription::Print {
                        filename: copy_bytes(job.filename().as_slice()),
                        progress: job.progress(),
                        start: job.start(),
                        end: job.end(),
                    };
                    assert(description@ == print_description(job@));
                    self.print_info = Some(job);
                    self.transition(BridgeState::Printing, description, out);
                } else {
                    self.print_info = Some(job);
                }
                let wire = line.wire();
                self.send(wire, id, out);
                assert(out.deep_view() =~= old(out).deep_view() + expected.effects);
            },
        }
    }

    fn resend(&mut self, line: u64, id: Uuid, out: &mut Vec<BridgeEffect>)
        requires
            old(self)@.print_info is Some,
        ensures
            final(self)@ == old(self)@.resend(old(self)@.print_info.unwrap(), line, id).next,
            final(out).deep_view() == old(out).deep_view() + old(self)@.resend(
                old(self)@.print_info.unwrap(),
                line,
                id,
            ).effects,
    {
        let mut job = match self.print_info.take() {
            Some(job) => job,
            None => {
                return ;
            },
        };
        job.report_resend();
        if job.resend_limit_exceeded() {
            self.print_info = Some(job);
            self.errored(bytes_of("Resend ratio went above 10%"), out);
            return ;
        }
        match job.get_line_by_index(line) {
            None => {
                self.print_info = Some(job);
                self.errored(bytes_of("Cannot resend line"), out);
            },
            Some(found) => {
                job.set_line_number(line);
                self.print_info = Some(job);
                let wire = found.wire();
                self.send(wire, id, out);
            },
        }
    }

    fn decide_into(&mut self, action: BridgeAction, id: Uuid, out: &mut Vec<BridgeEffect>)
        ensures
            final(self)@ == old(self)@.decide(action, id).next,
            final(out).deep_view() == old(out).deep_view() + old(self)@.decide(action, id).effects,
    {
        match action {
            BridgeAction::Continue(ack) => {
                if self.state.state == BridgeState::Printing {
                    if self.print_info.is_some() {
                        self.print_on(ack, id, out);
                    } else {
                        assert(out.deep_view() =~= old(out).deep_view() + old(self)@.stay().effects);
                    }
                } else if self.state.state == BridgeState::Connected {
                    let ghost before = self.message_queue.deep_view();
                    match self.message_queue.pop_front() {
                        Some(message) => {
                            assert(self.message_queue.deep_view() =~= before.drop_first());
                            assert(message@ == before[0]);
                            self.write(message.content, message.id, out);
                        },
                        None => {
                            assert(self.message_queue.deep_view() =~= before);
                            self.ready = true;
                            assert(out.deep_view() =~= old(out).deep_view() + Seq::<
                                BridgeEffectView,
                            >::empty());
                        },
                    }
                } else {
                    assert(out.deep_view() =~= old(out).deep_view() + old(self)@.stay().effects);
                }
            },
            BridgeAction::Error => {
                self.errored(bytes_of("Bridge encountered unknown error"), out);
            },
            BridgeAction::Resend(line) => {
                if self.state.state == BridgeState::Printing && self.print_info.is_some() {
                    self.resend(line, id, out);
                } else {
                    assert(out.deep_view() =~= old(out).deep_view() + old(self)@.stay().effects);
                }
            },
        }
    }

    fn ok_response_into(&mut self, id: Uuid, out: &mut Vec<BridgeEffect>)
        ensures
            final(self)@ == old(self)@.ok_response(id).next,
            final(out).deep_view() == old(out).deep_view() + old(self)@.ok_response(id).effects,
    {
        let action = Parser::parse_responses(&self.collected_responses);
        self.collected_responses = Vec::new();
        assert(views(self.collected_responses@) =~= Seq::<Seq<u8>>::empty());
        self.decide_into(action, id, out);
    }

    fn line_connecting(&mut self, line: Vec<u8>, id: Uuid, out: &mut Vec<BridgeEffect>)
        ensures
            final(self)@ == old(self)@.line_connecting(line@, id).next,
            final(out).deep_view() == old(out).deep_view() + old(self)@.line_connecting(
                line@,
                id,
            ).effects,
    {
        let ghost before = self@;
        let ghost expected = before.line_connecting(line@, id);
        if !holds_temperature(line.as_slice()) {
            emit(
                out,
                BridgeEffect::Publish {
                    event: EventInfo {
                        event_type: EventType::Websocket(
                            WebsocketEvents::TerminalRead { message: copy_bytes(line.as_slice()) },
                        ),
                    },
                },
            );
        }
        if starts_with_lowered(line.as_slice(), "error".as_bytes()) {
            self.errored(line, out);
            assert(out.deep_view() =~= old(out).deep_view() + expected.effects);
            return ;
        }
        if self.has_collected_capabilities {
            if !begins_ok(line.as_slice()) {
                assert(out.deep_view() =~= old(out).deep_view() + expected.effects);
                return ;
            }
            if self.commands_left_to_send.len() == 0 {
                let mut capabilities: Vec<Vec<u8>> = Vec::new();
                std::mem::swap(&mut capabilities, &mut self.collected_responses);
                assert(views(self.collected_responses@) =~= Seq::<Seq<u8>>::empty());
                assert(views(self.commands_left_to_send@) =~= before.commands_left_to_send);
                self.transition(
                    BridgeState::Connected,
                    StateDescription::Capability { capabilities },
                    out,
                );
            } else {
                let ghost commands = views(self.commands_left_to_send@);
                let command = match self.commands_left_to_send.pop() {
                    Some(command) => command,
                    None => {
                        return ;
                    },
                };
                assert(views(self.commands_left_to_send@) =~= commands.drop_last());
                assert(command@ == commands.last());
                self.send(command, id, out);
            }
            assert(out.deep_view() =~= old(out).deep_view() + expected.effects);
            return ;
        }
        if begins_ok(line.as_slice()) {
            if self.collected_responses.len() == 0 {
                assert(out.deep_view() =~= old(out).deep_view() + expected.effects);
                return ;
            }
            if starts_with(self.collected_responses[0].as_slice(), "FIRMWARE_NAME:Marlin".as_bytes()) {
                let mut commands: Vec<Vec<u8>> = Vec::new();
                assert(views(commands@) =~= Seq::<Seq<u8>>::empty());
                if some_line_holds(&self.collected_responses, "Cap:AUTOREPORT_TEMP:1".as_bytes()) {
                    let ghost so_far = views(commands@);
                    let command = bytes_of("M155 S2");
                    commands.push(command);
                    assert(views(commands@) =~= so_far.push(lit("M155 S2")));
                    assert(views(commands@) =~= seq![lit("M155 S2")]);
                }
                if some_line_holds(&self.collected_responses, "Cap:EEPROM:1".as_bytes()) {
                    let ghost so_far = views(commands@);
                    let command = bytes_of("M501");
                    commands.push(command);
                    assert(views(commands@) =~= so_far.push(lit("M501")));
                }
                assert(views(commands@) == follow_ups(before.collected_responses));
                self.commands_left_to_send = commands;
                self.has_collected_capabilities = true;
                self.send(bytes_of("G90"), id, out);
            } else if self.probes >= MAX_PROBES - 1 {
                self.collected_responses = Vec::new();
                assert(views(self.collected_responses@) =~= Seq::<Seq<u8>>::empty());
                self.errored(bytes_of("Unsupported firmware"), out);
            } else {
                self.collected_responses = Vec::new();
                assert(views(self.collected_responses@) =~= Seq::<Seq<u8>>::empty());
                self.probes = self.probes + 1;
                self.send(bytes_of("M115"), id, out);
            }
            assert(out.deep_view() =~= old(out).deep_view() + expected.effects);
            return ;
        }
        let ghost batch = views(self.collected_responses@);
        self.collected_responses.push(line);
        assert(views(self.collected_responses@) =~= batch.push(line@));
        assert(out.deep_view() =~= old(out).deep_view() + expected.effects);
    }

    fn line_running(&mut self, line: Vec<u8>, id: Uuid, out: &mut Vec<BridgeEffect>)
        ensures
            final(self)@ == old(self)@.line_running(line@, id).next,
            final(out).deep_view() == old(out).deep_view() + old(self)@.line_running(
                line@,
                id,
            ).effects,
    {
        let ghost before = self@;
        let ghost expected = before.line_running(line@, id);
        let closes = begins_ok(line.as_slice());
        let busy = match Parser::classify(line.as_slice()) {
            Classification::Busy => true,
            _ => false,
        };
        if holds_temperature(line.as_slice()) {
            emit(
                out,
                BridgeEffect::Publish {
                    event: EventInfo {
                        event_type: EventType::Websocket(Parser::parse_temperature(line.as_slice())),
                    },
                },
            );
        } else {
            emit(
                out,
                BridgeEffect::Publish {
                    event: EventInfo {
                        event_type: EventType::Websocket(
                            WebsocketEvents::TerminalRead { message: copy_bytes(line.as_slice()) },
                        ),
                    },
                },
            );
            let ghost batch = views(self.collected_responses@);
            self.collected_responses.push(line);
            assert(views(self.collected_responses@) =~= batch.push(line@));
        }
        if busy && self.state.state == BridgeState::Printing {
            emit(out, BridgeEffect::Pause { millis: BUSY_PAUSE });
        }
        if closes {
            self.ok_response_into(id, out);
        }
        assert(out.deep_view() =~= old(out).deep_view() + expected.effects);
    }

    fn line_into(&mut self, line: Vec<u8>, id: Uuid, out: &mut Vec<BridgeEffect>)
        ensures
            final(self)@ == old(self)@.line(line@, id).next,
            final(out).deep_view() == old(out).deep_view() + old(self)@.line(line@, id).effects,
    {
        if self.canceled {
            assert(out.deep_view() =~= old(out).deep_view() + old(self)@.stay().effects);
        } else if self.state.state == BridgeState::Connecting {
            self.line_connecting(line, id, out);
        } else {
            self.line_running(line, id, out);
        }
    }

    fn byte_into(&mut self, byte: u8, id: Uuid, out: &mut Vec<BridgeEffect>)
        ensures
            final(self)@ == old(self)@.byte(byte, id).next,
            final(out).deep_view() == old(out).deep_view() + old(self)@.byte(byte, id).effects,
    {
        if self.canceled {
            assert(out.deep_view() =~= old(out).deep_view() + old(self)@.stay().effects);
        } else if byte == 10 {
            let mut line: Vec<u8> = Vec::new();
            std::mem::swap(&mut line, &mut self.collected);
            self.line_into(line, id, out);
        } else {
            self.collected.push(byte);
            assert(out.deep_view() =~= old(out).deep_view() + Seq::<BridgeEffectView>::empty());
        }
    }

    fn start_into(&mut self, out: &mut Vec<BridgeEffect>)
        ensures
            final(self)@ == old(self)@.start().next,
            final(out).deep_view() == old(out).deep_view() + old(self)@.start().effects,
    {
        if self.canceled {
            assert(out.deep_view() =~= old(out).deep_view() + old(self)@.stay().effects);
            return ;
        }
        self.transition(BridgeState::Connecting, StateDescription::Empty, out);
        emit(
            out,
            BridgeEffect::Open {
                address: copy_bytes(self.address.as_slice()),
                baudrate: self.baudrate,
            },
        );
        assert(out.deep_view() =~= old(out).deep_view() + old(self)@.start().effects);
    }

    fn port_opened(&mut self, id: Uuid, out: &mut Vec<BridgeEffect>)
        ensures
            final(self)@ == old(self)@.port_opened(id).next,
            final(out).deep_view() == old(out).deep_view() + old(self)@.port_opened(id).effects,
    {
        if self.canceled {
            assert(out.deep_view() =~= old(out).deep_view() + old(self)@.stay().effects);
            return ;
        }
        emit(out, BridgeEffect::Watch { seconds: CONNECT_TIMEOUT });
        self.send(bytes_of("M115"), id, out);
        assert(out.deep_view() =~= old(out).deep_view() + old(self)@.port_opened(id).effects);
    }

    fn port_failed(&mut self, error: Vec<u8>, out: &mut Vec<BridgeEffect>)
        ensures
            final(self)@ == old(self)@.port_failed(error@).next,
            final(out).deep_view() == old(out).deep_view() + old(self)@.port_failed(
                error@,
            ).effects,
    {
        if self.canceled {
            assert(out.deep_view() =~= old(out).deep_view() + old(self)@.stay().effects);
            return ;
        }
        emit(
            out,
            BridgeEffect::Publish {
                event: EventInfo {
                    event_type: EventType::Bridge(BridgeEvents::ConnectionCreateError { error }),
                },
            },
        );
        assert(out.deep_view() =~= old(out).deep_view() + old(self)@.port_failed(error@).effects);
    }

    fn timeout_elapsed(&mut self, out: &mut Vec<BridgeEffect>)
        ensures
            final(self)@ == old(self)@.timeout_elapsed().next,
            final(out).deep_view() == old(out).deep_view() + old(self)@.timeout_elapsed().effects,
    {
        if !self.canceled && self.state.state == BridgeState::Connecting {
            self.errored(bytes_of("Timed out"), out);
        } else {
            assert(out.deep_view() =~= old(out).deep_view() + old(self)@.stay().effects);
        }
    }

    fn write_done(&mut self, message: Vec<u8>, id: Uuid, out: &mut Vec<BridgeEffect>)
        ensures
            final(self)@ == old(self)@.write_done(message@, id).next,
            final(out).deep_view() == old(out).deep_view() + old(self)@.write_done(
                message@,
                id,
            ).effects,
    {
        if self.canceled {
            assert(out.deep_view() =~= old(out).deep_view() + old(self)@.stay().effects);
            return ;
        }
        emit(
            out,
            BridgeEffect::Publish {
                event: EventInfo {
                    event_type: EventType::Websocket(WebsocketEvents::TerminalSend { message, id }),
                },
            },
        );
        assert(out.deep_view() =~= old(out).deep_view() + old(self)@.write_done(
            message@,
            id,
        ).effects);
    }

    fn io_failed(&mut self, error: Vec<u8>, out: &mut Vec<BridgeEffect>)
        ensures
            final(self)@ == old(self)@.io_failed(error@).next,
            final(out).deep_view() == old(out).deep_view() + old(self)@.io_failed(error@).effects,
    {
        if self.canceled {
            assert(out.deep_view() =~= old(out).deep_view() + old(self)@.stay().effects);
        } else {
            self.errored(error, out);
        }
    }

    fn read_timed_out(&mut self, out: &mut Vec<BridgeEffect>)
        ensures
            final(self)@ == old(self)@.read_timed_out().next,
            final(out).deep_view() == old(out).deep_view() + old(self)@.read_timed_out().effects,
    {
        if !self.canceled && self.ready {
            let ghost before = self.message_queue.deep_view();
            match self.message_queue.pop_front() {
                Some(message) => {
                    assert(self.message_queue.deep_view() =~= before.drop_first());
                    assert(message@ == before[0]);
                    self.write(message.content, message.id, out);
                },
                None => {
                    assert(self.message_queue.deep_view() =~= before);
                    assert(out.deep_view() =~= old(out).deep_view() + old(self)@.stay().effects);
                },
            }
        } else {
            assert(out.deep_view() =~= old(out).deep_view() + old(self)@.stay().effects);
        }
    }

    /// Starts the bridge: it is connecting, and asks for the port to be opened.
    pub fn start(&mut self) -> (effects: Vec<BridgeEffect>)
        ensures
            final(self)@ == old(self)@.start().next,
            effects.deep_view() == old(self)@.start().effects,
    {
        let mut out: Vec<BridgeEffect> = Vec::new();
        assert(out.deep_view() =~= Seq::<BridgeEffectView>::empty());
        self.start_into(&mut out);
        assert(out.deep_view() =~= old(self)@.start().effects);
        out
    }

    /// Acts on what a batch of replies asks for. `id` names the command that
    /// the bridge may send.
    pub fn decide(&mut self, action: BridgeAction, id: Uuid) -> (effects: Vec<BridgeEffect>)
        ensures
            final(self)@ == old(self)@.decide(action, id).next,
            effects.deep_view() == old(self)@.decide(action, id).effects,
    {
        let mut out: Vec<BridgeEffect> = Vec::new();
        assert(out.deep_view() =~= Seq::<BridgeEffectView>::empty());
        self.decide_into(action, id, &mut out);
        assert(out.deep_view() =~= old(self)@.decide(action, id).effects);
        out
    }

    /// Judges the batch that an acknowledgement has closed, and empties it.
    pub fn handle_ok_response(&mut self, id: Uuid) -> (effects: Vec<BridgeEffect>)
        ensures
            final(self)@ == old(self)@.ok_response(id).next,
            effects.deep_view() == old(self)@.ok_response(id).effects,
    {
        let mut out: Vec<BridgeEffect> = Vec::new();
        assert(out.deep_view() =~= Seq::<BridgeEffectView>::empty());
        self.ok_response_into(id, &mut out);
        assert(out.deep_view() =~= old(self)@.ok_response(id).effects);
        out
    }

    /// Takes one input. `id` names the command that the bridge may send of
    /// its own on this input.
    pub fn handle(&mut self, input: BridgeInput, id: Uuid) -> (effects: Vec<BridgeEffect>)
        ensures
            final(self)@ == old(self)@.step(input@, id).next,
            effects.deep_view() == old(self)@.step(input@, id).effects,
    {
        let mut out: Vec<BridgeEffect> = Vec::new();
        let ghost none = Seq::<BridgeEffectView>::empty();
        assert(out.deep_view() =~= none);
        match input {
            BridgeInput::Start => {
                self.start_into(&mut out);
                assert(out.deep_view() =~= none + old(self)@.start().effects);
            },
            BridgeInput::PortOpened => {
                self.port_opened(id, &mut out);
                assert(out.deep_view() =~= none + old(self)@.port_opened(id).effects);
            },
            BridgeInput::PortFailed { error } => {
                self.port_failed(error, &mut out);
                assert(out.deep_view() =~= none + old(self)@.port_failed(error@).effects);
            },
            BridgeInput::Event { event } => {
                self.event(event, id, &mut out);
                assert(out.deep_view() =~= none + old(self)@.event(event@, id).effects);
            },
            BridgeInput::Byte { byte } => {
                self.byte_into(byte, id, &mut out);
                assert(out.deep_view() =~= none + old(self)@.byte(byte, id).effects);
            },
            BridgeInput::ReadTimedOut => {
                self.read_timed_out(&mut out);
                assert(out.deep_view() =~= none + old(self)@.read_timed_out().effects);
            },
            BridgeInput::ReadFailed { error } => {
                self.io_failed(error, &mut out);
                assert(out.deep_view() =~= none + old(self)@.io_failed(error@).effects);
            },
            BridgeInput::WriteDone { message, id: written } => {
                self.write_done(message, written, &mut out);
                assert(out.deep_view() =~= none + old(self)@.write_done(message@, written).effects);
            },
            BridgeInput::WriteFailed { error } => {
                self.io_failed(error, &mut out);
                assert(out.deep_view() =~= none + old(self)@.io_failed(error@).effects);
            },
            BridgeInput::TimeoutElapsed => {
                self.timeout_elapsed(&mut out);
                assert(out.deep_view() =~= none + old(self)@.timeout_elapsed().effects);
            },
        }
        out
    }

    /// Takes one input, and names the command that the bridge may send on it
    /// with a fresh identifier.
    pub fn step(&mut self, input: BridgeInput) -> (effects: Vec<BridgeEffect>)
        ensures
            exists|id: Uuid|
                {
                    &&& final(self)@ == #[trigger] old(self)@.step(input@, id).next
                    &&& effects.deep_view() == old(self)@.step(input@, id).effects
                },
    {
        let id = fresh_id();
        self.handle(input, id)
    }
}

} // verus!
