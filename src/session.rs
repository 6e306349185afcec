use vstd::prelude::*;

use crate::codec::{decode, decode_spec};
use crate::packet::PacketKind;

verus! {

/// Where a connection stands.
#[derive(Clone, Copy, Debug, PartialEq, Eq, Structural)]
pub enum SessionState {
    Active,
    Closing,
    Closed,
}

/// What a session hears: a message from the peer, a tick of its timer, or
/// the end of the inbound stream.
#[derive(Debug)]
pub enum Event {
    /// A binary data message with its bytes.
    Message(Vec<u8>),
    /// A transport-level message that carries no data (ping, pong, text).
    Control,
    /// A tick of the session's timer.
    Tick,
    /// The peer closed the connection.
    Close,
    /// Reading from the transport failed beyond recovery.
    ReadError,
}

pub ghost enum EventModel {
    Message(Seq<u8>),
    Control,
    Tick,
    Close,
    ReadError,
}

impl View for Event {
    type V = EventModel;

    open spec fn view(&self) -> EventModel {
        match self {
            Event::Message(b) => EventModel::Message(b@),
            Event::Control => EventModel::Control,
            Event::Tick => EventModel::Tick,
            Event::Close => EventModel::Close,
            Event::ReadError => EventModel::ReadError,
        }
    }
}

/// The one message owed for an event.
#[derive(Clone, Copy, Debug, PartialEq, Eq, Structural)]
pub enum Reply {
    /// An `Image` packet holding the frame with this number.
    Frame(u64),
    /// An `Acknowledge` packet.
    Acknowledge,
}

/// What the connection does after an event.
#[derive(Clone, Copy, Debug, PartialEq, Eq, Structural)]
pub enum Action {
    /// Send exactly this one reply, then wait for the next event.
    Send(Reply),
    /// Send nothing and wait for the next event.
    Ignore,
    /// Stop the loop and release the connection.
    Stop,
}

pub ghost struct SessionModel {
    pub counter: u64,
    pub state: SessionState,
}

/// The state of one connection: the number of the last frame produced and
/// where the connection stands.
#[derive(Debug)]
pub struct Session {
    counter: u64,
    state: SessionState,
}

impl View for Session {
    type V = SessionModel;

    closed spec fn view(&self) -> SessionModel {
        SessionModel { counter: self.counter, state: self.state }
    }
}

/// The bytes are a well-formed `ImageRequest` packet.
pub open spec fn is_request(b: Seq<u8>) -> bool {
    decode_spec(b) matches Some(p) && p.kind == PacketKind::ImageRequest
}

/// The event asks for a new frame.
pub open spec fn triggers_frame(ev: EventModel) -> bool {
    ev is Tick || (ev matches EventModel::Message(b) && is_request(b))
}

/// One step of the session: the state after `ev` and what to do.
pub open spec fn step(s: SessionModel, ev: EventModel) -> (SessionModel, Action) {
    if s.state != SessionState::Active {
        (s, Action::Stop)
    } else if triggers_frame(ev) {
        let next = (s.counter + 1) as u64;
        (SessionModel { counter: next, state: s.state }, Action::Send(Reply::Frame(next)))
    } else {
        match ev {
            EventModel::Message(_) => (s, Action::Send(Reply::Acknowledge)),
            EventModel::Control => (s, Action::Ignore),
            _ => (SessionModel { counter: s.counter, state: SessionState::Closing }, Action::Stop),
        }
    }
}

/// The state after a sequence of events, and the action taken for each.
pub open spec fn run(s: SessionModel, evs: Seq<EventModel>) -> (SessionModel, Seq<Action>)
    decreases evs.len(),
{
    if evs.len() == 0 {
        (s, Seq::empty())
    } else {
        let before = run(s, evs.drop_last());
        let after = step(before.0, evs.last());
        (after.0, before.1.push(after.1))
    }
}

/// How many of the events ask for a frame.
pub open spec fn frames_in(evs: Seq<EventModel>) -> nat
    decreases evs.len(),
{
    if evs.len() == 0 {
        0
    } else {
        frames_in(evs.drop_last()) + if triggers_frame(evs.last()) {
            1nat
        } else {
            0nat
        }
    }
}

/// The event is peer traffic or a tick: something that is owed a reply.
pub open spec fn is_traffic(ev: EventModel) -> bool {
    ev is Message || ev is Tick
}

/// The event does not end the session.
pub open spec fn is_live(ev: EventModel) -> bool {
    !(ev is Close) && !(ev is ReadError)
}

/// How many of the events are owed a reply.
pub open spec fn traffic_in(evs: Seq<EventModel>) -> nat
    decreases evs.len(),
{
    if evs.len() == 0 {
        0
    } else {
        traffic_in(evs.drop_last()) + if is_traffic(evs.last()) {
            1nat
        } else {
            0nat
        }
    }
}

/// How many of the actions send a message.
pub open spec fn sends(acts: Seq<Action>) -> nat
    decreases acts.len(),
{
    if acts.len() == 0 {
        0
    } else {
        sends(acts.drop_last()) + if acts.last() is Send {
            1nat
        } else {
            0nat
        }
    }
}

/// What an active session does on a live event, given the number the next
/// frame would take.
pub open spec fn reply_to(ev: EventModel, frame: u64) -> Action {
    if triggers_frame(ev) {
        Action::Send(Reply::Frame(frame))
    } else if ev is Message {
        Action::Send(Reply::Acknowledge)
    } else {
        Action::Ignore
    }
}

impl Session {
    /// A fresh session: no frame produced yet, connection active.
    pub fn new() -> (r: Session)
        ensures
            r@ == (SessionModel { counter: 0, state: SessionState::Active }),
    {
        Session { counter: 0, state: SessionState::Active }
    }

    /// The number of the last frame produced.
    pub fn counter(&self) -> (r: u64)
        ensures
            r == self@.counter,
    {
        self.counter
    }

    pub fn state(&self) -> (r: SessionState)
        ensures
            r == self@.state,
    {
        self.state
    }

    pub fn is_active(&self) -> (r: bool)
        ensures
            r == (self@.state == SessionState::Active),
    {
        match self.state {
            SessionState::Active => true,
            _ => false,
        }
    }

    /// Processes one event to completion. A frame request or a tick takes the
    /// next frame number; any other data message, well-formed or not, is
    /// answered with an acknowledgement; control messages are ignored; a
    /// close or a read error ends the session.
    pub fn on_event(&mut self, ev: &Event) -> (a: Action)
        requires
            old(self)@.state != SessionState::Active || old(self)@.counter < u64::MAX
                || !triggers_frame(ev@),
        ensures
            (final(self)@, a) == step(old(self)@, ev@),
    {
        if !self.is_active() {
            return Action::Stop;
        }
        match ev {
            Event::Message(bytes) => {
                let wants_frame = match decode(bytes.as_slice()) {
                    Ok(p) => match p.kind() {
                        PacketKind::ImageRequest => true,
                        _ => false,
                    },
                    Err(_) => false,
                };
                if wants_frame {
                    self.counter = self.counter + 1;
                    Action::Send(Reply::Frame(self.counter))
                } else {
                    Action::Send(Reply::Acknowledge)
                }
            },
            Event::Tick => {
                self.counter = self.counter + 1;
                Action::Send(Reply::Frame(self.counter))
            },
            Event::Control => Action::Ignore,
            Event::Close | Event::ReadError => {
                self.state = SessionState::Closing;
                Action::Stop
            },
        }
    }

    /// Sending a reply failed: the session ends.
    pub fn send_failed(&mut self)
        ensures
            final(self)@.counter == old(self)@.counter,
            final(self)@.state == (if old(self)@.state == SessionState::Closed {
                SessionState::Closed
            } else {
                SessionState::Closing
            }),
    {
        if self.is_active() {
            self.state = SessionState::Closing;
        }
    }

    /// The connection has been released.
    pub fn close(&mut self)
        ensures
            final(self)@ == (SessionModel { counter: old(self)@.counter, state: SessionState::Closed }),
    {
        self.state = SessionState::Closed;
    }
}

/// A data message that is not a well-formed frame request (bytes that do
/// not decode, or a packet of any other kind) is answered with exactly one
/// acknowledgement; the session stays active and keeps its frame number.
pub proof fn lemma_unserviced_message_acknowledged(s: SessionModel, b: Seq<u8>)
    requires
        s.state == SessionState::Active,
        !is_request(b),
    ensures
        step(s, EventModel::Message(b)) == (s, Action::Send(Reply::Acknowledge)),
{
}

/// Any interleaving of peer messages, control messages and ticks, fed to an
/// active session, gets one action per event, in the order of the events:
/// each data message and each tick gets exactly one message sent (a frame
/// numbered by how many frames were asked for up to and including that
/// event, or an acknowledgement), each control message gets none. So as
/// many messages are sent as there were data messages and ticks, and the
/// session stays active throughout.
pub proof fn lemma_one_reply_per_event(s: SessionModel, evs: Seq<EventModel>)
    requires
        s.state == SessionState::Active,
        s.counter + frames_in(evs) <= u64::MAX,
        forall|i: int| 0 <= i < evs.len() ==> is_live(#[trigger] evs[i]),
    ensures
        run(s, evs).1.len() == evs.len(),
        run(s, evs).0 == (SessionModel {
            counter: (s.counter + frames_in(evs)) as u64,
            state: SessionState::Active,
        }),
        forall|i: int|
            0 <= i < evs.len() ==> #[trigger] run(s, evs).1[i] == reply_to(
                evs[i],
                (s.counter + frames_in(evs.take(i + 1))) as u64,
            ),
        sends(run(s, evs).1) == traffic_in(evs),
    decreases evs.len(),
{
    if evs.len() > 0 {
        let init = evs.drop_last();
        assert forall|i: int| 0 <= i < init.len() implies is_live(#[trigger] init[i]) by {
            assert(init[i] == evs[i]);
        }
        lemma_one_reply_per_event(s, init);
        assert(is_live(evs[evs.len() - 1]));
        let n = evs.len() - 1;
        assert(evs.take(n + 1) =~= evs);
        let acts = run(s, evs).1;
        assert(acts.drop_last() =~= run(s, init).1);
        assert forall|i: int|
            0 <= i < evs.len() implies #[trigger] run(s, evs).1[i] == reply_to(
                evs[i],
                (s.counter + frames_in(evs.take(i + 1))) as u64,
            ) by {
            if i < n {
                assert(evs.take(i + 1) =~= init.take(i + 1));
                assert(init[i] == evs[i]);
                assert(run(s, evs).1[i] == run(s, init).1[i]);
            }
        }
    }
}

} // verus!
