//! One request/reply exchange with the phone server, as a state machine.
//!
//! The exchange connects to the server, sends one request line, reads the
//! whole reply and has it decoded; the first step that fails ends the
//! exchange with a message naming that step. The machine decides; the
//! caller performs each action (the network and the decoding happen
//! outside) and hands back the event that came of it.

use vstd::prelude::*;
use crate::command::{request_line, CommandSend};

verus! {

/// Where an exchange stands.
#[derive(Clone, Copy, Debug, PartialEq, Eq, Structural)]
pub enum Stage {
    Connecting,
    Sending,
    Receiving,
    Decoding,
    Finished,
}

/// What came of the last action.
pub enum Event {
    /// The connection to the server is open.
    Connected,
    /// The connection could not be opened; the text describes why.
    ConnectFailed(String),
    /// The request line was written.
    Sent,
    /// Writing the request failed.
    SendFailed(String),
    /// The server's whole reply.
    Received(String),
    /// Reading the reply failed.
    ReceiveFailed(String),
    /// The reply was decoded into the expected record.
    Decoded,
    /// The reply is not the expected record.
    DecodeFailed(String),
}

/// What the caller is to do next.
pub enum Action {
    /// Open a connection to this address.
    Connect(String),
    /// Write this request line.
    Send(String),
    /// Read the reply to its end.
    Receive,
    /// Decode this reply text.
    Decode(String),
    /// The exchange is over: the reply text, or the error message.
    Finish(Result<String, String>),
}

/// The mathematical form of an [`Event`].
pub enum EventView {
    Connected,
    ConnectFailed(Seq<char>),
    Sent,
    SendFailed(Seq<char>),
    Received(Seq<char>),
    ReceiveFailed(Seq<char>),
    Decoded,
    DecodeFailed(Seq<char>),
}

/// The mathematical form of an [`Action`].
pub enum ActionView {
    Connect(Seq<char>),
    Send(Seq<char>),
    Receive,
    Decode(Seq<char>),
    Finish(Result<Seq<char>, Seq<char>>),
}

impl View for Event {
    type V = EventView;

    open spec fn view(&self) -> EventView {
        match self {
            Event::Connected => EventView::Connected,
            Event::ConnectFailed(e) => EventView::ConnectFailed(e@),
            Event::Sent => EventView::Sent,
            Event::SendFailed(e) => EventView::SendFailed(e@),
            Event::Received(t) => EventView::Received(t@),
            Event::ReceiveFailed(e) => EventView::ReceiveFailed(e@),
            Event::Decoded => EventView::Decoded,
            Event::DecodeFailed(e) => EventView::DecodeFailed(e@),
        }
    }
}

impl View for Action {
    type V = ActionView;

    open spec fn view(&self) -> ActionView {
        match self {
            Action::Connect(a) => ActionView::Connect(a@),
            Action::Send(r) => ActionView::Send(r@),
            Action::Receive => ActionView::Receive,
            Action::Decode(t) => ActionView::Decode(t@),
            Action::Finish(Ok(t)) => ActionView::Finish(Ok(t@)),
            Action::Finish(Err(e)) => ActionView::Finish(Err(e@)),
        }
    }
}

/// The message of a failed connection.
pub open spec fn connect_error(e: Seq<char>) -> Seq<char> {
    "Ошибка соединения: "@ + e
}

/// The message of a failed write.
pub open spec fn send_error(e: Seq<char>) -> Seq<char> {
    "Ошибка отправки: "@ + e
}

/// The message of a failed read.
pub open spec fn receive_error(e: Seq<char>) -> Seq<char> {
    "Ошибка чтения: "@ + e
}

/// The message of a reply that does not decode.
pub open spec fn decode_error(e: Seq<char>) -> Seq<char> {
    "Ошибка сериализации: "@ + e
}

/// The events that can follow the action of each stage.
pub open spec fn accepts(stage: Stage, e: EventView) -> bool {
    match stage {
        Stage::Connecting => e is Connected || e is ConnectFailed,
        Stage::Sending => e is Sent || e is SendFailed,
        Stage::Receiving => e is Received || e is ReceiveFailed,
        Stage::Decoding => e is Decoded || e is DecodeFailed,
        Stage::Finished => false,
    }
}

/// The stage that an accepted event leads to.
pub open spec fn next_stage(e: EventView) -> Stage {
    match e {
        EventView::Connected => Stage::Sending,
        EventView::Sent => Stage::Receiving,
        EventView::Received(_) => Stage::Decoding,
        _ => Stage::Finished,
    }
}

/// The action that an accepted event calls for, given the request line and
/// the reply received so far.
pub open spec fn next_action(request: Seq<char>, reply: Seq<char>, e: EventView) -> ActionView {
    match e {
        EventView::Connected => ActionView::Send(request),
        EventView::ConnectFailed(m) => ActionView::Finish(Err(connect_error(m))),
        EventView::Sent => ActionView::Receive,
        EventView::SendFailed(m) => ActionView::Finish(Err(send_error(m))),
        EventView::Received(t) => ActionView::Decode(t),
        EventView::ReceiveFailed(m) => ActionView::Finish(Err(receive_error(m))),
        EventView::Decoded => ActionView::Finish(Ok(reply)),
        EventView::DecodeFailed(m) => ActionView::Finish(Err(decode_error(m))),
    }
}

/// The order of the stages: every step moves an exchange forward.
pub open spec fn rank(stage: Stage) -> nat {
    match stage {
        Stage::Connecting => 0,
        Stage::Sending => 1,
        Stage::Receiving => 2,
        Stage::Decoding => 3,
        Stage::Finished => 4,
    }
}

/// The reply held after an accepted event.
pub open spec fn next_reply(reply: Seq<char>, e: EventView) -> Seq<char> {
    match e {
        EventView::Received(t) => t,
        _ => reply,
    }
}

/// Replays `events` from `stage`: the stage reached, the reply held and
/// the actions asked for; the replay stops at the first event the stage
/// does not accept.
pub open spec fn replay(stage: Stage, request: Seq<char>, reply: Seq<char>, events: Seq<EventView>) -> (
    Stage,
    Seq<char>,
    Seq<ActionView>,
)
    decreases events.len(),
{
    if events.len() == 0 || !accepts(stage, events[0]) {
        (stage, reply, Seq::empty())
    } else {
        let e = events[0];
        let rest = replay(next_stage(e), request, next_reply(reply, e), events.drop_first());
        (rest.0, rest.1, seq![next_action(request, reply, e)] + rest.2)
    }
}

/// An exchange in which every step succeeds finishes with the reply text
/// exactly as the server sent it, after sending the request and asking
/// for the reply and its decoding.
pub proof fn lemma_successful_exchange(request: Seq<char>, text: Seq<char>)
    ensures
        replay(
            Stage::Connecting,
            request,
            Seq::empty(),
            seq![EventView::Connected, EventView::Sent, EventView::Received(text), EventView::Decoded],
        ) == (
            Stage::Finished,
            text,
            seq![
                ActionView::Send(request),
                ActionView::Receive,
                ActionView::Decode(text),
                ActionView::Finish(Ok(text)),
            ],
        ),
{
    let events = seq![EventView::Connected, EventView::Sent, EventView::Received(text), EventView::Decoded];
    let e1 = events.drop_first();
    let e2 = e1.drop_first();
    let e3 = e2.drop_first();
    let e4 = e3.drop_first();
    assert(e4.len() == 0);
    assert(e3[0] == EventView::Decoded);
    assert(e2[0] == EventView::Received(text));
    assert(e1[0] == EventView::Sent);
    let r4 = replay(Stage::Finished, request, text, e4);
    assert(r4 == (Stage::Finished, text, Seq::<ActionView>::empty()));
    let r3 = replay(Stage::Decoding, request, text, e3);
    assert(r3.2 =~= seq![ActionView::Finish(Ok(text))]);
    let r2 = replay(Stage::Receiving, request, Seq::empty(), e2);
    assert(r2.2 =~= seq![ActionView::Decode(text), ActionView::Finish(Ok(text))]);
    let r1 = replay(Stage::Sending, request, Seq::empty(), e1);
    assert(r1.2 =~= seq![ActionView::Receive, ActionView::Decode(text), ActionView::Finish(Ok(text))]);
    let r0 = replay(Stage::Connecting, request, Seq::empty(), events);
    assert(r0.2 =~= seq![
        ActionView::Send(request),
        ActionView::Receive,
        ActionView::Decode(text),
        ActionView::Finish(Ok(text)),
    ]);
}

/// Every exchange ends: from any stage at most `4 - rank(stage)` events
/// are accepted, so at most four after the connection is asked for.
pub proof fn lemma_exchange_ends(stage: Stage, request: Seq<char>, reply: Seq<char>, events: Seq<EventView>)
    ensures
        replay(stage, request, reply, events).2.len() + rank(stage) <= 4,
        rank(stage) + replay(stage, request, reply, events).2.len() <= rank(replay(stage, request, reply, events).0),
    decreases events.len(),
{
    if events.len() > 0 && accepts(stage, events[0]) {
        let e = events[0];
        lemma_exchange_ends(next_stage(e), request, next_reply(reply, e), events.drop_first());
        assert(rank(next_stage(e)) > rank(stage)) by {
            match stage {
                Stage::Connecting => {},
                Stage::Sending => {},
                Stage::Receiving => {},
                Stage::Decoding => {},
                Stage::Finished => {},
            }
        }
    }
}

/// A failure ends the exchange at once, with the message of the step that
/// failed: no later event is accepted.
pub proof fn lemma_failure_ends_exchange(stage: Stage, request: Seq<char>, reply: Seq<char>, events: Seq<EventView>)
    requires
        events.len() > 0,
        accepts(stage, events[0]),
        !(events[0] is Connected || events[0] is Sent || events[0] is Received || events[0] is Decoded),
    ensures
        replay(stage, request, reply, events).0 == Stage::Finished,
        replay(stage, request, reply, events).2 == seq![next_action(request, reply, events[0])],
        next_action(request, reply, events[0]) matches ActionView::Finish(Err(m)) && (
            m == connect_error(events[0]->ConnectFailed_0)
            || m == send_error(events[0]->SendFailed_0)
            || m == receive_error(events[0]->ReceiveFailed_0)
            || m == decode_error(events[0]->DecodeFailed_0)
        ),
{
    let rest = replay(Stage::Finished, request, reply, events.drop_first());
    assert(rest.2 =~= Seq::<ActionView>::empty());
    assert(replay(stage, request, reply, events).2 =~= seq![next_action(request, reply, events[0])]);
}

/// One exchange with the server.
pub struct Exchange {
    stage: Stage,
    address: String,
    request: String,
    reply: String,
}

impl Exchange {
    pub closed spec fn stage(&self) -> Stage {
        self.stage
    }

    /// The server's address.
    pub closed spec fn address(&self) -> Seq<char> {
        self.address@
    }

    /// The request line this exchange sends.
    pub closed spec fn request(&self) -> Seq<char> {
        self.request@
    }

    /// The reply received so far (empty before it arrives).
    pub closed spec fn reply(&self) -> Seq<char> {
        self.reply@
    }

    /// Starts an exchange that sends `command` with `param` to the server
    /// at `address`; the first action is to connect there.
    pub fn start(address: String, command: CommandSend, param: &str) -> (r: (Exchange, Action))
        ensures
            r.0.stage() == Stage::Connecting,
            r.0.address() == address@,
            r.0.request() == request_line(command, param@),
            r.0.reply() == Seq::<char>::empty(),
            r.1@ == ActionView::Connect(address@),
    {
        let request = command.str_b(param);
        let target = address.clone();
        (Exchange { stage: Stage::Connecting, address, request, reply: String::new() }, Action::Connect(target))
    }

    /// The stage the exchange is at.
    pub fn current_stage(&self) -> (s: Stage)
        ensures
            s == self.stage(),
    {
        self.stage
    }

    /// Whether `event` can follow the action last asked for.
    pub fn accepts(&self, event: &Event) -> (b: bool)
        ensures
            b == accepts(self.stage(), event@),
    {
        match self.stage {
            Stage::Connecting => matches!(event, Event::Connected | Event::ConnectFailed(_)),
            Stage::Sending => matches!(event, Event::Sent | Event::SendFailed(_)),
            Stage::Receiving => matches!(event, Event::Received(_) | Event::ReceiveFailed(_)),
            Stage::Decoding => matches!(event, Event::Decoded | Event::DecodeFailed(_)),
            Stage::Finished => false,
        }
    }

    /// Takes the outcome of the last action and says what to do next.
    pub fn step(&mut self, event: Event) -> (a: Action)
        requires
            accepts(old(self).stage(), event@),
        ensures
            final(self).stage() == next_stage(event@),
            rank(final(self).stage()) > rank(old(self).stage()),
            a@ == next_action(old(self).request(), old(self).reply(), event@),
            final(self).address() == old(self).address(),
            final(self).request() == old(self).request(),
            event@ matches EventView::Received(t) ==> final(self).reply() == t,
            !(event@ is Received) ==> final(self).reply() == old(self).reply(),
    {
        match event {
            Event::Connected => {
                self.stage = Stage::Sending;
                Action::Send(self.request.clone())
            },
            Event::ConnectFailed(m) => {
                self.stage = Stage::Finished;
                Action::Finish(Err(failure("Ошибка соединения: ", &m)))
            },
            Event::Sent => {
                self.stage = Stage::Receiving;
                Action::Receive
            },
            Event::SendFailed(m) => {
                self.stage = Stage::Finished;
                Action::Finish(Err(failure("Ошибка отправки: ", &m)))
            },
            Event::Received(t) => {
                self.stage = Stage::Decoding;
                self.reply = t.clone();
                Action::Decode(t)
            },
            Event::ReceiveFailed(m) => {
                self.stage = Stage::Finished;
                Action::Finish(Err(failure("Ошибка чтения: ", &m)))
            },
            Event::Decoded => {
                self.stage = Stage::Finished;
                Action::Finish(Ok(self.reply.clone()))
            },
            Event::DecodeFailed(m) => {
                self.stage = Stage::Finished;
                Action::Finish(Err(failure("Ошибка сериализации: ", &m)))
            },
        }
    }
}

/// `prefix` followed by `detail`.
fn failure(prefix: &str, detail: &String) -> (m: String)
    ensures
        m@ == prefix@ + detail@,
{
    let mut m = String::from_str(prefix);
    m.append(detail.as_str());
    m
}

} // verus!
