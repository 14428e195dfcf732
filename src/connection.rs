//! What one connection's handler does with each thing its transport reports:
//! text and binary messages go back to the sender unchanged, control messages
//! are dropped, and a failed read ends the connection.
use vstd::prelude::*;

verus! {

/// A message as the transport delivers it, classified into exactly one kind.
#[derive(Debug, PartialEq, Eq)]
pub enum Message {
    Text(String),
    Binary(Vec<u8>),
    Ping(Vec<u8>),
    Pong(Vec<u8>),
    Close,
}

/// Whether a message carries application data (text or binary), as opposed
/// to a control message (ping, pong or close).
pub open spec fn carries_data(m: Message) -> bool {
    m is Text || m is Binary
}

impl Message {
    /// Whether this is a text message.
    pub fn is_text(&self) -> (r: bool)
        ensures
            r == self is Text,
    {
        match self {
            Message::Text(_) => true,
            _ => false,
        }
    }

    /// Whether this is a binary message.
    pub fn is_binary(&self) -> (r: bool)
        ensures
            r == self is Binary,
    {
        match self {
            Message::Binary(_) => true,
            _ => false,
        }
    }
}

/// What the transport reported on one read.
#[derive(Debug, PartialEq, Eq)]
pub enum Event {
    /// A whole message arrived.
    Received(Message),
    /// The read failed: the peer reset or closed the connection, or sent a
    /// malformed frame.
    ReadFailed,
}

/// What the handler does next.
#[derive(Debug, PartialEq, Eq)]
pub enum Action {
    /// Write this message back to the same connection, then read again.
    Send(Message),
    /// Send nothing and read again.
    Skip,
    /// Stop handling the connection.
    Stop,
}

/// The handler's answer to one event.
pub open spec fn action_for(e: Event) -> Action {
    match e {
        Event::ReadFailed => Action::Stop,
        Event::Received(m) => if carries_data(m) {
            Action::Send(m)
        } else {
            Action::Skip
        },
    }
}

/// Decides what to do with one event: echo a text or binary message as it is,
/// ignore a control message, and stop after a failed read.
pub fn next_action(event: Event) -> (r: Action)
    ensures
        r == action_for(event),
{
    match event {
        Event::ReadFailed => Action::Stop,
        Event::Received(m) => {
            if m.is_binary() || m.is_text() {
                Action::Send(m)
            } else {
                Action::Skip
            }
        },
    }
}

/// The messages written back, in order, while the handler receives `ms` in
/// order on one connection.
pub open spec fn echoes(ms: Seq<Message>) -> Seq<Message>
    decreases ms.len(),
{
    if ms.len() == 0 {
        Seq::empty()
    } else {
        let sent = match action_for(Event::Received(ms.last())) {
            Action::Send(m) => seq![m],
            _ => Seq::empty(),
        };
        echoes(ms.drop_last()) + sent
    }
}

/// A text or binary message is echoed exactly: receiving it alone writes back
/// that very message and nothing else.
pub proof fn lemma_data_echoed_exactly(m: Message)
    requires
        carries_data(m),
    ensures
        echoes(seq![m]) == seq![m],
{
    let s = seq![m];
    assert(s.drop_last() =~= Seq::<Message>::empty());
    assert(echoes(s.drop_last()) == Seq::<Message>::empty());
    assert(s.last() == m);
    assert(Seq::<Message>::empty() + seq![m] =~= seq![m]);
}

/// A control message (ping, pong or close) is never echoed: receiving it
/// writes nothing back.
pub proof fn lemma_control_not_echoed(m: Message)
    requires
        !carries_data(m),
    ensures
        echoes(seq![m]) == Seq::<Message>::empty(),
{
    let s = seq![m];
    assert(s.drop_last() =~= Seq::<Message>::empty());
    assert(echoes(s.drop_last()) == Seq::<Message>::empty());
    assert(s.last() == m);
    assert(Seq::<Message>::empty() + Seq::<Message>::empty() =~= Seq::<Message>::empty());
}

/// Order is kept: the messages written back for a stream of messages are
/// exactly its text and binary messages, in the order they were received.
pub proof fn lemma_echo_order_kept(ms: Seq<Message>)
    ensures
        echoes(ms) == ms.filter(|m: Message| carries_data(m)),
    decreases ms.len(),
{
    reveal(Seq::filter);
    if ms.len() > 0 {
        lemma_echo_order_kept(ms.drop_last());
        assert(echoes(ms) =~= ms.filter(|m: Message| carries_data(m)));
    }
}

} // verus!
