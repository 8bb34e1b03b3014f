//! The connection manager's decisions. The event loop that owns the socket,
//! the keepalive timer and the command inbox lives outside the library: each
//! time one of the three sources is ready, it hands the outcome to [`Connection::step`]
//! and performs the actions that come back, in order.
use vstd::prelude::*;
use crate::codec::{encode, frame_of};
use crate::exit::{ExitPredicate, PatternView, exit_matches};
use crate::message::{Command, CommandView, RelayMessage, RelayMessageView};

verus! {

/// The life cycle of one connection.
#[derive(PartialEq, Eq, Structural, Clone, Copy, Debug)]
pub enum ConnectionState {
    Connecting,
    Open,
    Closing,
    Closed,
}

/// Why the listen loop stopped.
#[derive(PartialEq, Eq, Structural, Clone, Copy, Debug)]
pub enum ExitReason {
    /// The caller sent `Exit`.
    Disconnected,
    /// A delivered message matched the stop condition.
    ExitMatched,
    /// The relay sent a close frame.
    RemoteClosed,
    /// The transport has no more frames.
    StreamEnded,
    /// A text frame was not a valid relay message.
    DecodeFailed,
    /// Reading from or writing to the transport failed.
    TransportFailed,
}

/// How the WebSocket upgrade ended.
#[derive(PartialEq, Eq, Structural, Clone, Copy, Debug)]
pub enum Handshake {
    Accepted,
    TimedOut,
    Rejected,
}

/// The errors that end a connection.
#[derive(PartialEq, Eq, Structural, Clone, Copy, Debug)]
pub enum ConnectionError {
    /// The relay address has no host.
    AddressError,
    /// The upgrade did not complete within the connect timeout.
    HandshakeTimeout,
    /// The upgrade failed or was refused.
    HandshakeError,
    /// An inbound text frame did not decode.
    DecodeError,
    /// The transport failed, or the closing frame could not be sent.
    TransportError,
}

/// What one iteration of the event loop observed.
#[derive(Clone, Debug, PartialEq, Eq)]
pub enum LoopEvent {
    /// The keepalive timer fired.
    KeepaliveTick,
    /// A command arrived in the inbox.
    Received(Command),
    /// The inbox has no senders left.
    InboxClosed,
    /// A text frame decoded into a relay message.
    Message(RelayMessage),
    /// A text frame that did not decode.
    Malformed,
    /// A binary, ping or pong frame.
    ControlFrame,
    /// The relay's close frame.
    CloseFrame,
    /// The transport ended.
    StreamEnded,
    /// Reading from or writing to the transport failed.
    TransportFailed,
}

/// The mathematical value of a [`LoopEvent`].
pub enum LoopEventView {
    KeepaliveTick,
    Received(CommandView),
    InboxClosed,
    Message(RelayMessageView),
    Malformed,
    ControlFrame,
    CloseFrame,
    StreamEnded,
    TransportFailed,
}

impl View for LoopEvent {
    type V = LoopEventView;

    open spec fn view(&self) -> LoopEventView {
        match self {
            LoopEvent::KeepaliveTick => LoopEventView::KeepaliveTick,
            LoopEvent::Received(c) => LoopEventView::Received(c@),
            LoopEvent::InboxClosed => LoopEventView::InboxClosed,
            LoopEvent::Message(m) => LoopEventView::Message(m@),
            LoopEvent::Malformed => LoopEventView::Malformed,
            LoopEvent::ControlFrame => LoopEventView::ControlFrame,
            LoopEvent::CloseFrame => LoopEventView::CloseFrame,
            LoopEvent::StreamEnded => LoopEventView::StreamEnded,
            LoopEvent::TransportFailed => LoopEventView::TransportFailed,
        }
    }
}

/// What the event loop must do next.
#[derive(Clone, Debug, PartialEq, Eq)]
pub enum Action {
    /// Send a transport-level ping.
    Ping,
    /// Send a text frame.
    Transmit(String),
    /// Hand a relay message to the caller.
    Deliver(RelayMessage),
    /// Send the closing frame and leave the loop.
    Close,
}

/// The mathematical value of an [`Action`].
pub enum ActionView {
    Ping,
    Transmit(Seq<char>),
    Deliver(RelayMessageView),
    Close,
}

impl View for Action {
    type V = ActionView;

    open spec fn view(&self) -> ActionView {
        match self {
            Action::Ping => ActionView::Ping,
            Action::Transmit(f) => ActionView::Transmit(f@),
            Action::Deliver(m) => ActionView::Deliver(m@),
            Action::Close => ActionView::Close,
        }
    }
}

pub open spec fn actions_view(acts: Seq<Action>) -> Seq<ActionView> {
    acts.map_values(|a: Action| a@)
}

/// One connection to a relay.
pub struct Connection {
    state: ConnectionState,
    exit: ExitPredicate,
    reason: Option<ExitReason>,
}

/// The mathematical value of a [`Connection`].
pub struct ConnectionView {
    pub state: ConnectionState,
    pub exit: Seq<PatternView>,
    pub reason: Option<ExitReason>,
}

impl View for Connection {
    type V = ConnectionView;

    closed spec fn view(&self) -> ConnectionView {
        ConnectionView { state: self.state, exit: self.exit@, reason: self.reason }
    }
}

/// The connection once the loop has stopped for `why`.
pub open spec fn stopped(c: ConnectionView, why: ExitReason) -> ConnectionView {
    ConnectionView { state: ConnectionState::Closing, reason: Some(why), ..c }
}

/// One iteration of the listen loop: the next connection and the actions, in
/// the order in which they are to be performed. Outside `Open` nothing happens.
pub open spec fn next(c: ConnectionView, e: LoopEventView) -> (ConnectionView, Seq<ActionView>) {
    if c.state != ConnectionState::Open {
        (c, Seq::empty())
    } else {
        match e {
            LoopEventView::KeepaliveTick => (c, seq![ActionView::Ping]),
            LoopEventView::Received(cmd) => match frame_of(cmd) {
                Some(f) => (c, seq![ActionView::Transmit(f)]),
                None => (stopped(c, ExitReason::Disconnected), seq![ActionView::Close]),
            },
            LoopEventView::InboxClosed => (c, Seq::empty()),
            LoopEventView::Message(m) => if exit_matches(c.exit, m) {
                (
                    stopped(c, ExitReason::ExitMatched),
                    seq![ActionView::Deliver(m), ActionView::Close],
                )
            } else {
                (c, seq![ActionView::Deliver(m)])
            },
            LoopEventView::Malformed => (
                stopped(c, ExitReason::DecodeFailed),
                seq![ActionView::Close],
            ),
            LoopEventView::ControlFrame => (c, Seq::empty()),
            LoopEventView::CloseFrame => (
                stopped(c, ExitReason::RemoteClosed),
                seq![ActionView::Close],
            ),
            LoopEventView::StreamEnded => (
                stopped(c, ExitReason::StreamEnded),
                seq![ActionView::Close],
            ),
            LoopEventView::TransportFailed => (
                stopped(c, ExitReason::TransportFailed),
                seq![ActionView::Close],
            ),
        }
    }
}

/// What the connection reports once it is closed: the error that stopped the
/// loop, if any; else a failure to send the closing frame, if any.
pub open spec fn outcome(reason: Option<ExitReason>, close_sent: bool) -> Result<
    (),
    ConnectionError,
> {
    match reason {
        Some(ExitReason::DecodeFailed) => Err(ConnectionError::DecodeError),
        Some(ExitReason::TransportFailed) => Err(ConnectionError::TransportError),
        _ => if close_sent {
            Ok(())
        } else {
            Err(ConnectionError::TransportError)
        },
    }
}

impl Connection {
    /// A connection that is about to perform its handshake.
    pub fn new(exit: ExitPredicate) -> (r: Connection)
        ensures
            r@.state == ConnectionState::Connecting,
            r@.exit == exit@,
            r@.reason is None,
    {
        Connection { state: ConnectionState::Connecting, exit, reason: None }
    }

    pub fn state(&self) -> (r: ConnectionState)
        ensures
            r == self@.state,
    {
        self.state
    }

    pub fn reason(&self) -> (r: Option<ExitReason>)
        ensures
            r == self@.reason,
    {
        self.reason
    }

    /// Records how the upgrade ended: an accepted one opens the connection,
    /// any other closes it with the matching error.
    pub fn handshake(&mut self, h: Handshake) -> (r: Result<(), ConnectionError>)
        requires
            old(self)@.state == ConnectionState::Connecting,
        ensures
            final(self)@.exit == old(self)@.exit,
            final(self)@.reason == old(self)@.reason,
            h == Handshake::Accepted ==> r is Ok && final(self)@.state == ConnectionState::Open,
            h == Handshake::TimedOut ==> r == Err::<(), ConnectionError>(
                ConnectionError::HandshakeTimeout,
            ) && final(self)@.state == ConnectionState::Closed,
            h == Handshake::Rejected ==> r == Err::<(), ConnectionError>(
                ConnectionError::HandshakeError,
            ) && final(self)@.state == ConnectionState::Closed,
    {
        match h {
            Handshake::Accepted => {
                self.state = ConnectionState::Open;
                Ok(())
            },
            Handshake::TimedOut => {
                self.state = ConnectionState::Closed;
                Err(ConnectionError::HandshakeTimeout)
            },
            Handshake::Rejected => {
                self.state = ConnectionState::Closed;
                Err(ConnectionError::HandshakeError)
            },
        }
    }

    fn stop(&mut self, why: ExitReason)
        ensures
            final(self)@ == stopped(old(self)@, why),
    {
        self.state = ConnectionState::Closing;
        self.reason = Some(why);
    }

    /// Decides one iteration of the listen loop.
    pub fn step(&mut self, e: LoopEvent) -> (r: Vec<Action>)
        ensures
            (final(self)@, actions_view(r@)) == next(old(self)@, e@),
    {
        let mut out: Vec<Action> = Vec::new();
        if self.state != ConnectionState::Open {
            assert(actions_view(out@) =~= Seq::empty());
            return out;
        }
        let ghost e_view = e@;
        match e {
            LoopEvent::KeepaliveTick => {
                out.push(Action::Ping);
            },
            LoopEvent::Received(cmd) => {
                match encode(&cmd) {
                    Some(f) => {
                        out.push(Action::Transmit(f));
                    },
                    None => {
                        self.stop(ExitReason::Disconnected);
                        out.push(Action::Close);
                    },
                }
            },
            LoopEvent::InboxClosed => {},
            LoopEvent::Message(m) => {
                let hit = self.exit.matches(&m);
                out.push(Action::Deliver(m));
                if hit {
                    self.stop(ExitReason::ExitMatched);
                    out.push(Action::Close);
                }
            },
            LoopEvent::Malformed => {
                self.stop(ExitReason::DecodeFailed);
                out.push(Action::Close);
            },
            LoopEvent::ControlFrame => {},
            LoopEvent::CloseFrame => {
                self.stop(ExitReason::RemoteClosed);
                out.push(Action::Close);
            },
            LoopEvent::StreamEnded => {
                self.stop(ExitReason::StreamEnded);
                out.push(Action::Close);
            },
            LoopEvent::TransportFailed => {
                self.stop(ExitReason::TransportFailed);
                out.push(Action::Close);
            },
        }
        assert(actions_view(out@) =~= next(old(self)@, e_view).1);
        out
    }

    /// Ends a connection whose loop has stopped, once the closing frame has
    /// been sent (or failed to be). Anywhere but in `Closing` it changes
    /// nothing and reports success.
    pub fn finish(&mut self, close_sent: bool) -> (r: Result<(), ConnectionError>)
        ensures
            final(self)@.exit == old(self)@.exit,
            final(self)@.reason == old(self)@.reason,
            old(self)@.state == ConnectionState::Closing ==> final(self)@.state
                == ConnectionState::Closed && r == outcome(old(self)@.reason, close_sent),
            old(self)@.state != ConnectionState::Closing ==> final(self)@.state == old(
                self,
            )@.state && r is Ok,
    {
        if self.state != ConnectionState::Closing {
            return Ok(());
        }
        self.state = ConnectionState::Closed;
        match self.reason {
            Some(ExitReason::DecodeFailed) => Err(ConnectionError::DecodeError),
            Some(ExitReason::TransportFailed) => Err(ConnectionError::TransportError),
            _ => if close_sent {
                Ok(())
            } else {
                Err(ConnectionError::TransportError)
            },
        }
    }
}

/// The connection and all actions after a sequence of loop iterations.
pub open spec fn run(c: ConnectionView, evs: Seq<LoopEventView>) -> (ConnectionView, Seq<ActionView>)
    decreases evs.len(),
{
    if evs.len() == 0 {
        (c, Seq::empty())
    } else {
        let (c1, a1) = run(c, evs.drop_last());
        let (c2, a2) = next(c1, evs.last());
        (c2, a1 + a2)
    }
}

/// The messages handed to the caller by a sequence of actions, in order.
pub open spec fn delivered(acts: Seq<ActionView>) -> Seq<RelayMessageView>
    decreases acts.len(),
{
    if acts.len() == 0 {
        Seq::empty()
    } else {
        match acts.last() {
            ActionView::Deliver(m) => delivered(acts.drop_last()).push(m),
            _ => delivered(acts.drop_last()),
        }
    }
}

/// The relay messages decoded from a sequence of inbound frames, in order.
pub open spec fn inbound_messages(evs: Seq<LoopEventView>) -> Seq<RelayMessageView>
    decreases evs.len(),
{
    if evs.len() == 0 {
        Seq::empty()
    } else {
        match evs.last() {
            LoopEventView::Message(m) => inbound_messages(evs.drop_last()).push(m),
            _ => inbound_messages(evs.drop_last()),
        }
    }
}

proof fn lemma_delivered_append(a: Seq<ActionView>, b: Seq<ActionView>)
    ensures
        delivered(a + b) == delivered(a) + delivered(b),
    decreases b.len(),
{
    if b.len() == 0 {
        assert(a + b =~= a);
        assert(delivered(b) =~= Seq::<RelayMessageView>::empty());
        assert(delivered(a) + delivered(b) =~= delivered(a));
    } else {
        lemma_delivered_append(a, b.drop_last());
        assert((a + b).drop_last() =~= a + b.drop_last());
        assert((a + b).last() == b.last());
        match b.last() {
            ActionView::Deliver(m) => {
                assert(delivered(a) + delivered(b) =~= (delivered(a) + delivered(
                    b.drop_last(),
                )).push(m));
            },
            _ => {},
        }
    }
}

proof fn lemma_next_outside_open(c: ConnectionView, e: LoopEventView)
    ensures
        c.state != ConnectionState::Open ==> next(c, e) == (c, Seq::<ActionView>::empty()),
        next(c, e).0.state == ConnectionState::Open ==> c.state == ConnectionState::Open,
{
}

/// Delivery keeps the order of the transport: the messages handed to the
/// caller are the decoded inbound messages in the order they were read, none
/// added and none reordered; while the connection stays open, none is missing.
pub proof fn lemma_delivery_order(c: ConnectionView, evs: Seq<LoopEventView>)
    ensures
        delivered(run(c, evs).1).len() <= inbound_messages(evs).len(),
        delivered(run(c, evs).1) == inbound_messages(evs).subrange(
            0,
            delivered(run(c, evs).1).len() as int,
        ),
        run(c, evs).0.state == ConnectionState::Open ==> c.state == ConnectionState::Open
            && delivered(run(c, evs).1) == inbound_messages(evs),
    decreases evs.len(),
{
    if evs.len() == 0 {
        assert(delivered(Seq::<ActionView>::empty()) =~= Seq::<RelayMessageView>::empty());
        assert(inbound_messages(evs) =~= Seq::<RelayMessageView>::empty());
    } else {
        let init = evs.drop_last();
        let e = evs.last();
        lemma_delivery_order(c, init);
        let (c1, a1) = run(c, init);
        let (c2, a2) = next(c1, e);
        lemma_delivered_append(a1, a2);
        lemma_next_outside_open(c1, e);
        let d1 = delivered(a1);
        let m1 = inbound_messages(init);
        assert(delivered(Seq::<ActionView>::empty()) =~= Seq::<RelayMessageView>::empty());
        if c1.state == ConnectionState::Open {
            match e {
                LoopEventView::Message(m) => {
                    if exit_matches(c1.exit, m) {
                        let s = seq![ActionView::Deliver(m), ActionView::Close];
                        assert(s.drop_last() =~= seq![ActionView::Deliver(m)]);
                        assert(seq![ActionView::Deliver(m)].drop_last() =~= Seq::<
                            ActionView,
                        >::empty());
                        reveal_with_fuel(delivered, 3);
                        assert(delivered(a2) =~= seq![m]);
                    } else {
                        assert(seq![ActionView::Deliver(m)].drop_last() =~= Seq::<
                            ActionView,
                        >::empty());
                        assert(delivered(a2) =~= seq![m]);
                    }
                    assert(d1 + seq![m] =~= m1.push(m));
                    assert(inbound_messages(evs) == m1.push(m));
                    assert(inbound_messages(evs).subrange(0, m1.len() as int + 1) =~= m1.push(m));
                },
                _ => {
                    assert(inbound_messages(evs) == m1);
                    if a2.len() == 1 {
                        assert(a2.drop_last() =~= Seq::<ActionView>::empty());
                    }
                    assert(delivered(a2) =~= Seq::<RelayMessageView>::empty());
                    assert(d1 + delivered(a2) =~= d1);
                },
            }
        } else {
            assert(a2 =~= Seq::<ActionView>::empty());
            assert(d1 + delivered(a2) =~= d1);
            match e {
                LoopEventView::Message(m) => {
                    assert(inbound_messages(evs) == m1.push(m));
                    assert(m1.push(m).subrange(0, d1.len() as int) =~= m1.subrange(
                        0,
                        d1.len() as int,
                    ));
                },
                _ => {
                    assert(inbound_messages(evs) == m1);
                },
            }
        }
    }
}

/// While the connection is open, every command but `Exit` is sent at once as
/// exactly the frame that the protocol's grammar gives it, and nothing else
/// happens.
pub proof fn lemma_command_frame(c: ConnectionView, cmd: CommandView)
    requires
        c.state == ConnectionState::Open,
        !(cmd is Exit),
    ensures
        frame_of(cmd) is Some,
        next(c, LoopEventView::Received(cmd)) == (
            c,
            seq![ActionView::Transmit(frame_of(cmd)->Some_0)],
        ),
{
}

/// `Exit` twice has the effect of `Exit` once: the second changes nothing and
/// does nothing. While open, the first stops the loop and sends the closing
/// frame once.
pub proof fn lemma_exit_idempotent(c: ConnectionView)
    ensures
        ({
            let (c1, a1) = next(c, LoopEventView::Received(CommandView::Exit));
            let (c2, a2) = next(c1, LoopEventView::Received(CommandView::Exit));
            &&& c2 == c1
            &&& a2 == Seq::<ActionView>::empty()
            &&& c.state == ConnectionState::Open ==> c1.state == ConnectionState::Closing
                && a1 == seq![ActionView::Close]
            &&& c.state != ConnectionState::Open ==> c1 == c && a1 == Seq::<ActionView>::empty()
        }),
{
}

/// With `Eose(sub)` in the stop condition, an open connection that reads
/// `Eose(sub)` first delivers it, then sends the closing frame and leaves the
/// loop.
pub proof fn lemma_stop_after_delivery(c: ConnectionView, sub: Seq<char>)
    requires
        c.state == ConnectionState::Open,
        c.exit.contains(PatternView::Eose(sub)),
    ensures
        ({
            let m = RelayMessageView::Eose(sub);
            let (c1, a1) = next(c, LoopEventView::Message(m));
            &&& a1 == seq![ActionView::Deliver(m), ActionView::Close]
            &&& c1.state == ConnectionState::Closing
            &&& c1.reason == Some(ExitReason::ExitMatched)
            &&& delivered(a1) == seq![m]
        }),
{
    let m = RelayMessageView::Eose(sub);
    let i = choose|i: int| 0 <= i < c.exit.len() && c.exit[i] == PatternView::Eose(sub);
    assert(crate::exit::pattern_matches(c.exit[i], m));
    let s = seq![ActionView::Deliver(m), ActionView::Close];
    assert(s.drop_last() =~= seq![ActionView::Deliver(m)]);
    assert(seq![ActionView::Deliver(m)].drop_last() =~= Seq::<ActionView>::empty());
    assert(delivered(Seq::<ActionView>::empty()) =~= Seq::<RelayMessageView>::empty());
    reveal_with_fuel(delivered, 3);
    assert(delivered(s) =~= seq![m]);
}

} // verus!
