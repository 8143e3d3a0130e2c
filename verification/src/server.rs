//! Server-to-client message vocabulary, the session registry, and the
//! per-connection session state machine.

use vstd::prelude::*;

use crate::client;
use crate::hub::{Hub, HubV, Receipt, ReceiptV, Subscriber, recv_cursor, recv_receipt};

verus! {

/// An error reported to a client.  `Lost(n)` tells a slow client exactly how
/// many chat events its subscription dropped while it lagged behind.
#[derive(Debug, Clone, Copy, PartialEq, Eq, Structural)]
pub enum Error {
    UsernameTaken,
    Internal,
    Lost(u64),
}

/// An event relayed from the server to a client: somebody joined, said a
/// line, or left, or an error concerning this client alone.
#[derive(Debug, PartialEq, Eq)]
pub enum Message {
    Joined(String),
    Said(String, String),
    Left(String),
    Fault(Error),
}

/// The mathematical value of a server event: its text fields as character
/// sequences.
pub ghost enum MessageV {
    Joined(Seq<char>),
    Said(Seq<char>, Seq<char>),
    Left(Seq<char>),
    Fault(Error),
}

impl View for Message {
    type V = MessageV;

    open spec fn view(&self) -> MessageV {
        match self {
            Message::Joined(name) => MessageV::Joined(name@),
            Message::Said(name, text) => MessageV::Said(name@, text@),
            Message::Left(name) => MessageV::Left(name@),
            Message::Fault(e) => MessageV::Fault(*e),
        }
    }
}

impl Clone for Message {
    fn clone(&self) -> (res: Self)
        ensures
            res == *self,
    {
        match self {
            Message::Joined(name) => Message::Joined(name.clone()),
            Message::Said(name, text) => Message::Said(name.clone(), text.clone()),
            Message::Left(name) => Message::Left(name.clone()),
            Message::Fault(e) => Message::Fault(*e),
        }
    }
}

impl DeepView for Message {
    type V = MessageV;

    open spec fn deep_view(&self) -> MessageV {
        self.view()
    }
}

/// How many events the hub of a freshly created [`State`] retains.
pub const HUB_CAPACITY: usize = 64;

/// The mathematical value of the shared server state: the set of registered
/// usernames and the hub.
#[verifier::ext_equal]
pub ghost struct StateV {
    pub usernames: Set<Seq<char>>,
    pub hub: HubV,
}

/// The process-wide state shared by all sessions: the registry of currently
/// claimed usernames and the broadcast hub.  One value of this type exists
/// for the lifetime of a server; sessions reach it through whatever shared
/// handle the surrounding program provides, holding it exclusively for the
/// duration of a single step.
pub struct State {
    usernames: Vec<String>,
    hub: Hub,
}

impl View for State {
    type V = StateV;

    closed spec fn view(&self) -> StateV {
        StateV {
            usernames: Set::new(
                |n: Seq<char>|
                    exists|i: int| 0 <= i < self.usernames@.len() && self.usernames@[i]@ == n,
            ),
            hub: self.hub@,
        }
    }
}

/// Membership scan shared by registration and removal.
fn contains_name(v: &Vec<String>, name: &String) -> (r: bool)
    ensures
        r == exists|i: int| 0 <= i < v@.len() && v@[i]@ == name@,
{
    let mut k: usize = 0;
    while k < v.len()
        invariant
            k <= v@.len(),
            forall|i: int| 0 <= i < k ==> v@[i]@ != name@,
        decreases v@.len() - k,
    {
        if v[k] == *name {
            return true;
        }
        k = k + 1;
    }
    false
}

impl State {
    /// Internal consistency: the hub is well formed and no username is
    /// recorded twice.
    pub closed spec fn wf(&self) -> bool {
        &&& self.hub.wf()
        &&& forall|i: int, j: int|
            0 <= i < j < self.usernames@.len() ==> self.usernames@[i]@ != self.usernames@[j]@
    }

    /// Atomically check membership and insert if absent, in one step: the
    /// claim succeeds exactly when no live session holds `name`, and on
    /// refusal nothing changes.
    pub fn try_register(&mut self, name: &String) -> (r: bool)
        requires
            old(self).wf(),
        ensures
            final(self).wf(),
            r == !old(self)@.usernames.contains(name@),
            r ==> final(self)@.usernames == old(self)@.usernames.insert(name@),
            !r ==> final(self)@.usernames == old(self)@.usernames,
            final(self)@.hub == old(self)@.hub,
    {
        if contains_name(&self.usernames, name) {
            false
        } else {
            self.usernames.push(name.clone());
            proof {
                assert forall|n: Seq<char>| #[trigger] final(self)@.usernames.contains(n)
                    implies old(self)@.usernames.insert(name@).contains(n) by {
                    let i = choose|i: int|
                        0 <= i < self.usernames@.len() && self.usernames@[i]@ == n;
                    if i < self.usernames@.len() - 1 {
                        assert(old(self).usernames@[i]@ == n);
                    }
                }
                assert forall|n: Seq<char>| old(self)@.usernames.insert(name@).contains(n)
                    implies #[trigger] final(self)@.usernames.contains(n) by {
                    if n == name@ {
                        assert(self.usernames@[self.usernames@.len() - 1]@ == n);
                    } else {
                        let i = choose|i: int|
                            0 <= i < old(self).usernames@.len() && old(self).usernames@[i]@ == n;
                        assert(self.usernames@[i]@ == n);
                    }
                }
                assert(final(self)@.usernames =~= old(self)@.usernames.insert(name@));
            }
            true
        }
    }

    /// Remove `name` from the registry.  Removing an absent name is a no-op,
    /// not an error: the call is safe even if registration never completed.
    pub fn unregister(&mut self, name: &String)
        requires
            old(self).wf(),
        ensures
            final(self).wf(),
            final(self)@.usernames == old(self)@.usernames.remove(name@),
            final(self)@.hub == old(self)@.hub,
    {
        let mut k: usize = 0;
        while k < self.usernames.len()
            invariant
                old(self).wf(),
                k <= self.usernames@.len(),
                forall|i: int| 0 <= i < k ==> self.usernames@[i]@ != name@,
                *self == *old(self),
            decreases self.usernames@.len() - k,
        {
            if self.usernames[k] == *name {
                self.usernames.remove(k);
                proof {
                    assert(old(self).usernames@[k as int]@ == name@);
                    assert forall|i: int, j: int|
                        0 <= i < j < self.usernames@.len() implies self.usernames@[i]@
                        != self.usernames@[j]@ by {
                        let i0: int = if i < k { i } else { i + 1 };
                        let j0: int = if j < k { j } else { j + 1 };
                        assert(0 <= i0 < j0 < old(self).usernames@.len());
                        assert(old(self).usernames@[i0]@ != old(self).usernames@[j0]@);
                        assert(self.usernames@[i]@ == old(self).usernames@[i0]@);
                        assert(self.usernames@[j]@ == old(self).usernames@[j0]@);
                    }
                    assert forall|n: Seq<char>| #[trigger] final(self)@.usernames.contains(n)
                        implies old(self)@.usernames.remove(name@).contains(n) by {
                        let i = choose|i: int|
                            0 <= i < self.usernames@.len() && self.usernames@[i]@ == n;
                        let i0: int = if i < k { i } else { i + 1 };
                        assert(old(self).usernames@[i0]@ == n);
                        // distinct entries: only index k holds `name`
                        if i0 < k {
                            assert(old(self).usernames@[i0]@ != old(self).usernames@[k as int]@);
                        } else {
                            assert(old(self).usernames@[k as int]@ != old(self).usernames@[i0]@);
                        }
                    }
                    assert forall|n: Seq<char>| old(self)@.usernames.remove(name@).contains(n)
                        implies #[trigger] final(self)@.usernames.contains(n) by {
                        let i = choose|i: int|
                            0 <= i < old(self).usernames@.len() && old(self).usernames@[i]@ == n;
                        assert(i != k);
                        if i < k {
                            assert(self.usernames@[i]@ == n);
                        } else {
                            assert(self.usernames@[i - 1]@ == n);
                        }
                    }
                    assert(final(self)@.usernames =~= old(self)@.usernames.remove(name@));
                }
                return;
            }
            k = k + 1;
        }
        proof {
            assert(!old(self)@.usernames.contains(name@));
            assert(final(self)@.usernames =~= old(self)@.usernames.remove(name@));
        }
    }

    /// Whether `name` is currently claimed by some live session.
    pub fn is_registered(&self, name: &String) -> (r: bool)
        requires
            self.wf(),
        ensures
            r == self@.usernames.contains(name@),
    {
        contains_name(&self.usernames, name)
    }

    /// How many events have ever been published to the shared hub.
    pub fn published(&self) -> (n: u64)
        requires
            self.wf(),
        ensures
            n == self@.hub.published(),
    {
        self.hub.published()
    }

    /// Hand the event to the hub; every subscriber sees it, the slowest ones
    /// possibly as part of a lag report.  With no subscribers the event is
    /// simply forgotten, never an error.
    fn broadcast(&mut self, m: Message)
        requires
            old(self).wf(),
            old(self)@.hub.published() < u64::MAX,
        ensures
            final(self).wf(),
            final(self)@.usernames == old(self)@.usernames,
            final(self)@.hub.capacity == old(self)@.hub.capacity,
            final(self)@.hub.history == old(self)@.hub.history.push(m@),
    {
        self.hub.publish(m);
    }
}

impl Default for State {
    /// A fresh server state: no usernames claimed, an empty hub of the
    /// default capacity.
    fn default() -> (s: Self)
        ensures
            s.wf(),
            s@.usernames == Set::<Seq<char>>::empty(),
            s@.hub.capacity == HUB_CAPACITY,
            s@.hub.history == Seq::<MessageV>::empty(),
    {
        let s = State { usernames: Vec::new(), hub: Hub::new(HUB_CAPACITY) };
        proof {
            assert(s@.usernames =~= Set::<Seq<char>>::empty());
        }
        s
    }
}

/// What one read from a session's wire yields: a decoded intent, a malformed
/// frame (reported per message, never ending the stream), or the distinct
/// end-of-stream signal.
#[derive(Debug, PartialEq, Eq)]
pub enum Inbound {
    Intent(client::Message),
    Malformed,
    Closed,
}

/// The mathematical value of a wire read.
pub ghost enum InboundV {
    Intent(client::MessageV),
    Malformed,
    Closed,
}

impl View for Inbound {
    type V = InboundV;

    open spec fn view(&self) -> InboundV {
        match self {
            Inbound::Intent(m) => InboundV::Intent(m@),
            Inbound::Malformed => InboundV::Malformed,
            Inbound::Closed => InboundV::Closed,
        }
    }
}

/// The coordinator for one client connection.  It is created awaiting a
/// name, becomes active on a successful registration — owning the username
/// and a private hub subscription — and ends terminated; it is never reused
/// for another connection.
pub enum Session {
    AwaitingName,
    Active { name: String, sub: Subscriber },
    Terminated,
}

/// The mathematical value of a session: its phase, and while active, the
/// name it holds and its subscription cursor.
pub ghost enum SessionV {
    AwaitingName,
    Active { name: Seq<char>, cursor: nat },
    Terminated,
}

impl View for Session {
    type V = SessionV;

    open spec fn view(&self) -> SessionV {
        match self {
            Session::AwaitingName => SessionV::AwaitingName,
            Session::Active { name, sub } => SessionV::Active { name: name@, cursor: sub@ },
            Session::Terminated => SessionV::Terminated,
        }
    }
}

/// A session agrees with the shared state: while active, it holds a
/// registered name and its cursor never runs ahead of the hub.
pub open spec fn session_wf(sv: SessionV, st: StateV) -> bool {
    sv matches SessionV::Active { name, cursor } ==> st.usernames.contains(name) && cursor
        <= st.hub.published()
}

/// Entering the terminal phase from any phase: an active session publishes
/// `Left(name)` to the hub and then unregisters its name — both exactly
/// once, whatever triggered the termination; a session that never completed
/// a handshake just ends, with no registry or hub side effects.
pub open spec fn close_session(sv: SessionV, st: StateV) -> (SessionV, StateV) {
    match sv {
        SessionV::Active { name, cursor } => (
            SessionV::Terminated,
            StateV {
                usernames: st.usernames.remove(name),
                hub: HubV {
                    capacity: st.hub.capacity,
                    history: st.hub.history.push(MessageV::Left(name)),
                },
            },
        ),
        _ => (SessionV::Terminated, st),
    }
}

/// One step of the session state machine on a wire read, per the session's
/// phase: the resulting phase, the resulting shared state, and the reply
/// owed to this client alone, if any.
///
/// Awaiting a name, a `Join` claims the name — atomically with the
/// membership check — and on success subscribes *before* publishing
/// `Joined`, so the new session observes its own arrival; a taken name is
/// answered with `Fault(UsernameTaken)` and the handshake continues.  While
/// active, `Say` publishes `Said` for everyone — the speaker included, who
/// sees it back through its own subscription — and `Leave` or a closed
/// stream runs the cleanup of [`close_session`].  A malformed frame is
/// answered with `Fault(Internal)` and changes nothing else, in either
/// phase.  Intents that carry no meaning in the current phase are ignored.
pub open spec fn step_session(sv: SessionV, st: StateV, inb: InboundV) -> (
    SessionV,
    StateV,
    Option<MessageV>,
) {
    match (sv, inb) {
        (SessionV::AwaitingName, InboundV::Intent(client::MessageV::Join(n))) => {
            if st.usernames.contains(n) {
                (sv, st, Some(MessageV::Fault(Error::UsernameTaken)))
            } else {
                (
                    SessionV::Active { name: n, cursor: st.hub.published() },
                    StateV {
                        usernames: st.usernames.insert(n),
                        hub: HubV {
                            capacity: st.hub.capacity,
                            history: st.hub.history.push(MessageV::Joined(n)),
                        },
                    },
                    None,
                )
            }
        },
        (SessionV::AwaitingName, InboundV::Intent(_)) => (sv, st, None),
        (SessionV::AwaitingName, InboundV::Malformed) => (
            sv,
            st,
            Some(MessageV::Fault(Error::Internal)),
        ),
        (SessionV::AwaitingName, InboundV::Closed) => (SessionV::Terminated, st, None),
        (SessionV::Active { name, cursor }, InboundV::Intent(client::MessageV::Say(t))) => (
            sv,
            StateV {
                usernames: st.usernames,
                hub: HubV {
                    capacity: st.hub.capacity,
                    history: st.hub.history.push(MessageV::Said(name, t)),
                },
            },
            None,
        ),
        (SessionV::Active { .. }, InboundV::Intent(client::MessageV::Join(_))) => (sv, st, None),
        (SessionV::Active { .. }, InboundV::Intent(client::MessageV::Leave)) => (
            close_session(sv, st).0,
            close_session(sv, st).1,
            None,
        ),
        (SessionV::Active { .. }, InboundV::Closed) => (
            close_session(sv, st).0,
            close_session(sv, st).1,
            None,
        ),
        (SessionV::Active { .. }, InboundV::Malformed) => (
            sv,
            st,
            Some(MessageV::Fault(Error::Internal)),
        ),
        (SessionV::Terminated, _) => (sv, st, None),
    }
}

/// What the session forwards to its client for one hub receipt: the three
/// chat events verbatim, a lag report as `Fault(Lost(n))`, nothing while
/// caught up.  Fault events belong to one client alone and are never
/// forwarded from the hub.
pub open spec fn forwarded(r: ReceiptV) -> Option<MessageV> {
    match r {
        ReceiptV::Empty => None,
        ReceiptV::Event(m) => if m is Fault {
            None
        } else {
            Some(m)
        },
        ReceiptV::Lagged(n) => Some(MessageV::Fault(Error::Lost(n as u64))),
    }
}

impl Session {
    /// A fresh session for a newly accepted connection.
    pub fn new() -> (s: Session)
        ensures
            s@ == SessionV::AwaitingName,
    {
        Session::AwaitingName
    }

    /// Whether this session is past its handshake and still running.
    pub fn is_active(&self) -> (r: bool)
        ensures
            r == (self@ is Active),
    {
        match self {
            Session::Active { .. } => true,
            _ => false,
        }
    }

    /// Whether this session has ended.
    pub fn is_terminated(&self) -> (r: bool)
        ensures
            r == (self@ is Terminated),
    {
        match self {
            Session::Terminated => true,
            _ => false,
        }
    }

    /// The username this session holds, while it is active.
    pub fn name(&self) -> (n: Option<&String>)
        ensures
            n matches Some(s) ==> self@ is Active && s@ == self@->Active_name,
            (n is Some) == (self@ is Active),
    {
        match self {
            Session::Active { name, .. } => Some(name),
            _ => None,
        }
    }

    /// Drive the session by one wire read, per [`step_session`], and hand
    /// back the reply owed to this client, if any.
    pub fn handle_inbound(&mut self, state: &mut State, inbound: Inbound) -> (reply: Option<
        Message,
    >)
        requires
            old(state).wf(),
            session_wf(old(self)@, old(state)@),
            !(old(self)@ is Terminated),
            old(state)@.hub.published() < u64::MAX,
        ensures
            final(state).wf(),
            session_wf(final(self)@, final(state)@),
            final(self)@ == step_session(old(self)@, old(state)@, inbound@).0,
            final(state)@ == step_session(old(self)@, old(state)@, inbound@).1,
            reply.deep_view() == step_session(old(self)@, old(state)@, inbound@).2,
    {
        match self {
            Session::AwaitingName => match inbound {
                Inbound::Intent(client::Message::Join(name)) => {
                    if state.try_register(&name) {
                        let sub = state.hub.subscribe();
                        state.broadcast(Message::Joined(name.clone()));
                        *self = Session::Active { name, sub };
                        None
                    } else {
                        Some(Message::Fault(Error::UsernameTaken))
                    }
                },
                Inbound::Intent(_) => None,
                Inbound::Malformed => Some(Message::Fault(Error::Internal)),
                Inbound::Closed => {
                    *self = Session::Terminated;
                    None
                },
            },
            Session::Active { name, sub } => match inbound {
                Inbound::Intent(client::Message::Say(text)) => {
                    state.broadcast(Message::Said(name.clone(), text));
                    None
                },
                Inbound::Intent(client::Message::Join(_)) => None,
                Inbound::Intent(client::Message::Leave) | Inbound::Closed => {
                    let who = name.clone();
                    state.broadcast(Message::Left(who.clone()));
                    state.unregister(&who);
                    *self = Session::Terminated;
                    None
                },
                Inbound::Malformed => Some(Message::Fault(Error::Internal)),
            },
            Session::Terminated => vstd::pervasive::unreached(),
        }
    }

    /// The cleanup path for a session ending for any other reason — a wire
    /// write failure above all: run [`close_session`] exactly as a `Leave`
    /// would.  On a session that never registered, or is already
    /// terminated, this has no side effects.  Afterwards the session's name
    /// is free for reuse.
    pub fn terminate(&mut self, state: &mut State)
        requires
            old(state).wf(),
            session_wf(old(self)@, old(state)@),
            old(state)@.hub.published() < u64::MAX,
        ensures
            final(state).wf(),
            final(self)@ is Terminated,
            final(self)@ == close_session(old(self)@, old(state)@).0,
            final(state)@ == close_session(old(self)@, old(state)@).1,
            old(self)@ matches SessionV::Active { name, .. }
                ==> !final(state)@.usernames.contains(name),
    {
        match self {
            Session::Active { name, sub } => {
                let who = name.clone();
                state.broadcast(Message::Left(who.clone()));
                state.unregister(&who);
                *self = Session::Terminated;
            },
            _ => {
                *self = Session::Terminated;
            },
        }
    }

    /// Receive the next hub event for this active session and turn it into
    /// the message owed to its client, if any, per [`forwarded`]: chat
    /// events in publish order, a `Fault(Lost(n))` report when the session
    /// lagged, nothing while caught up.
    pub fn poll_hub(&mut self, state: &State) -> (out: Option<Message>)
        requires
            state.wf(),
            session_wf(old(self)@, state@),
            old(self)@ is Active,
        ensures
            session_wf(final(self)@, state@),
            final(self)@ == (SessionV::Active {
                name: old(self)@->Active_name,
                cursor: recv_cursor(state@.hub, old(self)@->Active_cursor),
            }),
            out.deep_view() == forwarded(recv_receipt(state@.hub, old(self)@->Active_cursor)),
    {
        match self {
            Session::Active { name, sub } => {
                let r = state.hub.recv(sub);
                match r {
                    Receipt::Empty => None,
                    Receipt::Event(m) => {
                        if let Message::Fault(_) = m {
                            None
                        } else {
                            Some(m)
                        }
                    },
                    Receipt::Lagged(n) => Some(Message::Fault(Error::Lost(n))),
                }
            },
            _ => vstd::pervasive::unreached(),
        }
    }
}

/// Self-echo: a session that says a line receives its own `Said` event back
/// through its own subscription — as the last of the receives that drain its
/// backlog — in publish order, provided its backlog has not outgrown the
/// hub's retained window by then.  (A session that lags that far is handed
/// an exact loss report instead: see [`crate::hub::lemma_lag_resume`].)
pub proof fn lemma_say_self_echo(sv: SessionV, st: StateV, t: Seq<char>)
    requires
        sv matches SessionV::Active { name, cursor },
        session_wf(sv, st),
        step_session(sv, st, InboundV::Intent(client::MessageV::Say(t))).1.hub.first_retained()
            <= sv->Active_cursor,
    ensures
        ({
            let c = sv->Active_cursor;
            let h2 = step_session(sv, st, InboundV::Intent(client::MessageV::Say(t))).1.hub;
            let said = st.hub.published();
            crate::hub::drain(h2, c, (said - c + 1) as nat)[said - c] == ReceiptV::Event(
                MessageV::Said(sv->Active_name, t),
            )
        }),
{
    let c = sv->Active_cursor;
    let h2 = step_session(sv, st, InboundV::Intent(client::MessageV::Say(t))).1.hub;
    let said = st.hub.published();
    crate::hub::lemma_self_echo(h2, c, said);
}

/// A `Join` succeeds exactly when nobody holds the name: from any shared
/// state, the claim goes through — registering the name and announcing
/// `Joined` — if and only if the name is free; otherwise the session is
/// answered `Fault(UsernameTaken)`, stays in its handshake, and nothing in
/// the shared state moves.
pub proof fn lemma_join_succeeds_iff_free(st: StateV, name: Seq<char>)
    ensures
        !st.usernames.contains(name) ==> step_session(
            SessionV::AwaitingName,
            st,
            InboundV::Intent(client::MessageV::Join(name)),
        ) == (
            SessionV::Active { name, cursor: st.hub.published() },
            StateV {
                usernames: st.usernames.insert(name),
                hub: HubV {
                    capacity: st.hub.capacity,
                    history: st.hub.history.push(MessageV::Joined(name)),
                },
            },
            None::<MessageV>,
        ),
        st.usernames.contains(name) ==> step_session(
            SessionV::AwaitingName,
            st,
            InboundV::Intent(client::MessageV::Join(name)),
        ) == (
            SessionV::AwaitingName,
            st,
            Some(MessageV::Fault(Error::UsernameTaken)),
        ),
{
}

/// Termination frees the name at once: however an active session ends, its
/// cleanup leaves the username absent from the registry, and a later `Join`
/// for the same name from a fresh session succeeds.
pub proof fn lemma_terminated_name_free(sv: SessionV, st: StateV, name: Seq<char>)
    requires
        sv == (SessionV::Active { name, cursor: sv->Active_cursor }),
    ensures
        close_session(sv, st).0 is Terminated,
        !close_session(sv, st).1.usernames.contains(name),
        step_session(
            SessionV::AwaitingName,
            close_session(sv, st).1,
            InboundV::Intent(client::MessageV::Join(name)),
        ).0 matches SessionV::Active { name: n, .. } && n == name,
{
}

/// At most one of two sessions holds a name.  Session A claims a free name;
/// while A is active a second session B asking for the same name is refused
/// with `Fault(UsernameTaken)` and changes nothing; once A terminates the
/// name is absent from the registry and B's retry succeeds.
pub proof fn lemma_at_most_one_holder(st: StateV, name: Seq<char>)
    requires
        !st.usernames.contains(name),
    ensures
        ({
            let join = InboundV::Intent(client::MessageV::Join(name));
            let a = step_session(SessionV::AwaitingName, st, join);
            let b = step_session(SessionV::AwaitingName, a.1, join);
            let c = close_session(a.0, b.1);
            let d = step_session(SessionV::AwaitingName, c.1, join);
            &&& a.0 == (SessionV::Active { name, cursor: st.hub.published() })
            &&& a.2 is None
            &&& b.0 is AwaitingName
            &&& b.1 == a.1
            &&& b.2 == Some(MessageV::Fault(Error::UsernameTaken))
            &&& !c.1.usernames.contains(name)
            &&& d.0 matches SessionV::Active { name: n, .. } && n == name
        }),
{
}

} // verus!
