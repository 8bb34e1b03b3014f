//! The authentication-retry exchange that sits above a connection: it opens a
//! subscription, answers the relay's challenges with a signed credential, and
//! resubmits the subscription once the credential is accepted.
//!
//! Signing is done outside: on a challenge the machine asks for a credential
//! ([`AuthAction::SignCredential`]) and the caller hands the signed event back
//! through [`AuthRetry::on_credential`].
use vstd::prelude::*;
use crate::message::{
    Command,
    CommandView,
    Event,
    EventView,
    Filter,
    Id,
    RelayMessage,
    RelayMessageView,
    SubscriptionId,
    filters_view,
};

verus! {

/// The number of challenges answered in one exchange before it gives up.
pub const MAX_CHALLENGES: u64 = 8;

/// The reason prefix by which a relay says that a subscription needs
/// authentication.
pub open spec fn auth_required_prefix() -> Seq<char> {
    "auth-required:"@
}

pub open spec fn is_auth_required(reason: Seq<char>) -> bool {
    auth_required_prefix().len() <= reason.len() && reason.subrange(
        0,
        auth_required_prefix().len() as int,
    ) == auth_required_prefix()
}

/// Whether `s` begins with `p`.
pub fn has_prefix(s: &str, p: &str) -> (r: bool)
    ensures
        r == (p@.len() <= s@.len() && s@.subrange(0, p@.len() as int) == p@),
{
    let n = p.unicode_len();
    let m = s.unicode_len();
    if n > m {
        return false;
    }
    let mut i: usize = 0;
    while i < n
        invariant
            n == p@.len(),
            m == s@.len(),
            n <= m,
            i <= n,
            s@.subrange(0, i as int) == p@.subrange(0, i as int),
        decreases n - i,
    {
        if s.get_char(i) != p.get_char(i) {
            assert(s@.subrange(0, n as int)[i as int] != p@[i as int]);
            return false;
        }
        assert(s@.subrange(0, i + 1) =~= s@.subrange(0, i as int).push(s@[i as int]));
        assert(p@.subrange(0, i + 1) =~= p@.subrange(0, i as int).push(p@[i as int]));
        i = i + 1;
    }
    assert(p@.subrange(0, n as int) =~= p@);
    true
}

/// Whether a CLOSED reason says that the subscription needs authentication.
pub fn auth_required(reason: &str) -> (r: bool)
    ensures
        r == is_auth_required(reason@),
{
    has_prefix(reason, "auth-required:")
}

/// Where the exchange stands.
#[derive(Clone, Debug, PartialEq, Eq)]
pub enum AuthState {
    Unauthenticated,
    /// A challenge came; its credential is being signed.
    ChallengeReceived,
    /// The credential with this id was submitted.
    CredentialSent(Id),
    /// The credential with this id was accepted.
    Authenticated(Id),
    /// The credential was rejected.
    Failed,
}

/// The mathematical value of an [`AuthState`].
pub enum AuthStateView {
    Unauthenticated,
    ChallengeReceived,
    CredentialSent(Seq<char>),
    Authenticated(Seq<char>),
    Failed,
}

impl View for AuthState {
    type V = AuthStateView;

    open spec fn view(&self) -> AuthStateView {
        match self {
            AuthState::Unauthenticated => AuthStateView::Unauthenticated,
            AuthState::ChallengeReceived => AuthStateView::ChallengeReceived,
            AuthState::CredentialSent(i) => AuthStateView::CredentialSent(i@),
            AuthState::Authenticated(i) => AuthStateView::Authenticated(i@),
            AuthState::Failed => AuthStateView::Failed,
        }
    }
}

/// How an exchange ended.
#[derive(PartialEq, Eq, Structural, Clone, Copy, Debug)]
pub enum Ending {
    /// The subscription reached its end (EOSE, or CLOSED for another reason).
    Completed,
    /// The relay rejected the credential.
    Rejected,
    /// The relay sent a notice.
    Aborted,
    /// The relay closed the subscription for authentication before any
    /// credential was submitted.
    RelayViolation,
    /// The relay challenged more often than the exchange answers.
    ChallengeLimit,
    /// The credential could not be signed.
    SigningFailed,
}

/// What the exchange asks of its caller.
#[derive(Clone, Debug, PartialEq, Eq)]
pub enum AuthAction {
    /// Put a command in the connection's inbox.
    Submit(Command),
    /// Sign a credential event tagged with this relay address and challenge,
    /// and hand it to [`AuthRetry::on_credential`].
    SignCredential(String, String),
    /// An event of the subscription, for the caller.
    Output(Event),
    /// A message to show the user.
    Report(String),
}

/// The mathematical value of an [`AuthAction`].
pub enum AuthActionView {
    Submit(CommandView),
    SignCredential(Seq<char>, Seq<char>),
    Output(EventView),
    Report(Seq<char>),
}

impl View for AuthAction {
    type V = AuthActionView;

    open spec fn view(&self) -> AuthActionView {
        match self {
            AuthAction::Submit(c) => AuthActionView::Submit(c@),
            AuthAction::SignCredential(r, c) => AuthActionView::SignCredential(r@, c@),
            AuthAction::Output(e) => AuthActionView::Output(e@),
            AuthAction::Report(t) => AuthActionView::Report(t@),
        }
    }
}

pub open spec fn auth_actions_view(acts: Seq<AuthAction>) -> Seq<AuthActionView> {
    acts.map_values(|a: AuthAction| a@)
}

/// One authentication-retry exchange.
pub struct AuthRetry {
    relay: String,
    sub: SubscriptionId,
    filter: Filter,
    state: AuthState,
    challenges: u64,
    resubmissions: u64,
    end: Option<Ending>,
}

/// The mathematical value of an [`AuthRetry`].
pub struct AuthView {
    pub relay: Seq<char>,
    pub sub: Seq<char>,
    pub filter: Seq<char>,
    pub state: AuthStateView,
    /// Challenges answered so far.
    pub challenges: nat,
    /// Subscriptions resubmitted after an accepted credential.
    pub resubmissions: nat,
    pub end: Option<Ending>,
}

impl View for AuthRetry {
    type V = AuthView;

    closed spec fn view(&self) -> AuthView {
        AuthView {
            relay: self.relay@,
            sub: self.sub@,
            filter: self.filter@,
            state: self.state@,
            challenges: self.challenges as nat,
            resubmissions: self.resubmissions as nat,
            end: self.end,
        }
    }
}

/// At most one resubmission per challenge, none yet for a challenge that
/// waits for its credential or its verdict, and no more challenges than the
/// limit.
pub open spec fn auth_wf(a: AuthView) -> bool {
    &&& a.resubmissions <= a.challenges <= MAX_CHALLENGES
    &&& (a.state is ChallengeReceived || a.state is CredentialSent) ==> a.resubmissions
        < a.challenges
}

/// The subscription request of the exchange.
pub open spec fn fetch_command(a: AuthView) -> CommandView {
    CommandView::FetchEvents(a.sub, seq![a.filter])
}

/// The exchange once it has ended for `why`: it disconnects.
pub open spec fn ended(a: AuthView, why: Ending) -> AuthView {
    AuthView { end: Some(why), ..a }
}

pub open spec fn disconnect() -> AuthActionView {
    AuthActionView::Submit(CommandView::Exit)
}

/// The report given when the relay closes for authentication before any
/// credential was submitted.
pub open spec fn violation_report() -> Seq<char> {
    "relay closed the subscription for authentication without a challenge"@
}

/// The report given when the relay keeps challenging.
pub open spec fn limit_report() -> Seq<char> {
    "relay challenged too many times"@
}

/// The exchange's answer to one relay message. An ended exchange does nothing.
pub open spec fn on_message_spec(a: AuthView, m: RelayMessageView) -> (
    AuthView,
    Seq<AuthActionView>,
) {
    if a.end is Some {
        (a, Seq::empty())
    } else {
        match m {
            RelayMessageView::Auth(ch) => if a.challenges >= MAX_CHALLENGES {
                (
                    AuthView { end: Some(Ending::ChallengeLimit), ..a },
                    seq![AuthActionView::Report(limit_report()), disconnect()],
                )
            } else {
                (
                    AuthView {
                        state: AuthStateView::ChallengeReceived,
                        challenges: a.challenges + 1,
                        ..a
                    },
                    seq![AuthActionView::SignCredential(a.relay, ch)],
                )
            },
            RelayMessageView::Event(s, e) => if s == a.sub {
                (a, seq![AuthActionView::Output(e)])
            } else {
                (a, Seq::empty())
            },
            RelayMessageView::Closed(s, reason) => if s != a.sub {
                (a, Seq::empty())
            } else if !is_auth_required(reason) {
                (ended(a, Ending::Completed), seq![disconnect()])
            } else {
                match a.state {
                    AuthStateView::CredentialSent(_) => (a, Seq::empty()),
                    AuthStateView::Authenticated(_) => (
                        ended(a, Ending::Completed),
                        seq![disconnect()],
                    ),
                    _ => (
                        ended(a, Ending::RelayViolation),
                        seq![AuthActionView::Report(violation_report()), disconnect()],
                    ),
                }
            },
            RelayMessageView::Notice(_) => (ended(a, Ending::Aborted), seq![disconnect()]),
            RelayMessageView::Eose(s) => if s == a.sub {
                (ended(a, Ending::Completed), seq![disconnect()])
            } else {
                (a, Seq::empty())
            },
            RelayMessageView::Ack(id, accepted, reason) => match a.state {
                AuthStateView::CredentialSent(cid) => if cid != id {
                    (a, Seq::empty())
                } else if accepted {
                    (
                        AuthView {
                            state: AuthStateView::Authenticated(cid),
                            resubmissions: a.resubmissions + 1,
                            ..a
                        },
                        seq![AuthActionView::Submit(fetch_command(a))],
                    )
                } else {
                    (
                        AuthView {
                            state: AuthStateView::Failed,
                            end: Some(Ending::Rejected),
                            ..a
                        },
                        seq![AuthActionView::Report(reason), disconnect()],
                    )
                },
                _ => (a, Seq::empty()),
            },
        }
    }
}

/// The exchange's answer to a signed credential: while a challenge waits for
/// one, it is submitted and its id recorded; otherwise it is ignored.
pub open spec fn on_credential_spec(a: AuthView, e: EventView) -> (
    AuthView,
    Seq<AuthActionView>,
) {
    if a.end is None && a.state is ChallengeReceived {
        (
            AuthView { state: AuthStateView::CredentialSent(e.id), ..a },
            seq![AuthActionView::Submit(CommandView::Auth(e))],
        )
    } else {
        (a, Seq::empty())
    }
}

impl AuthRetry {
    /// An exchange for one subscription of one filter against one relay.
    pub fn new(relay_url: &str, sub: SubscriptionId, filter: Filter) -> (r: AuthRetry)
        ensures
            r@.relay == relay_url@,
            r@.sub == sub@,
            r@.filter == filter@,
            r@.state is Unauthenticated,
            r@.challenges == 0,
            r@.resubmissions == 0,
            r@.end is None,
            auth_wf(r@),
    {
        AuthRetry {
            relay: String::from_str(relay_url),
            sub,
            filter,
            state: AuthState::Unauthenticated,
            challenges: 0,
            resubmissions: 0,
            end: None,
        }
    }

    pub fn ending(&self) -> (r: Option<Ending>)
        ensures
            r == self@.end,
    {
        self.end
    }

    /// The subscription request that opens the exchange.
    pub fn start(&self) -> (r: Command)
        ensures
            r@ == fetch_command(self@),
    {
        self.fetch()
    }

    fn fetch(&self) -> (r: Command)
        ensures
            r@ == fetch_command(self@),
    {
        let mut filters: Vec<Filter> = Vec::new();
        filters.push(self.filter.duplicate());
        assert(filters_view(filters@) =~= seq![self.filter@]);
        Command::FetchEvents(self.sub.duplicate(), filters)
    }

    fn finish(&mut self, why: Ending)
        ensures
            final(self)@ == ended(old(self)@, why),
    {
        self.end = Some(why);
    }

    /// Answers one relay message.
    pub fn on_message(&mut self, m: RelayMessage) -> (r: Vec<AuthAction>)
        requires
            auth_wf(old(self)@),
        ensures
            auth_wf(final(self)@),
            (final(self)@, auth_actions_view(r@)) == on_message_spec(old(self)@, m@),
    {
        let ghost m_view = m@;
        let mut out: Vec<AuthAction> = Vec::new();
        if self.end.is_some() {
            assert(auth_actions_view(out@) =~= Seq::empty());
            return out;
        }
        match m {
            RelayMessage::Auth(ch) => {
                if self.challenges >= MAX_CHALLENGES {
                    self.end = Some(Ending::ChallengeLimit);
                    out.push(
                        AuthAction::Report(String::from_str("relay challenged too many times")),
                    );
                    out.push(AuthAction::Submit(Command::Exit));
                } else {
                    self.state = AuthState::ChallengeReceived;
                    self.challenges = self.challenges + 1;
                    out.push(AuthAction::SignCredential(self.relay.clone(), ch));
                }
            },
            RelayMessage::Event(s, e) => {
                if s.same(&self.sub) {
                    out.push(AuthAction::Output(e));
                }
            },
            RelayMessage::Closed(s, reason) => {
                if s.same(&self.sub) {
                    if !auth_required(reason.as_str()) {
                        self.finish(Ending::Completed);
                        out.push(AuthAction::Submit(Command::Exit));
                    } else {
                        match self.state {
                            AuthState::CredentialSent(_) => {},
                            AuthState::Authenticated(_) => {
                                self.finish(Ending::Completed);
                                out.push(AuthAction::Submit(Command::Exit));
                            },
                            _ => {
                                self.finish(Ending::RelayViolation);
                                out.push(
                                    AuthAction::Report(
                                        String::from_str(
                                            "relay closed the subscription for authentication without a challenge",
                                        ),
                                    ),
                                );
                                out.push(AuthAction::Submit(Command::Exit));
                            },
                        }
                    }
                }
            },
            RelayMessage::Notice(_) => {
                self.finish(Ending::Aborted);
                out.push(AuthAction::Submit(Command::Exit));
            },
            RelayMessage::Eose(s) => {
                if s.same(&self.sub) {
                    self.finish(Ending::Completed);
                    out.push(AuthAction::Submit(Command::Exit));
                }
            },
            RelayMessage::Ack(id, accepted, reason) => {
                let matched = match &self.state {
                    AuthState::CredentialSent(cid) => cid.same(&id),
                    _ => false,
                };
                if matched {
                    if accepted {
                        let cmd = self.fetch();
                        self.state = AuthState::Authenticated(id);
                        self.resubmissions = self.resubmissions + 1;
                        out.push(AuthAction::Submit(cmd));
                    } else {
                        self.state = AuthState::Failed;
                        self.end = Some(Ending::Rejected);
                        out.push(AuthAction::Report(reason));
                        out.push(AuthAction::Submit(Command::Exit));
                    }
                }
            },
        }
        assert(auth_actions_view(out@) =~= on_message_spec(old(self)@, m_view).1);
        out
    }

    /// Takes the signed credential asked for by the last challenge.
    pub fn on_credential(&mut self, e: Event) -> (r: Vec<AuthAction>)
        requires
            auth_wf(old(self)@),
        ensures
            auth_wf(final(self)@),
            (final(self)@, auth_actions_view(r@)) == on_credential_spec(old(self)@, e@),
    {
        let ghost e_view = e@;
        let mut out: Vec<AuthAction> = Vec::new();
        let waiting = match self.state {
            AuthState::ChallengeReceived => true,
            _ => false,
        };
        if self.end.is_none() && waiting {
            self.state = AuthState::CredentialSent(e.id.duplicate());
            out.push(AuthAction::Submit(Command::Auth(e)));
        }
        assert(auth_actions_view(out@) =~= on_credential_spec(old(self)@, e_view).1);
        out
    }

    /// The credential could not be signed: a running exchange ends and
    /// disconnects.
    pub fn on_signing_failed(&mut self) -> (r: Vec<AuthAction>)
        ensures
            old(self)@.end is None ==> final(self)@ == ended(old(self)@, Ending::SigningFailed)
                && auth_actions_view(r@) == seq![disconnect()],
            old(self)@.end is Some ==> final(self)@ == old(self)@ && r@.len() == 0,
    {
        let mut out: Vec<AuthAction> = Vec::new();
        if self.end.is_none() {
            self.finish(Ending::SigningFailed);
            out.push(AuthAction::Submit(Command::Exit));
            assert(auth_actions_view(out@) =~= seq![disconnect()]);
        }
        out
    }
}

/// Every answer keeps the exchange well formed: in particular the
/// subscription is resubmitted at most once per challenge.
pub proof fn lemma_resubmissions_bounded(a: AuthView, m: RelayMessageView, e: EventView)
    requires
        auth_wf(a),
    ensures
        auth_wf(on_message_spec(a, m).0),
        auth_wf(on_credential_spec(a, e).0),
{
}

/// A challenge answered by a credential that the relay accepts leads to
/// exactly one resubmission of the subscription request, same id and same
/// filter; a repeated acceptance of that credential resubmits nothing.
pub proof fn lemma_resubmit_once(
    a: AuthView,
    challenge: Seq<char>,
    credential: EventView,
    reason: Seq<char>,
    again: Seq<char>,
)
    requires
        auth_wf(a),
        a.end is None,
        a.challenges < MAX_CHALLENGES,
    ensures
        ({
            let (a1, x1) = on_message_spec(a, RelayMessageView::Auth(challenge));
            let (a2, x2) = on_credential_spec(a1, credential);
            let (a3, x3) = on_message_spec(
                a2,
                RelayMessageView::Ack(credential.id, true, reason),
            );
            let (a4, x4) = on_message_spec(a3, RelayMessageView::Ack(credential.id, true, again));
            &&& x1 == seq![AuthActionView::SignCredential(a.relay, challenge)]
            &&& x2 == seq![AuthActionView::Submit(CommandView::Auth(credential))]
            &&& x3 == seq![
                AuthActionView::Submit(CommandView::FetchEvents(a.sub, seq![a.filter])),
            ]
            &&& a3.state == AuthStateView::Authenticated(credential.id)
            &&& a3.resubmissions == a.resubmissions + 1
            &&& a3.end is None
            &&& x4 == Seq::<AuthActionView>::empty()
            &&& a4 == a3
        }),
{
}

/// A credential that the relay rejects ends the exchange: the reason is
/// reported and one disconnect issued, with no resubmission; after that no
/// message or credential produces any action.
pub proof fn lemma_rejection(
    a: AuthView,
    id: Seq<char>,
    reason: Seq<char>,
    later: RelayMessageView,
    late_credential: EventView,
)
    requires
        a.end is None,
        a.state == AuthStateView::CredentialSent(id),
    ensures
        ({
            let (a1, x1) = on_message_spec(a, RelayMessageView::Ack(id, false, reason));
            &&& x1 == seq![AuthActionView::Report(reason), disconnect()]
            &&& a1.state is Failed
            &&& a1.end == Some(Ending::Rejected)
            &&& a1.resubmissions == a.resubmissions
            &&& on_message_spec(a1, later) == (a1, Seq::<AuthActionView>::empty())
            &&& on_credential_spec(a1, late_credential) == (a1, Seq::<AuthActionView>::empty())
        }),
{
}

} // verus!
