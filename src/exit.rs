//! The caller's stop condition: a set of message patterns, any of which ends
//! the listen loop once a matching message has been delivered.
use vstd::prelude::*;
use crate::message::{Id, RelayMessage, RelayMessageView, SubscriptionId};

verus! {

/// One pattern of a stop condition.
#[derive(Clone, Debug, PartialEq, Eq)]
pub enum ExitPattern {
    Auth,
    Closed(SubscriptionId),
    Eose(SubscriptionId),
    Event(SubscriptionId),
    Notice,
    Ack(Id, bool),
}

/// The mathematical value of an [`ExitPattern`].
pub enum PatternView {
    Auth,
    Closed(Seq<char>),
    Eose(Seq<char>),
    Event(Seq<char>),
    Notice,
    Ack(Seq<char>, bool),
}

impl View for ExitPattern {
    type V = PatternView;

    open spec fn view(&self) -> PatternView {
        match self {
            ExitPattern::Auth => PatternView::Auth,
            ExitPattern::Closed(s) => PatternView::Closed(s@),
            ExitPattern::Eose(s) => PatternView::Eose(s@),
            ExitPattern::Event(s) => PatternView::Event(s@),
            ExitPattern::Notice => PatternView::Notice,
            ExitPattern::Ack(i, b) => PatternView::Ack(i@, *b),
        }
    }
}

/// A message matches a pattern when it is of the pattern's kind and carries
/// the same subscription id (or event id and verdict); `Auth` and `Notice`
/// match whatever they carry.
pub open spec fn pattern_matches(p: PatternView, m: RelayMessageView) -> bool {
    match (p, m) {
        (PatternView::Auth, RelayMessageView::Auth(_)) => true,
        (PatternView::Closed(s), RelayMessageView::Closed(t, _)) => s == t,
        (PatternView::Eose(s), RelayMessageView::Eose(t)) => s == t,
        (PatternView::Event(s), RelayMessageView::Event(t, _)) => s == t,
        (PatternView::Notice, RelayMessageView::Notice(_)) => true,
        (PatternView::Ack(i, b), RelayMessageView::Ack(j, c, _)) => i == j && b == c,
        _ => false,
    }
}

/// A message ends the loop when it matches some pattern of the set.
pub open spec fn exit_matches(ps: Seq<PatternView>, m: RelayMessageView) -> bool {
    exists|i: int| 0 <= i < ps.len() && #[trigger] pattern_matches(ps[i], m)
}

impl ExitPattern {
    pub fn matches(&self, m: &RelayMessage) -> (r: bool)
        ensures
            r == pattern_matches(self@, m@),
    {
        match (self, m) {
            (ExitPattern::Auth, RelayMessage::Auth(_)) => true,
            (ExitPattern::Closed(s), RelayMessage::Closed(t, _)) => s.same(t),
            (ExitPattern::Eose(s), RelayMessage::Eose(t)) => s.same(t),
            (ExitPattern::Event(s), RelayMessage::Event(t, _)) => s.same(t),
            (ExitPattern::Notice, RelayMessage::Notice(_)) => true,
            (ExitPattern::Ack(i, b), RelayMessage::Ack(j, c, _)) => i.same(j) && *b == *c,
            _ => false,
        }
    }
}

/// A set of patterns, fixed for the lifetime of one connection.
#[derive(Clone, Debug, PartialEq, Eq)]
pub struct ExitPredicate {
    pub patterns: Vec<ExitPattern>,
}

impl View for ExitPredicate {
    type V = Seq<PatternView>;

    open spec fn view(&self) -> Seq<PatternView> {
        self.patterns@.map_values(|p: ExitPattern| p@)
    }
}

impl ExitPredicate {
    /// The empty set: no message ends the loop.
    pub fn new() -> (r: ExitPredicate)
        ensures
            r@ == Seq::<PatternView>::empty(),
    {
        ExitPredicate { patterns: Vec::new() }
    }

    pub fn add(&mut self, p: ExitPattern)
        ensures
            final(self)@ == old(self)@.push(p@),
    {
        let ghost before = self@;
        self.patterns.push(p);
        assert(self@ =~= before.push(p@));
    }

    /// Whether a message matches a member of the set.
    pub fn matches(&self, m: &RelayMessage) -> (r: bool)
        ensures
            r == exit_matches(self@, m@),
    {
        let mut i: usize = 0;
        while i < self.patterns.len()
            invariant
                i <= self.patterns.len(),
                forall|k: int| 0 <= k < i ==> !pattern_matches(#[trigger] self@[k], m@),
            decreases self.patterns.len() - i,
        {
            if self.patterns[i].matches(m) {
                assert(pattern_matches(self@[i as int], m@));
                return true;
            }
            i = i + 1;
        }
        false
    }
}

} // verus!
