use vstd::prelude::*;

use crate::error::Error;
use crate::model::ValidatorModel;
use crate::session::{Event, EventModel, PaymentSession, SessionModel};

verus! {

/// Some session in `s` is stored under `memo`.
pub open spec fn holds_memo(s: Seq<PaymentSession>, memo: Seq<char>) -> bool {
    exists|i: int| 0 <= i < s.len() && s[i].memo@ == memo
}

/// No two sessions in `s` share a memo.
pub open spec fn memos_unique(s: Seq<PaymentSession>) -> bool {
    forall|i: int, j: int|
        0 <= i < s.len() && 0 <= j < s.len() && s[i].memo@ == s[j].memo@ ==> i == j
}

/// The sessions of `s` as a map from memo to session value.
pub open spec fn registry(s: Seq<PaymentSession>) -> Map<Seq<char>, SessionModel> {
    Map::new(
        |k: Seq<char>| holds_memo(s, k),
        |k: Seq<char>| s[choose|i: int| 0 <= i < s.len() && s[i].memo@ == k]@,
    )
}

/// The backend identity as text.
pub open spec fn backend_view(b: Option<String>) -> Option<Seq<char>> {
    match b {
        Some(s) => Some(s@),
        None => None,
    }
}

/// The notifications of `e` as values.
pub open spec fn event_log(e: Seq<Event>) -> Seq<EventModel> {
    e.map_values(|x: Event| x@)
}

proof fn lemma_registry_at(s: Seq<PaymentSession>, i: int)
    requires
        memos_unique(s),
        0 <= i < s.len(),
    ensures
        registry(s).contains_key(s[i].memo@),
        registry(s)[s[i].memo@] == s[i]@,
{
    let k = s[i].memo@;
    assert(holds_memo(s, k));
    let j = choose|j: int| 0 <= j < s.len() && s[j].memo@ == k;
    assert(j == i);
}

proof fn lemma_registry_update(s: Seq<PaymentSession>, i: int, x: PaymentSession)
    requires
        memos_unique(s),
        0 <= i < s.len(),
        s[i].memo@ == x.memo@,
    ensures
        memos_unique(s.update(i, x)),
        registry(s.update(i, x)) == registry(s).insert(x.memo@, x@),
{
    let t = s.update(i, x);
    assert(memos_unique(t));
    lemma_registry_at(t, i);
    assert forall|k: Seq<char>| k != x.memo@ implies (holds_memo(t, k) == holds_memo(s, k)) && (
    holds_memo(s, k) ==> registry(t)[k] == registry(s)[k]) by {
        if holds_memo(s, k) {
            let j = choose|j: int| 0 <= j < s.len() && s[j].memo@ == k;
            assert(t[j] == s[j]);
            lemma_registry_at(s, j);
            lemma_registry_at(t, j);
        }
        if holds_memo(t, k) {
            let j = choose|j: int| 0 <= j < t.len() && t[j].memo@ == k;
            assert(t[j] == s[j]);
        }
    }
    assert(registry(t) =~= registry(s).insert(x.memo@, x@));
}

proof fn lemma_registry_push(s: Seq<PaymentSession>, x: PaymentSession)
    requires
        memos_unique(s),
        !holds_memo(s, x.memo@),
    ensures
        memos_unique(s.push(x)),
        registry(s.push(x)) == registry(s).insert(x.memo@, x@),
{
    let t = s.push(x);
    assert forall|i: int, j: int|
        0 <= i < t.len() && 0 <= j < t.len() && t[i].memo@ == t[j].memo@ implies i == j by {
        if i < s.len() && j < s.len() {
            assert(t[i] == s[i] && t[j] == s[j]);
        } else if i < s.len() {
            assert(t[i] == s[i]);
        } else if j < s.len() {
            assert(t[j] == s[j]);
        }
    }
    lemma_registry_at(t, s.len() as int);
    assert forall|k: Seq<char>| k != x.memo@ implies (holds_memo(t, k) == holds_memo(s, k)) && (
    holds_memo(s, k) ==> registry(t)[k] == registry(s)[k]) by {
        if holds_memo(s, k) {
            let j = choose|j: int| 0 <= j < s.len() && s[j].memo@ == k;
            assert(t[j] == s[j]);
            lemma_registry_at(s, j);
            lemma_registry_at(t, j);
        }
        if holds_memo(t, k) {
            let j = choose|j: int| 0 <= j < t.len() && t[j].memo@ == k;
            assert(t[j] == s[j]);
        }
    }
    assert(registry(t) =~= registry(s).insert(x.memo@, x@));
}

proof fn lemma_event_log_push(e: Seq<Event>, x: Event)
    ensures
        event_log(e.push(x)) == event_log(e).push(x@),
{
    assert(event_log(e.push(x)) =~= event_log(e).push(x@));
}

/// The validator: a backend identity set once, a registry of payment
/// sessions keyed by memo, and an append-only log of notifications.
pub struct ChainPeValidator {
    backend: Option<String>,
    sessions: Vec<PaymentSession>,
    events: Vec<Event>,
}

impl View for ChainPeValidator {
    type V = ValidatorModel;

    closed spec fn view(&self) -> ValidatorModel {
        ValidatorModel {
            backend: backend_view(self.backend),
            sessions: registry(self.sessions@),
            events: event_log(self.events@),
        }
    }
}

impl ChainPeValidator {
    /// The registry holds at most one session per memo.
    pub closed spec fn wf(&self) -> bool {
        memos_unique(self.sessions@)
    }

    /// A validator with no backend, no sessions and no notifications.
    pub fn new() -> (r: ChainPeValidator)
        ensures
            r.wf(),
            r@ == ValidatorModel::initial(),
    {
        let r = ChainPeValidator { backend: None, sessions: Vec::new(), events: Vec::new() };
        assert(r@.sessions =~= Map::empty());
        assert(r@.events =~= Seq::empty());
        r
    }

    /// Position of the session stored under `memo`, if any.
    fn find(&self, memo: &String) -> (r: Option<usize>)
        requires
            self.wf(),
        ensures
            match r {
                Some(i) => i < self.sessions@.len() && self.sessions@[i as int].memo@ == memo@,
                None => !holds_memo(self.sessions@, memo@),
            },
    {
        let mut i: usize = 0;
        while i < self.sessions.len()
            invariant
                i <= self.sessions@.len(),
                forall|j: int| 0 <= j < i ==> self.sessions@[j].memo@ != memo@,
            decreases self.sessions@.len() - i,
        {
            if self.sessions[i].memo == *memo {
                return Some(i);
            }
            i = i + 1;
        }
        None
    }

    /// Adjudicates an observed payment of `amount` against the session under
    /// `memo`: on success the session becomes inactive and `Ok(true)` is
    /// returned; a consumed session or a short amount is reported with a
    /// notification and leaves the registry unchanged.
    pub fn validate_payment(&mut self, caller: &String, memo: String, amount: i128) -> (r: Result<
        bool,
        Error,
    >)
        requires
            old(self).wf(),
        ensures
            final(self).wf(),
            (final(self)@, r) == old(self)@.validate(caller@, memo@, amount),
    {
        if !self.is_backend(caller) {
            return Err(Error::Unauthorized);
        }
        let found = self.find(&memo);
        let i = match found {
            Some(i) => i,
            None => {
                assert(!self@.sessions.contains_key(memo@));
                return Err(Error::SessionNotFound);
            },
        };
        proof {
            lemma_registry_at(self.sessions@, i as int);
        }
        let ghost pre = self.events@;
        if !self.sessions[i].is_active {
            let e = Event::Expired { memo };
            proof {
                lemma_event_log_push(pre, e);
            }
            self.events.push(e);
            return Err(Error::SessionExpired);
        }
        let expected = self.sessions[i].amount;
        if amount < expected {
            let e = Event::Insufficient { memo, amount, expected };
            proof {
                lemma_event_log_push(pre, e);
            }
            self.events.push(e);
            return Err(Error::InsufficientAmount);
        }
        let mut updated = self.sessions[i].duplicate();
        updated.is_active = false;
        let merchant = updated.merchant.clone();
        proof {
            lemma_registry_update(self.sessions@, i as int, updated);
        }
        self.sessions.set(i, updated);
        let e = Event::Validated { memo, merchant, amount };
        proof {
            lemma_event_log_push(pre, e);
        }
        self.events.push(e);
        Ok(true)
    }

    /// Stores a fresh active session under `memo`, created at `now`,
    /// replacing any earlier session under that memo. Only the backend may
    /// register.
    pub fn register_session(
        &mut self,
        caller: &String,
        memo: String,
        merchant: String,
        amount: i128,
        now: u64,
    ) -> (r: Result<(), Error>)
        requires
            old(self).wf(),
        ensures
            final(self).wf(),
            (final(self)@, r) == old(self)@.register(caller@, memo@, merchant@, amount, now),
    {
        if !self.is_backend(caller) {
            return Err(Error::Unauthorized);
        }
        let session = PaymentSession {
            memo: memo.clone(),
            merchant,
            amount,
            is_active: true,
            created_at: now,
        };
        match self.find(&memo) {
            Some(i) => {
                proof {
                    lemma_registry_update(self.sessions@, i as int, session);
                }
                self.sessions.set(i, session);
            },
            None => {
                proof {
                    lemma_registry_push(self.sessions@, session);
                }
                self.sessions.push(session);
            },
        }
        let e = Event::Registered { memo };
        proof {
            lemma_event_log_push(self.events@, e);
        }
        self.events.push(e);
        Ok(())
    }

    /// Marks the session under `memo` inactive, whatever its status. Only
    /// the backend may deactivate.
    pub fn deactivate_session(&mut self, caller: &String, memo: String) -> (r: Result<(), Error>)
        requires
            old(self).wf(),
        ensures
            final(self).wf(),
            (final(self)@, r) == old(self)@.deactivate(caller@, memo@),
    {
        if !self.is_backend(caller) {
            return Err(Error::Unauthorized);
        }
        let i = match self.find(&memo) {
            Some(i) => i,
            None => {
                assert(!self@.sessions.contains_key(memo@));
                return Err(Error::SessionNotFound);
            },
        };
        proof {
            lemma_registry_at(self.sessions@, i as int);
        }
        let mut updated = self.sessions[i].duplicate();
        updated.is_active = false;
        proof {
            lemma_registry_update(self.sessions@, i as int, updated);
        }
        self.sessions.set(i, updated);
        let e = Event::Deactivated { memo };
        proof {
            lemma_event_log_push(self.events@, e);
        }
        self.events.push(e);
        Ok(())
    }

    /// Stores `backend_address` as the backend identity; fails with
    /// `AlreadyInitialized`, changing nothing, once one is stored.
    pub fn initialize(&mut self, backend_address: String) -> (r: Result<(), Error>)
        requires
            old(self).wf(),
        ensures
            final(self).wf(),
            (final(self)@, r) == old(self)@.initialize(backend_address@),
    {
        if self.backend.is_some() {
            return Err(Error::AlreadyInitialized);
        }
        self.backend = Some(backend_address);
        Ok(())
    }

    /// The session stored under `memo`, if any. Anyone may read.
    pub fn get_session(&self, memo: &String) -> (r: Option<PaymentSession>)
        requires
            self.wf(),
        ensures
            match r {
                Some(s) => self@.sessions.contains_key(memo@) && s@ == self@.sessions[memo@],
                None => !self@.sessions.contains_key(memo@),
            },
    {
        match self.find(memo) {
            Some(i) => {
                proof {
                    lemma_registry_at(self.sessions@, i as int);
                }
                Some(self.sessions[i].duplicate())
            },
            None => None,
        }
    }

    /// A validator rebuilt from stored parts: the backend identity, if one is
    /// stored, and at most one session, with an empty notification log.
    pub fn restore(backend: Option<String>, session: Option<PaymentSession>) -> (r: ChainPeValidator)
        ensures
            r.wf(),
            r@.backend == backend_view(backend),
            r@.events == Seq::<EventModel>::empty(),
            match session {
                Some(s) => r@.sessions == Map::<Seq<char>, SessionModel>::empty().insert(s.memo@, s@),
                None => r@.sessions == Map::<Seq<char>, SessionModel>::empty(),
            },
    {
        let mut sessions: Vec<PaymentSession> = Vec::new();
        proof {
            assert(registry(sessions@) =~= Map::empty());
        }
        match session {
            Some(s) => {
                proof {
                    lemma_registry_push(sessions@, s);
                }
                sessions.push(s);
            },
            None => {},
        }
        let r = ChainPeValidator { backend, sessions, events: Vec::new() };
        assert(r@.events =~= Seq::empty());
        r
    }

    /// The stored backend identity, if any.
    pub fn backend(&self) -> (r: Option<String>)
        ensures
            backend_view(r) == self@.backend,
    {
        match &self.backend {
            Some(b) => Some(b.clone()),
            None => None,
        }
    }

    /// The notifications emitted so far, oldest first.
    pub fn events(&self) -> (r: &Vec<Event>)
        ensures
            event_log(r@) == self@.events,
    {
        &self.events
    }

    /// Whether `caller` has authenticated as the stored backend.
    fn is_backend(&self, caller: &String) -> (r: bool)
        ensures
            r == self@.authorized(caller@),
    {
        match &self.backend {
            Some(b) => *b == *caller,
            None => false,
        }
    }
}

} // verus!
