use vstd::prelude::*;

use crate::error::Error;
use crate::model::ValidatorModel;

verus! {

/// One call into the validator, as values.
pub enum Op {
    Initialize { backend: Seq<char> },
    Register { caller: Seq<char>, memo: Seq<char>, merchant: Seq<char>, amount: i128, now: u64 },
    Validate { caller: Seq<char>, memo: Seq<char>, amount: i128 },
    Deactivate { caller: Seq<char>, memo: Seq<char> },
}

impl ValidatorModel {
    /// The state after one call.
    pub open spec fn apply(self, op: Op) -> ValidatorModel {
        match op {
            Op::Initialize { backend } => self.initialize(backend).0,
            Op::Register { caller, memo, merchant, amount, now } => self.register(
                caller,
                memo,
                merchant,
                amount,
                now,
            ).0,
            Op::Validate { caller, memo, amount } => self.validate(caller, memo, amount).0,
            Op::Deactivate { caller, memo } => self.deactivate(caller, memo).0,
        }
    }

    /// The state after a sequence of calls, in order.
    pub open spec fn run(self, ops: Seq<Op>) -> ValidatorModel
        decreases ops.len(),
    {
        if ops.len() == 0 {
            self
        } else {
            self.apply(ops[0]).run(ops.subrange(1, ops.len() as int))
        }
    }
}

/// `op` is a registration under `memo`.
pub open spec fn registers(op: Op, memo: Seq<char>) -> bool {
    match op {
        Op::Register { memo: m, .. } => m == memo,
        _ => false,
    }
}

proof fn lemma_absent_stays_absent(v: ValidatorModel, ops: Seq<Op>, memo: Seq<char>)
    requires
        !v.sessions.contains_key(memo),
        forall|i: int| 0 <= i < ops.len() ==> !registers(#[trigger] ops[i], memo),
    ensures
        !v.run(ops).sessions.contains_key(memo),
    decreases ops.len(),
{
    if ops.len() > 0 {
        assert(!registers(ops[0], memo));
        let rest = ops.subrange(1, ops.len() as int);
        assert forall|i: int| 0 <= i < rest.len() implies !registers(#[trigger] rest[i], memo) by {
            assert(rest[i] == ops[i + 1]);
        }
        lemma_absent_stays_absent(v.apply(ops[0]), rest, memo);
    }
}

/// A memo has no session, and so fetching it yields nothing, until some call
/// registers it: from a fresh validator, through any calls none of which is
/// a registration under `memo`.
pub proof fn law_fetch_before_register(ops: Seq<Op>, memo: Seq<char>)
    requires
        forall|i: int| 0 <= i < ops.len() ==> !registers(#[trigger] ops[i], memo),
    ensures
        !ValidatorModel::initial().run(ops).sessions.contains_key(memo),
{
    lemma_absent_stays_absent(ValidatorModel::initial(), ops, memo);
}

/// A registration by the backend succeeds, and fetching the memo then yields
/// an active session with the given merchant and amount.
pub proof fn law_register_then_fetch(
    v: ValidatorModel,
    caller: Seq<char>,
    memo: Seq<char>,
    merchant: Seq<char>,
    amount: i128,
    now: u64,
)
    requires
        v.authorized(caller),
    ensures
        ({
            let (w, r) = v.register(caller, memo, merchant, amount, now);
            &&& r == Ok::<(), Error>(())
            &&& w.sessions.contains_key(memo)
            &&& w.sessions[memo].is_active
            &&& w.sessions[memo].merchant == merchant
            &&& w.sessions[memo].amount == amount
        }),
{
}

/// On a freshly registered session, a validation with at least the recorded
/// amount succeeds, and any later validation of that memo fails with
/// `SessionExpired`.
pub proof fn law_validate_once(
    v: ValidatorModel,
    caller: Seq<char>,
    memo: Seq<char>,
    merchant: Seq<char>,
    amount: i128,
    now: u64,
    paid: i128,
    paid_again: i128,
)
    requires
        v.authorized(caller),
        paid >= amount,
    ensures
        ({
            let w = v.register(caller, memo, merchant, amount, now).0;
            let (x, r1) = w.validate(caller, memo, paid);
            let (y, r2) = x.validate(caller, memo, paid_again);
            &&& r1 == Ok::<bool, Error>(true)
            &&& r2 == Err::<bool, Error>(Error::SessionExpired)
            &&& y.sessions == x.sessions
        }),
{
}

/// A validation below the recorded amount fails with `InsufficientAmount`
/// and leaves the session as it was, so a later validation with a
/// sufficient amount succeeds.
pub proof fn law_insufficient_then_sufficient(
    v: ValidatorModel,
    caller: Seq<char>,
    memo: Seq<char>,
    low: i128,
    high: i128,
)
    requires
        v.authorized(caller),
        v.sessions.contains_key(memo),
        v.sessions[memo].is_active,
        low < v.sessions[memo].amount,
        high >= v.sessions[memo].amount,
    ensures
        ({
            let (w, r1) = v.validate(caller, memo, low);
            let (x, r2) = w.validate(caller, memo, high);
            &&& r1 == Err::<bool, Error>(Error::InsufficientAmount)
            &&& w.sessions == v.sessions
            &&& w.sessions[memo].is_active
            &&& r2 == Ok::<bool, Error>(true)
        }),
{
}

proof fn lemma_consumed_stays_consumed(v: ValidatorModel, ops: Seq<Op>, memo: Seq<char>)
    requires
        v.backend is Some,
        v.sessions.contains_key(memo),
        !v.sessions[memo].is_active,
        forall|i: int| 0 <= i < ops.len() ==> !registers(#[trigger] ops[i], memo),
    ensures
        v.run(ops).backend == v.backend,
        v.run(ops).sessions.contains_key(memo),
        !v.run(ops).sessions[memo].is_active,
    decreases ops.len(),
{
    if ops.len() > 0 {
        assert(!registers(ops[0], memo));
        let rest = ops.subrange(1, ops.len() as int);
        assert forall|i: int| 0 <= i < rest.len() implies !registers(#[trigger] rest[i], memo) by {
            assert(rest[i] == ops[i + 1]);
        }
        lemma_consumed_stays_consumed(v.apply(ops[0]), rest, memo);
    }
}

/// Once the backend deactivates a session, every later validation of that
/// memo by the backend fails with `SessionExpired`, whatever the amount and
/// whatever calls come between, as long as none registers the memo anew.
pub proof fn law_deactivated_stays_expired(
    v: ValidatorModel,
    caller: Seq<char>,
    memo: Seq<char>,
    between: Seq<Op>,
    amount: i128,
)
    requires
        v.authorized(caller),
        v.sessions.contains_key(memo),
        forall|i: int| 0 <= i < between.len() ==> !registers(#[trigger] between[i], memo),
    ensures
        ({
            let (w, r1) = v.deactivate(caller, memo);
            let x = w.run(between);
            &&& r1 == Ok::<(), Error>(())
            &&& x.validate(caller, memo, amount).1 == Err::<bool, Error>(Error::SessionExpired)
        }),
{
    let w = v.deactivate(caller, memo).0;
    lemma_consumed_stays_consumed(w, between, memo);
}

/// A caller other than the backend gets `Unauthorized` from registration,
/// validation and deactivation, and none of them changes anything.
pub proof fn law_non_backend_rejected(
    v: ValidatorModel,
    caller: Seq<char>,
    memo: Seq<char>,
    merchant: Seq<char>,
    amount: i128,
    now: u64,
)
    requires
        !v.authorized(caller),
    ensures
        v.register(caller, memo, merchant, amount, now) == (v, Err::<(), Error>(Error::Unauthorized)),
        v.validate(caller, memo, amount) == (v, Err::<bool, Error>(Error::Unauthorized)),
        v.deactivate(caller, memo) == (v, Err::<(), Error>(Error::Unauthorized)),
{
}

/// Bootstrapping succeeds once; a second bootstrap fails with
/// `AlreadyInitialized` and keeps the first identity.
pub proof fn law_bootstrap_once(v: ValidatorModel, first: Seq<char>, second: Seq<char>)
    requires
        v.backend is None,
    ensures
        ({
            let (w, r1) = v.initialize(first);
            let (x, r2) = w.initialize(second);
            &&& r1 == Ok::<(), Error>(())
            &&& w.backend == Some(first)
            &&& r2 == Err::<(), Error>(Error::AlreadyInitialized)
            &&& x == w
        }),
{
}

} // verus!
