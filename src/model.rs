use vstd::prelude::*;

use crate::error::Error;
use crate::session::{EventModel, SessionModel};

verus! {

/// Mathematical value of the validator: the backend identity, the session
/// registry keyed by memo, and the notification log.
pub struct ValidatorModel {
    pub backend: Option<Seq<char>>,
    pub sessions: Map<Seq<char>, SessionModel>,
    pub events: Seq<EventModel>,
}

impl ValidatorModel {
    /// A freshly deployed validator: no backend, no sessions, no notifications.
    pub open spec fn initial() -> ValidatorModel {
        ValidatorModel { backend: None, sessions: Map::empty(), events: Seq::empty() }
    }

    /// The caller has authenticated as the stored backend.
    pub open spec fn authorized(self, caller: Seq<char>) -> bool {
        self.backend == Some(caller)
    }

    /// Stores the backend identity unless one is already stored.
    pub open spec fn initialize(self, backend: Seq<char>) -> (ValidatorModel, Result<(), Error>) {
        if self.backend is Some {
            (self, Err(Error::AlreadyInitialized))
        } else {
            (
                ValidatorModel { backend: Some(backend), sessions: self.sessions, events: self.events },
                Ok(()),
            )
        }
    }

    /// Stores a fresh active session under `memo`, replacing any earlier one.
    pub open spec fn register(
        self,
        caller: Seq<char>,
        memo: Seq<char>,
        merchant: Seq<char>,
        amount: i128,
        now: u64,
    ) -> (ValidatorModel, Result<(), Error>) {
        if !self.authorized(caller) {
            (self, Err(Error::Unauthorized))
        } else {
            let session = SessionModel {
                memo,
                merchant,
                amount,
                is_active: true,
                created_at: now,
            };
            (
                ValidatorModel {
                    backend: self.backend,
                    sessions: self.sessions.insert(memo, session),
                    events: self.events.push(EventModel::Registered { memo }),
                },
                Ok(()),
            )
        }
    }

    /// Adjudicates an observed payment of `amount` against the session under `memo`.
    pub open spec fn validate(self, caller: Seq<char>, memo: Seq<char>, amount: i128) -> (
        ValidatorModel,
        Result<bool, Error>,
    ) {
        if !self.authorized(caller) {
            (self, Err(Error::Unauthorized))
        } else if !self.sessions.contains_key(memo) {
            (self, Err(Error::SessionNotFound))
        } else {
            let s = self.sessions[memo];
            if !s.is_active {
                (
                    ValidatorModel {
                        backend: self.backend,
                        sessions: self.sessions,
                        events: self.events.push(EventModel::Expired { memo }),
                    },
                    Err(Error::SessionExpired),
                )
            } else if amount < s.amount {
                (
                    ValidatorModel {
                        backend: self.backend,
                        sessions: self.sessions,
                        events: self.events.push(
                            EventModel::Insufficient { memo, amount, expected: s.amount },
                        ),
                    },
                    Err(Error::InsufficientAmount),
                )
            } else {
                (
                    ValidatorModel {
                        backend: self.backend,
                        sessions: self.sessions.insert(memo, SessionModel { is_active: false, ..s }),
                        events: self.events.push(
                            EventModel::Validated { memo, merchant: s.merchant, amount },
                        ),
                    },
                    Ok(true),
                )
            }
        }
    }

    /// Marks the session under `memo` inactive, whatever its status.
    pub open spec fn deactivate(self, caller: Seq<char>, memo: Seq<char>) -> (
        ValidatorModel,
        Result<(), Error>,
    ) {
        if !self.authorized(caller) {
            (self, Err(Error::Unauthorized))
        } else if !self.sessions.contains_key(memo) {
            (self, Err(Error::SessionNotFound))
        } else {
            let s = self.sessions[memo];
            (
                ValidatorModel {
                    backend: self.backend,
                    sessions: self.sessions.insert(memo, SessionModel { is_active: false, ..s }),
                    events: self.events.push(EventModel::Deactivated { memo }),
                },
                Ok(()),
            )
        }
    }
}

} // verus!
