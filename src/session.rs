use vstd::prelude::*;

verus! {

/// Mathematical value of a [`PaymentSession`].
pub struct SessionModel {
    pub memo: Seq<char>,
    pub merchant: Seq<char>,
    pub amount: i128,
    pub is_active: bool,
    pub created_at: u64,
}

/// The expected terms of one payment request, with its status.
#[derive(Clone, Debug)]
pub struct PaymentSession {
    /// Key that correlates the request with a later proof of payment.
    pub memo: String,
    /// Principal that receives the payment (recorded for audit only).
    pub merchant: String,
    /// Minimum accepted amount.
    pub amount: i128,
    /// True while the session awaits validation.
    pub is_active: bool,
    /// Host clock reading at registration.
    pub created_at: u64,
}

impl View for PaymentSession {
    type V = SessionModel;

    open spec fn view(&self) -> SessionModel {
        SessionModel {
            memo: self.memo@,
            merchant: self.merchant@,
            amount: self.amount,
            is_active: self.is_active,
            created_at: self.created_at,
        }
    }
}

impl PaymentSession {
    /// A copy whose fields equal this session's.
    pub fn duplicate(&self) -> (r: PaymentSession)
        ensures
            r@ == self@,
    {
        PaymentSession {
            memo: self.memo.clone(),
            merchant: self.merchant.clone(),
            amount: self.amount,
            is_active: self.is_active,
            created_at: self.created_at,
        }
    }
}

/// Mathematical value of an [`Event`].
pub enum EventModel {
    Registered { memo: Seq<char> },
    Expired { memo: Seq<char> },
    Insufficient { memo: Seq<char>, amount: i128, expected: i128 },
    Validated { memo: Seq<char>, merchant: Seq<char>, amount: i128 },
    Deactivated { memo: Seq<char> },
}

/// A notification appended to the validator's log.
#[derive(Clone, Debug)]
pub enum Event {
    /// A session was registered under `memo`.
    Registered { memo: String },
    /// A validation was attempted on a consumed session.
    Expired { memo: String },
    /// A validation carried `amount`, below the `expected` minimum.
    Insufficient { memo: String, amount: i128, expected: i128 },
    /// The session was satisfied by `amount`, payable to `merchant`.
    Validated { memo: String, merchant: String, amount: i128 },
    /// The session was cancelled by the backend.
    Deactivated { memo: String },
}

impl View for Event {
    type V = EventModel;

    open spec fn view(&self) -> EventModel {
        match self {
            Event::Registered { memo } => EventModel::Registered { memo: memo@ },
            Event::Expired { memo } => EventModel::Expired { memo: memo@ },
            Event::Insufficient { memo, amount, expected } => EventModel::Insufficient {
                memo: memo@,
                amount: *amount,
                expected: *expected,
            },
            Event::Validated { memo, merchant, amount } => EventModel::Validated {
                memo: memo@,
                merchant: merchant@,
                amount: *amount,
            },
            Event::Deactivated { memo } => EventModel::Deactivated { memo: memo@ },
        }
    }
}

} // verus!
