use payment_validator::error::Error;
use payment_validator::session::{Event, PaymentSession};
use payment_validator::validator::ChainPeValidator;

fn s(text: &str) -> String {
    text.to_string()
}

fn bootstrapped(backend: &str) -> ChainPeValidator {
    let mut v = ChainPeValidator::new();
    assert_eq!(v.initialize(s(backend)), Ok(()));
    v
}

#[test]
fn test_payment_flow() {
    let backend = s("GBACKEND");
    let merchant = s("GMERCHANT");
    let mut v = ChainPeValidator::new();
    v.initialize(backend.clone()).unwrap();

    let memo = s("pay_test123");
    v.register_session(&backend, memo.clone(), merchant, 100, 0).unwrap();

    let session = v.get_session(&memo);
    assert!(session.is_some());
    assert!(session.unwrap().is_active);
}

#[test]
fn fetch_before_register_is_empty() {
    let v = ChainPeValidator::new();
    assert!(v.get_session(&s("pay_unknown")).is_none());
    let mut w = bootstrapped("GB");
    w.register_session(&s("GB"), s("other"), s("GM"), 5, 1).unwrap();
    assert!(w.get_session(&s("pay_unknown")).is_none());
}

#[test]
fn register_then_fetch_matches_terms() {
    let mut v = bootstrapped("GB");
    assert_eq!(v.register_session(&s("GB"), s("m1"), s("GMERCH"), 250, 1_700_000_000), Ok(()));
    let got = v.get_session(&s("m1")).unwrap();
    assert_eq!(got.memo, "m1");
    assert_eq!(got.merchant, "GMERCH");
    assert_eq!(got.amount, 250);
    assert!(got.is_active);
    assert_eq!(got.created_at, 1_700_000_000);
}

#[test]
fn concrete_scenario() {
    let b = s("backend");
    let mut v = bootstrapped("backend");
    v.register_session(&b, s("pay_test123"), s("merchantX"), 100, 7).unwrap();
    let got = v.get_session(&s("pay_test123")).unwrap();
    assert!(got.is_active);
    assert_eq!(got.amount, 100);

    assert_eq!(v.validate_payment(&b, s("pay_test123"), 50), Err(Error::InsufficientAmount));
    assert!(v.get_session(&s("pay_test123")).unwrap().is_active);

    assert_eq!(v.validate_payment(&b, s("pay_test123"), 100), Ok(true));
    assert!(!v.get_session(&s("pay_test123")).unwrap().is_active);

    assert_eq!(v.validate_payment(&b, s("pay_test123"), 100), Err(Error::SessionExpired));
}

#[test]
fn validate_succeeds_once() {
    let b = s("GB");
    let mut v = bootstrapped("GB");
    v.register_session(&b, s("m"), s("GM"), 10, 0).unwrap();
    assert_eq!(v.validate_payment(&b, s("m"), 15), Ok(true));
    assert_eq!(v.validate_payment(&b, s("m"), 15), Err(Error::SessionExpired));
    assert_eq!(v.validate_payment(&b, s("m"), 1000), Err(Error::SessionExpired));
}

#[test]
fn validate_with_exact_amount_succeeds() {
    let b = s("GB");
    let mut v = bootstrapped("GB");
    v.register_session(&b, s("m"), s("GM"), i128::MAX, 0).unwrap();
    assert_eq!(v.validate_payment(&b, s("m"), i128::MAX - 1), Err(Error::InsufficientAmount));
    assert_eq!(v.validate_payment(&b, s("m"), i128::MAX), Ok(true));
}

#[test]
fn validate_unknown_memo_is_not_found() {
    let b = s("GB");
    let mut v = bootstrapped("GB");
    assert_eq!(v.validate_payment(&b, s("nope"), 1), Err(Error::SessionNotFound));
    assert_eq!(v.deactivate_session(&b, s("nope")), Err(Error::SessionNotFound));
    assert!(v.events().is_empty());
}

#[test]
fn deactivate_then_validate_is_expired() {
    let b = s("GB");
    let mut v = bootstrapped("GB");
    v.register_session(&b, s("m"), s("GM"), 10, 0).unwrap();
    assert_eq!(v.deactivate_session(&b, s("m")), Ok(()));
    assert!(!v.get_session(&s("m")).unwrap().is_active);
    assert_eq!(v.validate_payment(&b, s("m"), 10), Err(Error::SessionExpired));
    assert_eq!(v.validate_payment(&b, s("m"), 0), Err(Error::SessionExpired));
    v.register_session(&b, s("other"), s("GM"), 1, 1).unwrap();
    assert_eq!(v.validate_payment(&b, s("other"), 1), Ok(true));
    assert_eq!(v.validate_payment(&b, s("m"), i128::MAX), Err(Error::SessionExpired));
    // deactivating again is allowed and keeps the session inactive
    assert_eq!(v.deactivate_session(&b, s("m")), Ok(()));
    assert!(!v.get_session(&s("m")).unwrap().is_active);
}

#[test]
fn non_backend_caller_is_unauthorized() {
    let b = s("GB");
    let mut v = bootstrapped("GB");
    v.register_session(&b, s("m"), s("GM"), 10, 0).unwrap();
    let stranger = s("GSTRANGER");
    assert_eq!(v.register_session(&stranger, s("m"), s("GX"), 1, 5), Err(Error::Unauthorized));
    assert_eq!(v.validate_payment(&stranger, s("m"), 10), Err(Error::Unauthorized));
    assert_eq!(v.deactivate_session(&stranger, s("m")), Err(Error::Unauthorized));
    let got = v.get_session(&s("m")).unwrap();
    assert_eq!(got.merchant, "GM");
    assert_eq!(got.amount, 10);
    assert!(got.is_active);
    assert_eq!(v.events().len(), 1);
}

#[test]
fn no_backend_means_unauthorized() {
    let mut v = ChainPeValidator::new();
    assert_eq!(v.register_session(&s("GB"), s("m"), s("GM"), 1, 0), Err(Error::Unauthorized));
    assert_eq!(v.validate_payment(&s("GB"), s("m"), 1), Err(Error::Unauthorized));
    assert_eq!(v.deactivate_session(&s("GB"), s("m")), Err(Error::Unauthorized));
    assert!(v.get_session(&s("m")).is_none());
}

#[test]
fn bootstrap_only_once() {
    let mut v = ChainPeValidator::new();
    assert_eq!(v.backend(), None);
    assert_eq!(v.initialize(s("GFIRST")), Ok(()));
    assert_eq!(v.initialize(s("GSECOND")), Err(Error::AlreadyInitialized));
    assert_eq!(v.backend(), Some(s("GFIRST")));
    assert_eq!(v.register_session(&s("GSECOND"), s("m"), s("GM"), 1, 0), Err(Error::Unauthorized));
}

#[test]
fn reregistration_replaces_terms() {
    let b = s("GB");
    let mut v = bootstrapped("GB");
    v.register_session(&b, s("m"), s("GM1"), 10, 1).unwrap();
    v.validate_payment(&b, s("m"), 10).unwrap();
    v.register_session(&b, s("m"), s("GM2"), 30, 2).unwrap();
    let got = v.get_session(&s("m")).unwrap();
    assert_eq!(got.merchant, "GM2");
    assert_eq!(got.amount, 30);
    assert_eq!(got.created_at, 2);
    assert!(got.is_active);
    assert_eq!(v.validate_payment(&b, s("m"), 20), Err(Error::InsufficientAmount));
}

#[test]
fn sessions_are_independent() {
    let b = s("GB");
    let mut v = bootstrapped("GB");
    v.register_session(&b, s("a"), s("GM"), 10, 0).unwrap();
    v.register_session(&b, s("b"), s("GM"), 20, 0).unwrap();
    v.validate_payment(&b, s("a"), 10).unwrap();
    assert!(!v.get_session(&s("a")).unwrap().is_active);
    assert!(v.get_session(&s("b")).unwrap().is_active);
    assert_eq!(v.validate_payment(&b, s("b"), 20), Ok(true));
}

#[test]
fn notifications_follow_each_transition() {
    let b = s("GB");
    let mut v = bootstrapped("GB");
    v.register_session(&b, s("m"), s("GM"), 100, 0).unwrap();
    let _ = v.validate_payment(&b, s("m"), 40);
    let _ = v.validate_payment(&b, s("m"), 120);
    let _ = v.validate_payment(&b, s("m"), 120);
    v.deactivate_session(&b, s("m")).unwrap();
    let ev = v.events();
    assert_eq!(ev.len(), 5);
    assert!(matches!(&ev[0], Event::Registered { memo } if memo == "m"));
    assert!(matches!(&ev[1], Event::Insufficient { memo, amount: 40, expected: 100 } if memo == "m"));
    assert!(matches!(&ev[2], Event::Validated { memo, merchant, amount: 120 } if memo == "m" && merchant == "GM"));
    assert!(matches!(&ev[3], Event::Expired { memo } if memo == "m"));
    assert!(matches!(&ev[4], Event::Deactivated { memo } if memo == "m"));
}

#[test]
fn restore_from_stored_parts() {
    let stored = PaymentSession {
        memo: s("m"),
        merchant: s("GM"),
        amount: 10,
        is_active: true,
        created_at: 3,
    };
    let mut v = ChainPeValidator::restore(Some(s("GB")), Some(stored.duplicate()));
    assert_eq!(v.backend(), Some(s("GB")));
    assert!(v.events().is_empty());
    assert_eq!(v.validate_payment(&s("GB"), s("m"), 10), Ok(true));
    assert!(!v.get_session(&s("m")).unwrap().is_active);

    let mut empty = ChainPeValidator::restore(None, None);
    assert_eq!(empty.validate_payment(&s("GB"), s("m"), 10), Err(Error::Unauthorized));
    assert_eq!(empty.initialize(s("GB")), Ok(()));
}
