use timed_release::policy::decide_reschedule;
use timed_release::{now, AccessError, Address, Context, Policy, TimedRelease};

#[test]
fn addresses_compare_by_bytes() {
    let a = Address([7; 20]);
    let mut bytes = [7u8; 20];
    assert!(a.same_as(&Address(bytes)));
    assert!(a == Address(bytes));
    bytes[19] = 8;
    assert!(!a.same_as(&Address(bytes)));
    assert!(a != Address(bytes));
}

#[test]
fn context_carries_its_sender() {
    let a = Address([3; 20]);
    assert!(Context::with_sender(a).sender() == a);
}

#[test]
fn decision_checks_author_before_policy() {
    let author = Address([1; 20]);
    let other = Address([2; 20]);
    assert!(matches!(
        decide_reschedule(Policy::Strict, &author, 10, &other, 20),
        Err(AccessError::Unauthorized)
    ));
    assert!(matches!(
        decide_reschedule(Policy::Strict, &author, 10, &author, 20),
        Err(AccessError::AlreadyReleased)
    ));
    assert!(decide_reschedule(Policy::Strict, &author, 10, &author, 10).is_ok());
    assert!(decide_reschedule(Policy::Permissive, &author, 10, &author, 20).is_ok());
    assert!(matches!(
        decide_reschedule(Policy::Permissive, &author, 10, &other, 5),
        Err(AccessError::Unauthorized)
    ));
}

#[test]
fn record_reschedule_changes_only_on_success() {
    let author = Address([1; 20]);
    let mut rec = TimedRelease::new(author, "m".to_string(), 10);
    assert!(rec.reschedule_at(Policy::Strict, &author, 20, 30).is_err());
    assert_eq!(rec.read_at(11).unwrap(), "m");
    assert!(rec.reschedule_at(Policy::Permissive, &author, 20, 30).is_ok());
    assert!(matches!(rec.read_at(11), Err(AccessError::NotYetReleased)));
    assert_eq!(rec.read_at(31).unwrap(), "m");
}

#[test]
fn error_reasons() {
    assert_eq!(
        AccessError::Unauthorized.reason(),
        "Sender does not have permission to make message public."
    );
    assert_eq!(
        AccessError::AlreadyReleased.reason(),
        "Cannot update release time of already-released message."
    );
    assert_eq!(AccessError::NotYetReleased.reason(), "Message is not yet released.");
}

#[test]
fn clock_reads_unix_seconds() {
    let t = now();
    // Later than 2020-09-13 and earlier than the year 2200.
    assert!(t > 1_600_000_000);
    assert!(t < 7_258_118_400);
    assert!(now() >= t);
}
