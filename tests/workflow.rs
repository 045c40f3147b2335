use txt_verify::challenge::{ChallengeError, DnsAnswer, DomainStatus, IssueOutcome, VerificationResult};
use txt_verify::store::ChallengeStore;

fn s(x: &str) -> String {
    x.to_string()
}

fn record_of(r: &Result<IssueOutcome, ChallengeError>) -> String {
    match r {
        Ok(IssueOutcome::Existing(resp)) | Ok(IssueOutcome::Created(resp)) => {
            resp.dns_record.record.clone()
        }
        _ => panic!("expected a record"),
    }
}

#[test]
fn example_com_is_verified() {
    let mut store = ChallengeStore::new();
    let (u, d) = (s("u1"), s("example.com"));
    let r = store.issue_with_token(&u, &d, s("T1"));
    assert!(matches!(r, Ok(IssueOutcome::Created(_))));
    assert_eq!(record_of(&r), "example_com_verification=T1");
    let answer = DnsAnswer::Records(vec![s("example_com_verification=T1")]);
    assert_eq!(store.verify_with_answer(&u, &d, &answer), Ok(VerificationResult::Verified));
    assert_eq!(store.status(&u, &d), DomainStatus::Verified);
    assert_eq!(store.status(&u, &d).label(), "verified");
}

#[test]
fn unrelated_txt_is_mismatch() {
    let mut store = ChallengeStore::new();
    let (u, d) = (s("u1"), s("example.com"));
    let first = store.issue(&u, &d);
    let answer = DnsAnswer::Records(vec![s("other=xyz")]);
    assert_eq!(store.verify_with_answer(&u, &d, &answer), Ok(VerificationResult::Mismatch));
    assert_eq!(store.status(&u, &d).label(), "pending");
    let again = store.issue(&u, &d);
    assert_eq!(record_of(&again), record_of(&first));
    assert!(matches!(again, Ok(IssueOutcome::Existing(_))));
}

#[test]
fn never_issued_is_not_found() {
    let mut store = ChallengeStore::new();
    let answer = DnsAnswer::Records(vec![s("anything=1")]);
    assert_eq!(
        store.verify_with_answer(&s("u1"), &s("example.com"), &answer),
        Ok(VerificationResult::NotFound)
    );
    assert_eq!(store.status(&s("u1"), &s("example.com")), DomainStatus::NotFound);
}

#[test]
fn reissue_returns_same_token() {
    let mut store = ChallengeStore::new();
    let (u, d) = (s("u1"), s("example.com"));
    let first = store.issue(&u, &d);
    assert!(matches!(first, Ok(IssueOutcome::Created(_))));
    let second = store.issue(&u, &d);
    assert!(matches!(second, Ok(IssueOutcome::Existing(_))));
    assert_eq!(record_of(&first), record_of(&second));
    let third = store.issue_with_token(&u, &d, s("OTHER"));
    assert_eq!(record_of(&third), record_of(&first));
}

#[test]
fn different_pairs_get_different_tokens() {
    let mut store = ChallengeStore::new();
    let a = store.issue(&s("u1"), &s("example.com"));
    let b = store.issue(&s("u2"), &s("example.com"));
    assert_ne!(record_of(&a), record_of(&b));
    let c = store.issue_with_token(&s("u1"), &s("a.org"), s("T1"));
    assert!(matches!(c, Ok(IssueOutcome::Created(_))));
    let d = store.issue_with_token(&s("u2"), &s("b.org"), s("T1"));
    assert!(matches!(d, Err(ChallengeError::StorageError)));
    assert_eq!(store.status(&s("u2"), &s("b.org")), DomainStatus::NotFound);
}

#[test]
fn verified_pair_stays_verified() {
    let mut store = ChallengeStore::new();
    let (u, d) = (s("u1"), s("example.com"));
    store.issue_with_token(&u, &d, s("T1")).unwrap();
    let good = DnsAnswer::Records(vec![s("example_com_verification=T1")]);
    assert_eq!(store.verify_with_answer(&u, &d, &good), Ok(VerificationResult::Verified));
    assert_eq!(store.verify_with_answer(&u, &d, &good), Ok(VerificationResult::NotFound));
    assert_eq!(
        store.verify_with_answer(&u, &d, &DnsAnswer::Records(vec![])),
        Ok(VerificationResult::NotFound)
    );
    assert!(matches!(store.issue(&u, &d), Ok(IssueOutcome::AlreadyVerified)));
    assert_eq!(store.mark_verified(&u, &d), 0);
    assert_eq!(store.status(&u, &d), DomainStatus::Verified);
    assert!(store.lookup(&u, &d).unwrap().verified);
    assert_eq!(store.lookup(&u, &d).unwrap().record, "example_com_verification=T1");
}

#[test]
fn concurrent_confirms_change_once() {
    let mut store = ChallengeStore::new();
    let (u, d) = (s("u1"), s("example.com"));
    store.issue_with_token(&u, &d, s("T1")).unwrap();
    let seen1 = store.pending_record(&u, &d);
    let seen2 = store.pending_record(&u, &d);
    let seen3 = store.pending_record(&u, &d);
    assert_eq!(seen1, Some(s("example_com_verification=T1")));
    assert_eq!(seen1, seen2);
    assert_eq!(seen2, seen3);
    assert_eq!(store.confirm_match(&u, &d), VerificationResult::Verified);
    assert_eq!(store.confirm_match(&u, &d), VerificationResult::Verified);
    assert_eq!(store.confirm_match(&u, &d), VerificationResult::Verified);
    assert_eq!(store.status(&u, &d), DomainStatus::Verified);
    assert_eq!(store.lookup(&u, &d).unwrap().record, "example_com_verification=T1");
}

#[test]
fn conditional_update_counts_rows() {
    let mut store = ChallengeStore::new();
    let (u, d) = (s("u1"), s("example.com"));
    assert_eq!(store.mark_verified(&u, &d), 0);
    store.issue_with_token(&u, &d, s("T1")).unwrap();
    assert_eq!(store.mark_verified(&u, &d), 1);
    assert_eq!(store.mark_verified(&u, &d), 0);
    assert_eq!(store.pending_record(&u, &d), None);
}

#[test]
fn resolver_failure_leaves_pending() {
    let mut store = ChallengeStore::new();
    let (u, d) = (s("u1"), s("example.com"));
    store.issue_with_token(&u, &d, s("T1")).unwrap();
    assert_eq!(
        store.verify_with_answer(&u, &d, &DnsAnswer::Failed),
        Err(ChallengeError::ResolutionError)
    );
    assert_eq!(store.status(&u, &d), DomainStatus::Pending);
}

#[test]
fn invalid_requests_touch_nothing() {
    let mut store = ChallengeStore::new();
    assert!(matches!(store.issue(&s(""), &s("example.com")), Err(ChallengeError::InvalidInput)));
    assert!(matches!(store.issue(&s("u1"), &s(" \t ")), Err(ChallengeError::InvalidInput)));
    assert_eq!(store.status(&s(""), &s("example.com")), DomainStatus::NotFound);
}
