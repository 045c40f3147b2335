use txt_verify::challenge::{
    check_request, judge_answer, plan_issue, txt_records_contain, ChallengeError, DnsAnswer,
    DomainStatus, ExistingChallenge, IssueOutcome, VerificationResult,
};
use txt_verify::domain_status::DomainStatusResponse;

fn s(x: &str) -> String {
    x.to_string()
}

#[test]
fn request_needs_user_and_domain() {
    assert_eq!(check_request("u1", "example.com"), Ok(()));
    assert_eq!(check_request("", "example.com"), Err(ChallengeError::InvalidInput));
    assert_eq!(check_request("u1", "  "), Err(ChallengeError::InvalidInput));
}

#[test]
fn plan_for_verified_pair() {
    let e = ExistingChallenge { record: s("a=b"), verified: true };
    let r = plan_issue(&s("u1"), &s("example.com"), Some(e), s("NEW"));
    assert!(matches!(r, Ok(IssueOutcome::AlreadyVerified)));
}

#[test]
fn plan_for_pending_pair_reuses_record() {
    let e = ExistingChallenge { record: s("example_com_verification=OLD"), verified: false };
    match plan_issue(&s("u1"), &s("example.com"), Some(e), s("NEW")) {
        Ok(IssueOutcome::Existing(resp)) => {
            assert_eq!(resp.user_id, "u1");
            assert_eq!(resp.dns_record.domain, "example.com");
            assert_eq!(resp.dns_record.record, "example_com_verification=OLD");
            assert_eq!(
                resp.dns_record.action,
                "Use existing TXT record for the domain example.com with the content example_com_verification=OLD"
            );
        }
        _ => panic!("expected the existing record"),
    }
}

#[test]
fn plan_for_new_pair_builds_record() {
    match plan_issue(&s("u1"), &s("example.com"), None, s("T1")) {
        Ok(IssueOutcome::Created(resp)) => {
            assert_eq!(resp.dns_record.record, "example_com_verification=T1");
        }
        _ => panic!("expected a new record"),
    }
}

#[test]
fn plan_rejects_blank_token_and_bad_input() {
    assert!(matches!(
        plan_issue(&s("u1"), &s("example.com"), None, s(" ")),
        Err(ChallengeError::MalformedToken)
    ));
    assert!(matches!(
        plan_issue(&s(""), &s("example.com"), None, s("T1")),
        Err(ChallengeError::InvalidInput)
    ));
}

#[test]
fn membership_is_exact() {
    let rs = vec![s("example_com_verification=T1x"), s("xexample_com_verification=T1")];
    assert!(!txt_records_contain(&rs, &s("example_com_verification=T1")));
    let rs2 = vec![s("other=xyz"), s("example_com_verification=T1")];
    assert!(txt_records_contain(&rs2, &s("example_com_verification=T1")));
    assert!(!txt_records_contain(&vec![], &s("a=b")));
}

#[test]
fn judge_answers() {
    let e = s("a=b");
    assert_eq!(judge_answer(&e, &DnsAnswer::Failed), Err(ChallengeError::ResolutionError));
    assert_eq!(judge_answer(&e, &DnsAnswer::Records(vec![s("a=b")])), Ok(true));
    assert_eq!(judge_answer(&e, &DnsAnswer::Records(vec![s("other=xyz")])), Ok(false));
}

#[test]
fn labels_and_messages() {
    assert_eq!(DomainStatus::from_stored(None).label(), "not found");
    assert_eq!(DomainStatus::from_stored(Some(false)).label(), "pending");
    assert_eq!(DomainStatus::from_stored(Some(true)).label(), "verified");
    assert_eq!(VerificationResult::Verified.message(), "verified successfully");
    assert_eq!(VerificationResult::NotFound.message(), "not found or already verified");
    assert_eq!(VerificationResult::Mismatch.message(), "record not found");
    assert_eq!(DomainStatusResponse::for_status(DomainStatus::Pending).status, "pending");
}
