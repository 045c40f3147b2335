//! The decisions of the challenge workflow, apart from any store or resolver.
//!
//! Each function here takes what a store or a DNS resolver answered as a plain
//! value and says what to do or report next.

use vstd::prelude::*;
use crate::txt_generator::{
    attribute_for, create_action, generate_txt_record_from_config, is_blank, is_blank_text,
    record_text, reuse_action, verification_attribute, DnsRecordInstruction, TxtRecordGenerator,
    TxtRecordResponse,
};

verus! {

/// Why an operation of the workflow failed.
#[derive(PartialEq, Eq, Structural, Clone, Copy, Debug)]
pub enum ChallengeError {
    /// The user id is empty, or the domain is blank.
    InvalidInput,
    /// A newly generated token was blank.
    MalformedToken,
    /// The store refused or failed the operation.
    StorageError,
    /// DNS resolution failed.
    ResolutionError,
}

/// What a verification reports.
#[derive(PartialEq, Eq, Structural, Clone, Copy, Debug)]
pub enum VerificationResult {
    /// The record was found; the challenge is verified.
    Verified,
    /// DNS answered, but without the expected record.
    Mismatch,
    /// No pending challenge: never issued, or already verified.
    NotFound,
}

/// The verification state of a `(user_id, domain)` pair.
#[derive(PartialEq, Eq, Structural, Clone, Copy, Debug)]
pub enum DomainStatus {
    NotFound,
    Pending,
    Verified,
}

/// A challenge as a store holds it.
pub struct ExistingChallenge {
    /// The full record, `attribute=token`.
    pub record: String,
    /// Whether the challenge has been verified.
    pub verified: bool,
}

/// What a challenge request comes to.
pub enum IssueOutcome {
    /// The pair is verified already; no record is handed out.
    AlreadyVerified,
    /// The pending challenge issued earlier, unchanged.
    Existing(TxtRecordResponse),
    /// A new challenge, to be stored as pending.
    Created(TxtRecordResponse),
}

/// What a DNS TXT lookup answered.
pub enum DnsAnswer {
    /// The TXT strings found.
    Records(Vec<String>),
    /// The resolver failed.
    Failed,
}

impl View for DnsAnswer {
    /// The strings found, or `None` when the resolver failed.
    type V = Option<Seq<Seq<char>>>;

    open spec fn view(&self) -> Option<Seq<Seq<char>>> {
        match self {
            DnsAnswer::Records(rs) => Some(rs@.map_values(|s: String| s@)),
            DnsAnswer::Failed => None,
        }
    }
}

/// A request is acceptable when the user id is not empty and the domain is not blank.
pub open spec fn request_ok(user_id: Seq<char>, domain: Seq<char>) -> bool {
    user_id.len() > 0 && !is_blank(domain)
}

/// Whether `response` hands `record` to `user_id` for `domain`, with `action`.
pub open spec fn response_is(
    response: TxtRecordResponse,
    user_id: Seq<char>,
    domain: Seq<char>,
    record: Seq<char>,
    action: Seq<char>,
) -> bool {
    &&& response.user_id@ == user_id
    &&& response.dns_record.domain@ == domain
    &&& response.dns_record.record@ == record
    &&& response.dns_record.action@ == action
}

/// Whether the strings of a TXT answer hold `expected` exactly.
pub open spec fn txt_holds(records: Seq<Seq<char>>, expected: Seq<char>) -> bool {
    exists|i: int| 0 <= i < records.len() && records[i] == expected
}

/// The text shown for a status.
pub open spec fn status_label(s: DomainStatus) -> Seq<char> {
    match s {
        DomainStatus::NotFound => "not found"@,
        DomainStatus::Pending => "pending"@,
        DomainStatus::Verified => "verified"@,
    }
}

/// The text shown for the result of a verification.
pub open spec fn result_message(r: VerificationResult) -> Seq<char> {
    match r {
        VerificationResult::Verified => "verified successfully"@,
        VerificationResult::NotFound => "not found or already verified"@,
        VerificationResult::Mismatch => "record not found"@,
    }
}

impl DomainStatus {
    /// The status of a pair from what the store holds for it.
    pub fn from_stored(verified: Option<bool>) -> (r: DomainStatus)
        ensures
            r == match verified {
                None => DomainStatus::NotFound,
                Some(false) => DomainStatus::Pending,
                Some(true) => DomainStatus::Verified,
            },
    {
        match verified {
            None => DomainStatus::NotFound,
            Some(false) => DomainStatus::Pending,
            Some(true) => DomainStatus::Verified,
        }
    }

    pub fn label(&self) -> (r: String)
        ensures
            r@ == status_label(*self),
    {
        match self {
            DomainStatus::NotFound => "not found".to_string(),
            DomainStatus::Pending => "pending".to_string(),
            DomainStatus::Verified => "verified".to_string(),
        }
    }
}

impl VerificationResult {
    pub fn message(&self) -> (r: String)
        ensures
            r@ == result_message(*self),
    {
        match self {
            VerificationResult::Verified => "verified successfully".to_string(),
            VerificationResult::NotFound => "not found or already verified".to_string(),
            VerificationResult::Mismatch => "record not found".to_string(),
        }
    }
}

/// Rejects an empty user id or a blank domain, before anything else is done.
pub fn check_request(user_id: &str, domain: &str) -> (r: Result<(), ChallengeError>)
    ensures
        r is Ok <==> request_ok(user_id@, domain@),
        r is Err ==> r == Err::<(), ChallengeError>(ChallengeError::InvalidInput),
{
    if user_id.unicode_len() == 0 || is_blank_text(domain) {
        Err(ChallengeError::InvalidInput)
    } else {
        Ok(())
    }
}

/// Whether `records` holds `expected` as one of its strings: membership, not a
/// prefix or a substring.
pub fn txt_records_contain(records: &Vec<String>, expected: &String) -> (r: bool)
    ensures
        r == txt_holds(records@.map_values(|s: String| s@), expected@),
{
    let ghost view = records@.map_values(|s: String| s@);
    let mut i: usize = 0;
    while i < records.len()
        invariant
            i <= records.len(),
            view == records@.map_values(|s: String| s@),
            forall|j: int| 0 <= j < i ==> view[j] != expected@,
        decreases records.len() - i,
    {
        if records[i] == *expected {
            assert(view[i as int] == expected@);
            return true;
        }
        i += 1;
    }
    false
}

/// Judges a DNS answer against the expected record: `Ok(true)` when the record
/// is among the answer's strings, `Ok(false)` when it is not, and a resolution
/// error when the resolver failed.
pub fn judge_answer(expected: &String, answer: &DnsAnswer) -> (r: Result<bool, ChallengeError>)
    ensures
        r == match answer@ {
            None => Err::<bool, ChallengeError>(ChallengeError::ResolutionError),
            Some(rs) => Ok::<bool, ChallengeError>(txt_holds(rs, expected@)),
        },
{
    match answer {
        DnsAnswer::Records(rs) => Ok(txt_records_contain(rs, expected)),
        DnsAnswer::Failed => Err(ChallengeError::ResolutionError),
    }
}

/// The attribute of a domain is never blank: it ends in `_verification`.
pub proof fn lemma_attribute_not_blank(domain: Seq<char>)
    ensures
        !is_blank(attribute_for(domain)),
{
    reveal_strlit("_verification");
    let a = attribute_for(domain);
    assert(a[domain.len() as int] == '_');
}

/// Decides a challenge request from what the store holds for the pair.
///
/// A verified pair gets no record; a pending one gets its stored record back
/// unchanged; for a pair with nothing stored, a record is built from the
/// domain's attribute and `fresh_token`, which the caller then stores.
pub fn plan_issue(
    user_id: &String,
    domain: &String,
    existing: Option<ExistingChallenge>,
    fresh_token: String,
) -> (r: Result<IssueOutcome, ChallengeError>)
    ensures
        !request_ok(user_id@, domain@) ==> r matches Err(ChallengeError::InvalidInput),
        request_ok(user_id@, domain@) ==> match existing {
            Some(e) => if e.verified {
                r matches Ok(IssueOutcome::AlreadyVerified)
            } else {
                r matches Ok(IssueOutcome::Existing(resp)) && response_is(
                    resp,
                    user_id@,
                    domain@,
                    e.record@,
                    reuse_action(domain@, e.record@),
                )
            },
            None => if is_blank(fresh_token@) {
                r matches Err(ChallengeError::MalformedToken)
            } else {
                r matches Ok(IssueOutcome::Created(resp)) && response_is(
                    resp,
                    user_id@,
                    domain@,
                    record_text(attribute_for(domain@), fresh_token@),
                    create_action(domain@, record_text(attribute_for(domain@), fresh_token@)),
                )
            },
        },
{
    if check_request(user_id.as_str(), domain.as_str()).is_err() {
        return Err(ChallengeError::InvalidInput);
    }
    match existing {
        Some(e) => {
            if e.verified {
                Ok(IssueOutcome::AlreadyVerified)
            } else {
                let mut action = String::from_str("Use existing TXT record for the domain ");
                action.append(domain.as_str());
                action.append(" with the content ");
                action.append(e.record.as_str());
                let dns_record = DnsRecordInstruction {
                    domain: domain.clone(),
                    record: e.record,
                    action,
                };
                Ok(IssueOutcome::Existing(TxtRecordResponse { user_id: user_id.clone(), dns_record }))
            }
        },
        None => {
            proof {
                lemma_attribute_not_blank(domain@);
            }
            let mut config = TxtRecordGenerator::new(
                domain.clone(),
                verification_attribute(domain.as_str()),
                fresh_token,
            );
            match generate_txt_record_from_config(&mut config) {
                Ok(dns_record) => Ok(
                    IssueOutcome::Created(TxtRecordResponse { user_id: user_id.clone(), dns_record }),
                ),
                Err(_) => Err(ChallengeError::MalformedToken),
            }
        },
    }
}

} // verus!
