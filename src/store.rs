//! A challenge store held in memory, with at most one challenge per
//! `(user_id, domain)` pair, and the workflow run against it.
//!
//! The store offers what the workflow asks of a persistent store: a point
//! lookup by pair, an insert that keeps pairs and tokens unique, and a
//! conditional update that marks a pending challenge verified and reports how
//! many rows it changed.

use vstd::prelude::*;
use crate::challenge::{
    check_request, judge_answer, plan_issue, request_ok, response_is, txt_holds, ChallengeError,
    DnsAnswer, DomainStatus, ExistingChallenge, IssueOutcome, VerificationResult,
};
use crate::txt_generator::{
    attribute_for, create_action, generate_ksuid, is_blank, ksuid_text, record_text, reuse_action,
};

verus! {

/// A `(user_id, domain)` pair.
pub type Pair = (Seq<char>, Seq<char>);

/// What is stored for a pair.
pub struct ChallengeModel {
    /// The generated token.
    pub token: Seq<char>,
    /// The record to publish, `attribute=token`.
    pub record: Seq<char>,
    /// Whether the challenge has been verified.
    pub verified: bool,
}

/// The contents of a store: at most one challenge per pair.
pub type StoreModel = Map<Pair, ChallengeModel>;

/// What every store keeps true: each record is the domain's attribute with the
/// token, and no two pairs share a token.
pub open spec fn model_ok(m: StoreModel) -> bool {
    &&& forall|k: Pair| #[trigger]
        m.contains_key(k) ==> m[k].record == record_text(attribute_for(k.1), m[k].token)
    &&& forall|k1: Pair, k2: Pair|
        #![trigger m[k1], m[k2]]
        m.contains_key(k1) && m.contains_key(k2) && k1 != k2 ==> m[k1].token != m[k2].token
}

/// Whether some stored challenge already has `token`.
pub open spec fn token_used(m: StoreModel, token: Seq<char>) -> bool {
    exists|k: Pair| #[trigger] m.contains_key(k) && m[k].token == token
}

/// The outcome of a challenge request, over the store's contents.
pub enum IssueView {
    AlreadyVerified,
    Existing(ChallengeModel),
    Created(ChallengeModel),
}

/// A challenge request for `(u, d)` with `token` as the token a new challenge
/// would get: the contents afterwards and the outcome.
pub open spec fn issue_spec(m: StoreModel, u: Seq<char>, d: Seq<char>, token: Seq<char>) -> (
    StoreModel,
    Result<IssueView, ChallengeError>,
) {
    let k = (u, d);
    if !request_ok(u, d) {
        (m, Err(ChallengeError::InvalidInput))
    } else if m.contains_key(k) {
        if m[k].verified {
            (m, Ok(IssueView::AlreadyVerified))
        } else {
            (m, Ok(IssueView::Existing(m[k])))
        }
    } else if is_blank(token) {
        (m, Err(ChallengeError::MalformedToken))
    } else if token_used(m, token) {
        (m, Err(ChallengeError::StorageError))
    } else {
        let c = ChallengeModel {
            token,
            record: record_text(attribute_for(d), token),
            verified: false,
        };
        (m.insert(k, c), Ok(IssueView::Created(c)))
    }
}

/// The conditional update: a pending challenge becomes verified and counts as
/// one changed row; anything else is left alone and counts as none.
pub open spec fn mark_spec(m: StoreModel, k: Pair) -> (StoreModel, nat) {
    if m.contains_key(k) && !m[k].verified {
        (m.insert(k, ChallengeModel { verified: true, ..m[k] }), 1)
    } else {
        (m, 0)
    }
}

/// A verification for `k` against a DNS answer (`None`: the resolver failed).
pub open spec fn verify_spec(m: StoreModel, k: Pair, answer: Option<Seq<Seq<char>>>) -> (
    StoreModel,
    Result<VerificationResult, ChallengeError>,
) {
    if !m.contains_key(k) || m[k].verified {
        (m, Ok(VerificationResult::NotFound))
    } else {
        match answer {
            None => (m, Err(ChallengeError::ResolutionError)),
            Some(rs) => if txt_holds(rs, m[k].record) {
                (mark_spec(m, k).0, Ok(VerificationResult::Verified))
            } else {
                (m, Ok(VerificationResult::Mismatch))
            },
        }
    }
}

/// The status of `k`.
pub open spec fn status_spec(m: StoreModel, k: Pair) -> DomainStatus {
    if !m.contains_key(k) {
        DomainStatus::NotFound
    } else if m[k].verified {
        DomainStatus::Verified
    } else {
        DomainStatus::Pending
    }
}

/// Whether an executable outcome is the one `v` describes for `(u, d)`.
pub open spec fn outcome_is(
    r: Result<IssueOutcome, ChallengeError>,
    v: Result<IssueView, ChallengeError>,
    u: Seq<char>,
    d: Seq<char>,
) -> bool {
    match v {
        Err(e) => r == Err::<IssueOutcome, ChallengeError>(e),
        Ok(IssueView::AlreadyVerified) => r matches Ok(IssueOutcome::AlreadyVerified),
        Ok(IssueView::Existing(c)) => r matches Ok(IssueOutcome::Existing(resp)) && response_is(
            resp,
            u,
            d,
            c.record,
            reuse_action(d, c.record),
        ),
        Ok(IssueView::Created(c)) => r matches Ok(IssueOutcome::Created(resp)) && response_is(
            resp,
            u,
            d,
            c.record,
            create_action(d, c.record),
        ),
    }
}

struct Row {
    user_id: String,
    domain: String,
    token: String,
    record: String,
    verified: bool,
}

spec fn row_key(r: Row) -> Pair {
    (r.user_id@, r.domain@)
}

spec fn row_model(r: Row) -> ChallengeModel {
    ChallengeModel { token: r.token@, record: r.record@, verified: r.verified }
}

/// Challenges kept in memory.
pub struct ChallengeStore {
    rows: Vec<Row>,
    model: Ghost<StoreModel>,
}

impl View for ChallengeStore {
    type V = StoreModel;

    closed spec fn view(&self) -> StoreModel {
        self.model@
    }
}

impl ChallengeStore {
    /// The rows and the contents agree, one row per pair.
    pub closed spec fn rows_agree(&self) -> bool {
        &&& forall|i: int|
            0 <= i < self.rows@.len() ==> #[trigger] self.model@.contains_key(
                row_key(self.rows@[i]),
            ) && self.model@[row_key(self.rows@[i])] == row_model(self.rows@[i])
        &&& forall|k: Pair| #[trigger]
            self.model@.contains_key(k) ==> exists|i: int|
                0 <= i < self.rows@.len() && row_key(#[trigger] self.rows@[i]) == k
        &&& forall|i: int, j: int|
            0 <= i < self.rows@.len() && 0 <= j < self.rows@.len() && i != j ==> row_key(
                #[trigger] self.rows@[i],
            ) != row_key(#[trigger] self.rows@[j])
    }

    pub open spec fn wf(&self) -> bool {
        self.rows_agree() && model_ok(self@)
    }

    /// An empty store.
    pub fn new() -> (r: Self)
        ensures
            r.wf(),
            r@ == Map::<Pair, ChallengeModel>::empty(),
    {
        ChallengeStore { rows: Vec::new(), model: Ghost(Map::empty()) }
    }

    /// The row of a pair.
    fn find(&self, user_id: &String, domain: &String) -> (r: Option<usize>)
        requires
            self.rows_agree(),
        ensures
            match r {
                Some(i) => i < self.rows@.len() && row_key(self.rows@[i as int]) == (
                    user_id@,
                    domain@,
                ),
                None => !self@.contains_key((user_id@, domain@)),
            },
    {
        let mut i: usize = 0;
        while i < self.rows.len()
            invariant
                i <= self.rows@.len(),
                forall|j: int| 0 <= j < i ==> row_key(#[trigger] self.rows@[j]) != (user_id@, domain@),
            decreases self.rows.len() - i,
        {
            if self.rows[i].user_id == *user_id && self.rows[i].domain == *domain {
                return Some(i);
            }
            i += 1;
        }
        None
    }

    /// Whether a stored challenge has `token`.
    fn token_in_use(&self, token: &String) -> (r: bool)
        requires
            self.rows_agree(),
        ensures
            r == token_used(self@, token@),
    {
        let mut i: usize = 0;
        while i < self.rows.len()
            invariant
                i <= self.rows@.len(),
                self.rows_agree(),
                forall|j: int| 0 <= j < i ==> (#[trigger] self.rows@[j]).token@ != token@,
            decreases self.rows.len() - i,
        {
            if self.rows[i].token == *token {
                assert(self@.contains_key(row_key(self.rows@[i as int])));
                return true;
            }
            i += 1;
        }
        assert forall|k: Pair| #[trigger] self@.contains_key(k) implies self@[k].token != token@ by {
            let j = choose|j: int| 0 <= j < self.rows@.len() && row_key(#[trigger] self.rows@[j]) == k;
        }
        false
    }

    /// What is stored for a pair.
    pub fn lookup(&self, user_id: &String, domain: &String) -> (r: Option<ExistingChallenge>)
        requires
            self.wf(),
        ensures
            match r {
                None => !self@.contains_key((user_id@, domain@)),
                Some(e) => self@.contains_key((user_id@, domain@)) && e.record@ == self@[(
                    user_id@,
                    domain@,
                )].record && e.verified == self@[(user_id@, domain@)].verified,
            },
    {
        match self.find(user_id, domain) {
            None => None,
            Some(i) => {
                assert(self@.contains_key(row_key(self.rows@[i as int])));
                Some(
                ExistingChallenge {
                    record: self.rows[i].record.clone(),
                    verified: self.rows[i].verified,
                },
            )
            },
        }
    }

    /// The record of a pair's challenge, if it is still pending.
    pub fn pending_record(&self, user_id: &String, domain: &String) -> (r: Option<String>)
        requires
            self.wf(),
        ensures
            match r {
                None => !self@.contains_key((user_id@, domain@)) || self@[(
                    user_id@,
                    domain@,
                )].verified,
                Some(rec) => self@.contains_key((user_id@, domain@)) && !self@[(
                    user_id@,
                    domain@,
                )].verified && rec@ == self@[(user_id@, domain@)].record,
            },
    {
        match self.find(user_id, domain) {
            Some(i) => {
                assert(self@.contains_key(row_key(self.rows@[i as int])));
                if self.rows[i].verified {
                    None
                } else {
                    Some(self.rows[i].record.clone())
                }
            },
            None => None,
        }
    }

    /// Stores a new pending challenge for a pair that has none.
    fn insert_pending(&mut self, user_id: String, domain: String, token: String, record: String)
        requires
            old(self).wf(),
            !old(self)@.contains_key((user_id@, domain@)),
            !token_used(old(self)@, token@),
            record@ == record_text(attribute_for(domain@), token@),
        ensures
            final(self).wf(),
            final(self)@ == old(self)@.insert(
                (user_id@, domain@),
                ChallengeModel { token: token@, record: record@, verified: false },
            ),
    {
        let ghost k = (user_id@, domain@);
        let ghost c = ChallengeModel { token: token@, record: record@, verified: false };
        let ghost old_rows = self.rows@;
        let ghost old_model = self.model@;
        let row = Row { user_id, domain, token, record, verified: false };
        assert(row_key(row) == k && row_model(row) == c);
        self.rows.push(row);
        self.model = Ghost(self.model@.insert(k, c));
        assert forall|i: int| 0 <= i < old_rows.len() implies row_key(#[trigger] self.rows@[i]) != k by {
            assert(self.rows@[i] == old_rows[i]);
            assert(old_model.contains_key(row_key(old_rows[i])));
        }
        assert forall|kk: Pair| #[trigger] self.model@.contains_key(kk) implies exists|i: int|
            0 <= i < self.rows@.len() && row_key(#[trigger] self.rows@[i]) == kk by {
            if kk == k {
                assert(row_key(self.rows@[old_rows.len() as int]) == kk);
            } else {
                assert(old_model.contains_key(kk));
                let j = choose|j: int| 0 <= j < old_rows.len() && row_key(#[trigger] old_rows[j]) == kk;
                assert(self.rows@[j] == old_rows[j]);
            }
        }
        assert forall|k1: Pair, k2: Pair|
            self.model@.contains_key(k1) && self.model@.contains_key(k2) && k1 != k2 implies
            #[trigger] self.model@[k1].token != #[trigger] self.model@[k2].token by {
            if k1 == k {
                assert(old_model.contains_key(k2));
            } else if k2 == k {
                assert(old_model.contains_key(k1));
            }
        }
    }

    /// The conditional update: marks the pair's challenge verified only if it
    /// is still pending, and returns the number of rows changed.
    pub fn mark_verified(&mut self, user_id: &String, domain: &String) -> (r: u64)
        requires
            old(self).wf(),
        ensures
            final(self).wf(),
            (final(self)@, r as nat) == mark_spec(old(self)@, (user_id@, domain@)),
    {
        match self.find(user_id, domain) {
            None => 0,
            Some(i) => {
                let ghost k = (user_id@, domain@);
                assert(self@.contains_key(row_key(self.rows@[i as int])));
                if self.rows[i].verified {
                    0
                } else {
                    let ghost old_rows = self.rows@;
                    let ghost old_model = self.model@;
                    let ghost c = ChallengeModel { verified: true, ..old_model[k] };
                    self.rows[i].verified = true;
                    self.model = Ghost(self.model@.insert(k, c));
                    assert(row_model(self.rows@[i as int]) == c);
                    assert forall|j: int| 0 <= j < self.rows@.len() && j != i implies
                        #[trigger] self.rows@[j] == old_rows[j] && row_key(old_rows[j]) != k by {
                        assert(old_model.contains_key(row_key(old_rows[j])));
                    }
                    assert forall|kk: Pair| #[trigger] self.model@.contains_key(kk) implies exists|j: int|
                        0 <= j < self.rows@.len() && row_key(#[trigger] self.rows@[j]) == kk by {
                        assert(old_model.contains_key(kk));
                        let j = choose|j: int| 0 <= j < old_rows.len() && row_key(#[trigger] old_rows[j]) == kk;
                        assert(row_key(self.rows@[j]) == row_key(old_rows[j]));
                    }
                    assert forall|k1: Pair, k2: Pair|
                        self.model@.contains_key(k1) && self.model@.contains_key(k2) && k1 != k2 implies
                        #[trigger] self.model@[k1].token != #[trigger] self.model@[k2].token by {
                        assert(old_model.contains_key(k1) && old_model.contains_key(k2));
                    }
                    1
                }
            },
        }
    }

    /// A challenge request, with `token` as the token of a challenge that has
    /// to be created: a pending challenge is handed back unchanged, a verified
    /// one gets no record, and a new one is stored as pending.
    pub fn issue_with_token(&mut self, user_id: &String, domain: &String, token: String) -> (r:
        Result<IssueOutcome, ChallengeError>)
        requires
            old(self).wf(),
        ensures
            final(self).wf(),
            final(self)@ == issue_spec(old(self)@, user_id@, domain@, token@).0,
            outcome_is(r, issue_spec(old(self)@, user_id@, domain@, token@).1, user_id@, domain@),
    {
        if check_request(user_id.as_str(), domain.as_str()).is_err() {
            return Err(ChallengeError::InvalidInput);
        }
        let existing = self.lookup(user_id, domain);
        match plan_issue(user_id, domain, existing, token.clone()) {
            Ok(IssueOutcome::Created(resp)) => {
                if self.token_in_use(&token) {
                    return Err(ChallengeError::StorageError);
                }
                let record = resp.dns_record.record.clone();
                self.insert_pending(user_id.clone(), domain.clone(), token, record);
                Ok(IssueOutcome::Created(resp))
            },
            other => other,
        }
    }

    /// A challenge request. A KSUID is generated for a pair that has no
    /// challenge yet; the outcome is the one `issue_spec` gives for that token.
    pub fn issue(&mut self, user_id: &String, domain: &String) -> (r: Result<
        IssueOutcome,
        ChallengeError,
    >)
        requires
            old(self).wf(),
        ensures
            final(self).wf(),
            exists|t: Seq<char>|
                #![trigger issue_spec(old(self)@, user_id@, domain@, t)]
                {
                    &&& (request_ok(user_id@, domain@) && !old(self)@.contains_key(
                        (user_id@, domain@),
                    ) ==> ksuid_text(t))
                    &&& final(self)@ == issue_spec(old(self)@, user_id@, domain@, t).0
                    &&& outcome_is(r, issue_spec(old(self)@, user_id@, domain@, t).1, user_id@, domain@)
                },
            !(r matches Err(ChallengeError::MalformedToken)),
    {
        let ghost pre = self@;
        if check_request(user_id.as_str(), domain.as_str()).is_err() {
            assert(issue_spec(pre, user_id@, domain@, Seq::empty()).0 == pre);
            return Err(ChallengeError::InvalidInput);
        }
        // A pair that has a challenge keeps its token, so none is drawn for it.
        let token = if self.lookup(user_id, domain).is_none() {
            generate_ksuid()
        } else {
            String::new()
        };
        let ghost t = token@;
        let r = self.issue_with_token(user_id, domain, token);
        assert(!pre.contains_key((user_id@, domain@)) ==> ksuid_text(t) && !is_blank(t));
        assert(self@ == issue_spec(pre, user_id@, domain@, t).0);
        assert(outcome_is(r, issue_spec(pre, user_id@, domain@, t).1, user_id@, domain@));
        r
    }

    /// Confirms a pair whose record was found: the conditional update is made,
    /// and the result is `Verified` whether this call or an earlier one
    /// changed the row.
    pub fn confirm_match(&mut self, user_id: &String, domain: &String) -> (r: VerificationResult)
        requires
            old(self).wf(),
        ensures
            final(self).wf(),
            final(self)@ == mark_spec(old(self)@, (user_id@, domain@)).0,
            r == VerificationResult::Verified,
    {
        let _changed = self.mark_verified(user_id, domain);
        VerificationResult::Verified
    }

    /// A verification against a DNS answer: the pending record is read, held
    /// against the answer, and the pair is confirmed when the record is there.
    pub fn verify_with_answer(&mut self, user_id: &String, domain: &String, answer: &DnsAnswer) -> (r:
        Result<VerificationResult, ChallengeError>)
        requires
            old(self).wf(),
        ensures
            final(self).wf(),
            (final(self)@, r) == verify_spec(old(self)@, (user_id@, domain@), answer@),
    {
        let expected = match self.pending_record(user_id, domain) {
            None => return Ok(VerificationResult::NotFound),
            Some(e) => e,
        };
        match judge_answer(&expected, answer) {
            Err(e) => Err(e),
            Ok(false) => Ok(VerificationResult::Mismatch),
            Ok(true) => Ok(self.confirm_match(user_id, domain)),
        }
    }

    /// The verification status of a pair; reads only.
    pub fn status(&self, user_id: &String, domain: &String) -> (r: DomainStatus)
        requires
            self.wf(),
        ensures
            r == status_spec(self@, (user_id@, domain@)),
    {
        match self.find(user_id, domain) {
            None => DomainStatus::NotFound,
            Some(i) => DomainStatus::from_stored(Some(self.rows[i].verified)),
        }
    }
}

} // verus!
