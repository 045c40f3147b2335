//! What holds of the workflow across calls, stated over the store's contents.

use vstd::prelude::*;
use crate::challenge::{txt_holds, ChallengeError, VerificationResult};
use crate::store::{
    issue_spec, mark_spec, model_ok, token_used, verify_spec, ChallengeModel, IssueView, Pair,
    StoreModel,
};

verus! {

/// The challenge an issue outcome hands out, if any.
pub open spec fn issued(v: Result<IssueView, ChallengeError>) -> Option<ChallengeModel> {
    match v {
        Ok(IssueView::Existing(c)) => Some(c),
        Ok(IssueView::Created(c)) => Some(c),
        _ => None,
    }
}

/// `n` conditional updates of `k`, one after another: the contents afterwards
/// and the number of rows they changed in all.
pub open spec fn mark_times(m: StoreModel, k: Pair, n: nat) -> (StoreModel, nat)
    decreases n,
{
    if n == 0 {
        (m, 0)
    } else {
        let (m1, c1) = mark_spec(m, k);
        let (m2, c2) = mark_times(m1, k, (n - 1) as nat);
        (m2, c1 + c2)
    }
}

/// A challenge request keeps the store's invariant.
pub proof fn lemma_issue_keeps_invariant(m: StoreModel, u: Seq<char>, d: Seq<char>, t: Seq<char>)
    requires
        model_ok(m),
    ensures
        model_ok(issue_spec(m, u, d, t).0),
        forall|k: Pair| #[trigger]
            m.contains_key(k) ==> issue_spec(m, u, d, t).0.contains_key(k) && issue_spec(
                m,
                u,
                d,
                t,
            ).0[k] == m[k],
        issued(issue_spec(m, u, d, t).1) matches Some(c) ==> issue_spec(m, u, d, t).0.contains_key(
            (u, d),
        ) && issue_spec(m, u, d, t).0[(u, d)] == c,
{
    let m1 = issue_spec(m, u, d, t).0;
    if m1 != m {
        assert forall|k1: Pair, k2: Pair|
            m1.contains_key(k1) && m1.contains_key(k2) && k1 != k2 implies #[trigger] m1[k1].token
            != #[trigger] m1[k2].token by {
            if k1 == (u, d) {
                assert(!token_used(m, t) && m.contains_key(k2));
            } else if k2 == (u, d) {
                assert(!token_used(m, t) && m.contains_key(k1));
            }
        }
    }
}

/// Asking twice for a challenge for the same pair, before it is verified,
/// hands out the same challenge, with the same token, and the second request
/// changes nothing, whatever token it would have used for a new challenge.
pub proof fn lemma_reissue_same_token(
    m: StoreModel,
    u: Seq<char>,
    d: Seq<char>,
    t1: Seq<char>,
    t2: Seq<char>,
)
    requires
        model_ok(m),
        issued(issue_spec(m, u, d, t1).1) is Some,
    ensures
        ({
            let (m1, r1) = issue_spec(m, u, d, t1);
            let (m2, r2) = issue_spec(m1, u, d, t2);
            &&& m2 == m1
            &&& r2 == Ok::<IssueView, ChallengeError>(IssueView::Existing(issued(r1)->0))
            &&& issued(r2)->0.token == issued(r1)->0.token
        }),
{
    lemma_issue_keeps_invariant(m, u, d, t1);
}

/// In a store that keeps its invariant, two different pairs never hold the
/// same token.
pub proof fn lemma_tokens_unique(m: StoreModel, k1: Pair, k2: Pair)
    requires
        model_ok(m),
        m.contains_key(k1),
        m.contains_key(k2),
        k1 != k2,
    ensures
        m[k1].token != m[k2].token,
{
}

/// Two challenge requests for two different pairs, one after the other, hand
/// out different tokens.
pub proof fn lemma_issued_tokens_differ(
    m: StoreModel,
    u1: Seq<char>,
    d1: Seq<char>,
    t1: Seq<char>,
    u2: Seq<char>,
    d2: Seq<char>,
    t2: Seq<char>,
)
    requires
        model_ok(m),
        (u1, d1) != (u2, d2),
        issued(issue_spec(m, u1, d1, t1).1) is Some,
        issued(issue_spec(issue_spec(m, u1, d1, t1).0, u2, d2, t2).1) is Some,
    ensures
        issued(issue_spec(m, u1, d1, t1).1)->0.token != issued(
            issue_spec(issue_spec(m, u1, d1, t1).0, u2, d2, t2).1,
        )->0.token,
{
    let m1 = issue_spec(m, u1, d1, t1).0;
    lemma_issue_keeps_invariant(m, u1, d1, t1);
    lemma_issue_keeps_invariant(m1, u2, d2, t2);
    let m2 = issue_spec(m1, u2, d2, t2).0;
    assert(m2.contains_key((u1, d1)) && m2.contains_key((u2, d2)));
    lemma_tokens_unique(m2, (u1, d1), (u2, d2));
}

/// Once a pair is verified, no verification, whatever DNS answers, and no
/// challenge request changes what is stored for it or its status.
pub proof fn lemma_verified_is_final(
    m: StoreModel,
    k: Pair,
    answer: Option<Seq<Seq<char>>>,
    t: Seq<char>,
)
    requires
        m.contains_key(k),
        m[k].verified,
    ensures
        verify_spec(m, k, answer) == (m, Ok::<VerificationResult, ChallengeError>(
            VerificationResult::NotFound,
        )),
        mark_spec(m, k) == (m, 0nat),
        issue_spec(m, k.0, k.1, t) == (m, Ok::<IssueView, ChallengeError>(
            IssueView::AlreadyVerified,
        )) || issue_spec(m, k.0, k.1, t) == (m, Err::<IssueView, ChallengeError>(
            ChallengeError::InvalidInput,
        )),
{
}

/// No verification, whatever DNS answers, removes a challenge, changes a
/// token or a record, or turns a verified pair back to pending.
pub proof fn lemma_verify_never_demotes(m: StoreModel, k: Pair, answer: Option<Seq<Seq<char>>>)
    ensures
        forall|k2: Pair| #[trigger]
            m.contains_key(k2) ==> {
                let m1 = verify_spec(m, k, answer).0;
                &&& m1.contains_key(k2)
                &&& m1[k2].token == m[k2].token
                &&& m1[k2].record == m[k2].record
                &&& (m[k2].verified ==> m1[k2].verified)
            },
        verify_spec(m, k, answer).0.dom() == m.dom(),
{
    assert(verify_spec(m, k, answer).0.dom() =~= m.dom());
}

/// Any number of verifications of a pending pair that all found the record
/// and then each make the conditional update, one after another, change the
/// store exactly once: together they change one row, and the store ends as
/// after a single update, with the pair verified and its token kept.
pub proof fn lemma_concurrent_confirms(m: StoreModel, k: Pair, n: nat)
    requires
        m.contains_key(k),
        !m[k].verified,
        n >= 1,
    ensures
        mark_times(m, k, n) == (mark_spec(m, k).0, 1nat),
        mark_spec(m, k).0[k] == (ChallengeModel { verified: true, ..m[k] }),
    decreases n,
{
    let m1 = mark_spec(m, k).0;
    lemma_marks_after_verified(m1, k, (n - 1) as nat);
}

/// Updates of a pair that is verified change nothing.
pub proof fn lemma_marks_after_verified(m: StoreModel, k: Pair, n: nat)
    requires
        m.contains_key(k),
        m[k].verified,
    ensures
        mark_times(m, k, n) == (m, 0nat),
    decreases n,
{
    if n > 0 {
        lemma_marks_after_verified(m, k, (n - 1) as nat);
    }
}

/// A verification whose DNS answer lacks the expected record leaves the store
/// as it was and reports a mismatch.
pub proof fn lemma_mismatch_keeps_store(m: StoreModel, k: Pair, records: Seq<Seq<char>>)
    requires
        m.contains_key(k),
        !m[k].verified,
        !txt_holds(records, m[k].record),
    ensures
        verify_spec(m, k, Some(records)) == (m, Ok::<VerificationResult, ChallengeError>(
            VerificationResult::Mismatch,
        )),
{
}

} // verus!
