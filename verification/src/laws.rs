//! The engine's laws: properties that tie the handlers' contracts
//! together, stated over the same spec functions the contracts use.

use vstd::prelude::*;
use crate::accounts::login_post;
use crate::accounts::register_post;
use crate::collaborators::pw_digest;
use crate::domain::Role;
use crate::domain::score_tenths;
use crate::domain::session_tokens_unique;
use crate::domain::str_in;
use crate::domain::strs_unique;
use crate::engine::Engine;
use crate::engine::SESSION_TTL_SECS;
use crate::engine::log_appended;
use crate::errors::AppError;
use crate::keyed::key_idx;

verus! {

/// Token counters never go negative: every user's profile counter and
/// every ledger row's balance is at least zero, in every state.
pub proof fn lemma_counters_nonnegative(s: Engine)
    ensures
        forall|k: Seq<char>| #[trigger] s.has_user(k) ==> s.user_of(k).tokens >= 0,
        forall|k: Seq<char>| #[trigger] s.in_ledger(k) ==> s.balance_of(k) >= 0,
{
}

/// The completion records stored as sequences are sets: in any
/// well-formed state, a user's passed quizzes, completed courses and
/// completed challenges hold no duplicates.
pub proof fn lemma_completion_records_are_sets(s: Engine, id: Seq<char>)
    requires
        s.wf(),
        s.has_user(id),
    ensures
        strs_unique(s.user_of(id).passed_quizzes@),
        strs_unique(s.user_of(id).completed_courses@),
        strs_unique(s.user_of(id).challenges_completed@),
{
    assert(s.users@[key_idx(s.users@, id)].wf());
}

/// A challenge's participant list holds no duplicates in any
/// well-formed state.
pub proof fn lemma_participants_are_set(s: Engine, cid: Seq<char>)
    requires
        s.wf(),
        s.has_challenge(cid),
    ensures
        strs_unique(s.challenge_of(cid).participants@),
{
    assert(s.challenges@[key_idx(s.challenges@, cid)].wf());
}

/// Every stored footprint satisfies the defining formula: the score in
/// tenths equals `7·waste − 5·recyclable`.
pub proof fn lemma_footprint_formula(s: Engine, uid: Seq<char>)
    requires
        s.wf(),
        s.has_footprint(uid),
    ensures
        s.footprint_of(uid).footprint_score_tenths == score_tenths(
            s.footprint_of(uid).waste_generated,
            s.footprint_of(uid).recyclable_waste,
        ),
{
    assert(s.footprints@[key_idx(s.footprints@, uid)].wf());
}

/// The audit trail only grows: a successful mutation appends one record
/// and keeps every earlier record in place, so the log length is
/// monotonically non-decreasing across successful mutations.
pub proof fn lemma_log_monotone(pre: Engine, post: Engine, action: Seq<char>, now: u64)
    requires
        log_appended(pre, post, action, now),
    ensures
        post.action_log@.len() == pre.action_log@.len() + 1,
        forall|i: int|
            0 <= i < pre.action_log@.len() ==> post.action_log@[i] == #[trigger] pre.action_log@[i],
{
    assert forall|i: int|
        0 <= i < pre.action_log@.len() implies post.action_log@[i] == #[trigger] pre.action_log@[i] by {
        assert(post.action_log@.drop_last()[i] == post.action_log@[i]);
    }
}

/// Registration round-trip: after a successful registration the stored
/// record — which `get_user` returns — carries exactly the registered
/// attributes, a zero token counter and the salted digest in place of
/// the password, which itself is not stored.
pub proof fn lemma_register_then_get(
    pre: Engine,
    post: Engine,
    id: Seq<char>,
    full_name: Seq<char>,
    email: Seq<char>,
    password: Seq<char>,
    role: Role,
    preferred_language: Seq<char>,
    salt: Seq<char>,
    now: u64,
)
    requires
        register_post(pre, post, id, full_name, email, password, role, preferred_language, salt, now),
    ensures
        post.has_user(id),
        post.user_of(id).full_name@ == full_name,
        post.user_of(id).email@ == email,
        post.user_of(id).role == role,
        post.user_of(id).preferred_language@ == preferred_language,
        post.user_of(id).tokens == 0,
        post.user_of(id).hashed_password@ == pw_digest(password, salt),
{
}

/// Mint–burn round-trip: after minting `a` the balance suffices to burn
/// `a`, and burning it restores the balance the ledger held before the
/// mint.
pub proof fn lemma_mint_then_burn(s0: Engine, s1: Engine, s2: Engine, u: Seq<char>, a: u32)
    requires
        s1.in_ledger(u),
        s1.balance_of(u) == s0.balance_of(u) + a,
        s2.balance_of(u) == s1.balance_of(u) - a,
    ensures
        s1.balance_of(u) >= a,
        s2.balance_of(u) == s0.balance_of(u),
{
}

/// Burning the whole balance succeeds and leaves exactly zero: with
/// `a == balance`, the burn contract's error chain yields `Ok` and the
/// new balance is zero.
pub proof fn lemma_burn_all(
    pre: Engine,
    post: Engine,
    u: Seq<char>,
    a: u32,
    r: Result<(), AppError>,
)
    requires
        pre.in_ledger(u),
        a == pre.balance_of(u),
        r == (if !pre.in_ledger(u) {
            Err::<(), AppError>(AppError::UserNotFoundInLedger)
        } else if pre.balance_of(u) < a {
            Err::<(), AppError>(AppError::InsufficientBalance)
        } else {
            Ok::<(), AppError>(())
        }),
        r is Ok ==> post.balance_of(u) == pre.balance_of(u) - a,
    ensures
        r == Ok::<(), AppError>(()),
        post.balance_of(u) == 0,
{
}

/// An overdrawn transfer moves nothing: with `amount` above the
/// sender's balance, the transfer contract's error chain yields
/// `InsufficientBalance`, and a failed transfer leaves the whole
/// snapshot, both ledgers with it, untouched.
pub proof fn lemma_overdrawn_transfer(
    pre: Engine,
    post: Engine,
    from: Seq<char>,
    to: Seq<char>,
    amount: u32,
    r: Result<(), AppError>,
)
    requires
        pre.in_ledger(from),
        pre.balance_of(from) < amount,
        r == (if !pre.in_ledger(from) {
            Err::<(), AppError>(AppError::UserNotFoundInLedger)
        } else if pre.balance_of(from) < amount {
            Err::<(), AppError>(AppError::InsufficientBalance)
        } else {
            Ok::<(), AppError>(())
        }),
        r is Err ==> post == pre,
    ensures
        r == Err::<(), AppError>(AppError::InsufficientBalance),
        post == pre,
        post.balance_of(from) == pre.balance_of(from),
        post.balance_of(to) == pre.balance_of(to),
{
}

/// Passing a quiz is idempotent: after a successful first pass the quiz
/// stands on the user's record, so the pass-quiz contract sends any
/// further call down its already-passed branch, which credits nothing.
pub proof fn lemma_pass_quiz_idempotent(s0: Engine, s1: Engine, uid: Seq<char>, title: String)
    requires
        s1.user_of(uid).passed_quizzes@ == s0.user_of(uid).passed_quizzes@.push(title),
    ensures
        str_in(s1.user_of(uid).passed_quizzes@, title@),
{
    let q = s1.user_of(uid).passed_quizzes@;
    assert(q[q.len() - 1]@ == title@);
}

/// Session tokens are unique across stored sessions — and so across
/// the active ones in particular — in every well-formed state; login
/// enforces it by refusing a drawn token another user already stores.
pub proof fn lemma_session_tokens_unique(s: Engine)
    requires
        s.wf(),
    ensures
        session_tokens_unique(s.users@),
{
}

/// Sessions expire after the TTL: one TTL after a login, the stored
/// session is no longer live, so every session-guarded handler answers
/// `SessionExpired` by its contract.
pub proof fn lemma_session_expiry(
    pre: Engine,
    post: Engine,
    id: Seq<char>,
    token: Seq<char>,
    now: u64,
    later: u64,
)
    requires
        login_post(pre, post, id, token, now),
        later >= now + SESSION_TTL_SECS,
    ensures
        !post.user_of(id).session_live(later),
{
}

} // verus!
