//! The domain model: the entities the engine stores, their primary keys,
//! and the well-formedness each entity keeps in every reachable state.

use vstd::prelude::*;
use crate::keyed::Keyed;

verus! {

/// What a registered user may do.  Catalog-mutating operations are
/// reserved to admins.
#[derive(Clone, Copy, Debug, PartialEq, Eq, Structural)]
pub enum Role {
    Admin,
    User,
}

/// A time-limited authenticated window, stored on the user record.
/// The token is an opaque random string; the session is valid strictly
/// before `expires_at`.
#[derive(Debug)]
pub struct SessionToken {
    pub token: String,
    pub expires_at: u64,
}

impl Clone for SessionToken {
    fn clone(&self) -> (r: Self)
        ensures
            r == *self,
    {
        SessionToken { token: self.token.clone(), expires_at: self.expires_at }
    }
}

/// A user profile.  `id` is the primary key.  `tokens` is the profile
/// counter credited by quizzes and challenges and debited by
/// redemptions; it is independent of the ledger balance.
#[derive(Debug)]
pub struct User {
    pub id: String,
    pub full_name: String,
    pub email: String,
    pub hashed_password: String,
    pub salt: String,
    pub tokens: u32,
    pub role: Role,
    pub preferred_language: String,
    pub session: Option<SessionToken>,
    pub achievements: Vec<String>,
    pub challenges_completed: Vec<String>,
    pub completed_courses: Vec<String>,
    pub passed_quizzes: Vec<String>,
    pub inbox: Vec<String>,
}

/// No two strings of the sequence read the same.
pub open spec fn strs_unique(s: Seq<String>) -> bool {
    forall|i: int, j: int|
        0 <= i < s.len() && 0 <= j < s.len() && i != j ==> #[trigger] s[i]@ != #[trigger] s[j]@
}

/// The string `x` occurs in the sequence.
pub open spec fn str_in(s: Seq<String>, x: Seq<char>) -> bool {
    exists|i: int| 0 <= i < s.len() && #[trigger] s[i]@ == x
}

/// Appending a string that does not yet occur keeps the sequence
/// duplicate-free, adds exactly that string, and disturbs no other.
pub proof fn lemma_strs_push_fresh(s: Seq<String>, x: String)
    requires
        strs_unique(s),
        !str_in(s, x@),
    ensures
        strs_unique(s.push(x)),
        str_in(s.push(x), x@),
        forall|k: Seq<char>| k != x@ ==> #[trigger] str_in(s.push(x), k) == str_in(s, k),
{
    let t = s.push(x);
    assert(t[s.len() as int]@ == x@);
    assert forall|i: int, j: int|
        0 <= i < t.len() && 0 <= j < t.len() && i != j implies #[trigger] t[i]@ != #[trigger] t[j]@ by {
        if i < s.len() && j < s.len() {
            assert(s[i]@ != s[j]@);
        } else if i < s.len() {
            assert(s[i]@ != x@);
        } else if j < s.len() {
            assert(s[j]@ != x@);
        }
    }
    assert forall|k: Seq<char>| k != x@ implies #[trigger] str_in(t, k) == str_in(s, k) by {
        if str_in(s, k) {
            let i = choose|i: int| 0 <= i < s.len() && s[i]@ == k;
            assert(t[i]@ == k);
        }
        if str_in(t, k) {
            let i = choose|i: int| 0 <= i < t.len() && t[i]@ == k;
            assert(s[i]@ == k);
        }
    }
}

impl Keyed for User {
    open spec fn key(&self) -> Seq<char> {
        self.id@
    }
}

/// The token of the session stored on the record, if there is one.
pub open spec fn stored_session_token(u: User) -> Option<Seq<char>> {
    match u.session {
        Some(t) => Some(t.token@),
        None => None,
    }
}

/// No two records carry a session with the same token.  This is
/// time-independent, so it covers the required uniqueness across the
/// active sessions in particular.
pub open spec fn session_tokens_unique(s: Seq<User>) -> bool {
    forall|i: int, j: int|
        0 <= i < s.len() && 0 <= j < s.len() && i != j && #[trigger] stored_session_token(
            s[i],
        ) is Some && #[trigger] stored_session_token(s[j]) is Some ==> stored_session_token(s[i])
            != stored_session_token(s[j])
}

/// Some record other than the one under `id` stores a session with this
/// token.
pub open spec fn token_in_use_by_other(s: Seq<User>, id: Seq<char>, token: Seq<char>) -> bool {
    exists|j: int|
        0 <= j < s.len() && s[j].id@ != id && #[trigger] stored_session_token(s[j]) == Some(token)
}

/// Appending a record with no session keeps stored tokens unique.
pub proof fn lemma_sessions_unique_push(s: Seq<User>, v: User)
    requires
        session_tokens_unique(s),
        v.session is None,
    ensures
        session_tokens_unique(s.push(v)),
{
    let t = s.push(v);
    assert forall|i: int, j: int|
        0 <= i < t.len() && 0 <= j < t.len() && i != j && #[trigger] stored_session_token(
            t[i],
        ) is Some && #[trigger] stored_session_token(t[j]) is Some implies stored_session_token(
        t[i],
    ) != stored_session_token(t[j]) by {
        assert(stored_session_token(v) is None);
        assert(i < s.len() && j < s.len());
    }
}

/// Replacing a record by one carrying the same session keeps stored
/// tokens unique.
pub proof fn lemma_sessions_unique_update_same(s: Seq<User>, i: int, v: User)
    requires
        session_tokens_unique(s),
        0 <= i < s.len(),
        v.session == s[i].session,
    ensures
        session_tokens_unique(s.update(i, v)),
{
    let t = s.update(i, v);
    assert forall|a: int, b: int|
        0 <= a < t.len() && 0 <= b < t.len() && a != b && #[trigger] stored_session_token(
            t[a],
        ) is Some && #[trigger] stored_session_token(t[b]) is Some implies stored_session_token(
        t[a],
    ) != stored_session_token(t[b]) by {
        assert(stored_session_token(t[a]) == stored_session_token(s[a]));
        assert(stored_session_token(t[b]) == stored_session_token(s[b]));
    }
}

/// Giving the record at `i` a session token that no other record
/// stores keeps stored tokens unique.
pub proof fn lemma_sessions_unique_update_token(s: Seq<User>, i: int, v: User, token: Seq<char>)
    requires
        session_tokens_unique(s),
        crate::keyed::keys_unique(s),
        0 <= i < s.len(),
        v.id@ == s[i].id@,
        stored_session_token(v) == Some(token),
        !token_in_use_by_other(s, s[i].id@, token),
    ensures
        session_tokens_unique(s.update(i, v)),
{
    let t = s.update(i, v);
    assert forall|a: int, b: int|
        0 <= a < t.len() && 0 <= b < t.len() && a != b && #[trigger] stored_session_token(
            t[a],
        ) is Some && #[trigger] stored_session_token(t[b]) is Some implies stored_session_token(
        t[a],
    ) != stored_session_token(t[b]) by {
        if a == i {
            assert(s[b].key() == s[b].id@);
            assert(s[i].key() == s[i].id@);
            assert(s[b].id@ != s[i].id@);
            assert(stored_session_token(s[b]) != Some(token));
            assert(stored_session_token(t[b]) == stored_session_token(s[b]));
        } else if b == i {
            assert(s[a].key() == s[a].id@);
            assert(s[i].key() == s[i].id@);
            assert(s[a].id@ != s[i].id@);
            assert(stored_session_token(s[a]) != Some(token));
            assert(stored_session_token(t[a]) == stored_session_token(s[a]));
        } else {
            assert(stored_session_token(t[a]) == stored_session_token(s[a]));
            assert(stored_session_token(t[b]) == stored_session_token(s[b]));
        }
    }
}

impl User {
    /// The completion records are sets: stored as sequences, but free of
    /// duplicates.
    pub open spec fn wf(&self) -> bool {
        strs_unique(self.challenges_completed@) && strs_unique(self.completed_courses@)
            && strs_unique(self.passed_quizzes@)
    }

    /// The session on the record, if any, is open at time `now`.
    pub open spec fn session_live(&self, now: u64) -> bool {
        match self.session {
            Some(t) => t.expires_at > now,
            None => false,
        }
    }
}

/// A user's latest waste measurement.  `user_id` is the primary key:
/// a new measurement overwrites the previous one.  The score is kept in
/// tenths of a unit so that the defining formula stays exact.
#[derive(Debug)]
pub struct UserFootprint {
    pub user_id: String,
    pub waste_generated: u32,
    pub recyclable_waste: u32,
    pub footprint_score_tenths: i64,
}

impl Keyed for UserFootprint {
    open spec fn key(&self) -> Seq<char> {
        self.user_id@
    }
}

/// The footprint score, in tenths: `0.7·waste − 0.5·recyclable` scaled
/// by ten.
pub open spec fn score_tenths(waste_generated: u32, recyclable_waste: u32) -> int {
    7 * waste_generated - 5 * recyclable_waste
}

impl UserFootprint {
    pub open spec fn wf(&self) -> bool {
        self.footprint_score_tenths == score_tenths(self.waste_generated, self.recyclable_waste)
    }
}

/// A quiz, keyed by its title.  Question texts, per-question options and
/// correct answers line up index by index.
#[derive(Debug)]
pub struct Quiz {
    pub title: String,
    pub level: u32,
    pub questions: Vec<String>,
    pub options: Vec<Vec<String>>,
    pub correct_answers: Vec<String>,
    pub reward: u32,
}

impl Keyed for Quiz {
    open spec fn key(&self) -> Seq<char> {
        self.title@
    }
}

impl Quiz {
    pub open spec fn wf(&self) -> bool {
        self.questions@.len() == self.options@.len() && self.questions@.len()
            == self.correct_answers@.len()
    }
}

/// One level of a course: a level number and the quiz taught at it.
#[derive(Debug)]
pub struct CourseLevel {
    pub level: u32,
    pub quiz: Quiz,
}

/// Level numbers form a mapping — each occurs once — and each level's
/// quiz is itself well-formed.
pub open spec fn course_levels_wf(levels: Seq<CourseLevel>) -> bool {
    (forall|i: int, j: int|
        0 <= i < levels.len() && 0 <= j < levels.len() && #[trigger] levels[i].level
            == #[trigger] levels[j].level ==> i == j) && (forall|i: int|
        0 <= i < levels.len() ==> (#[trigger] levels[i]).quiz.wf())
}

/// A course, keyed by its title, mapping level numbers to quizzes.
#[derive(Debug)]
pub struct Course {
    pub title: String,
    pub levels: Vec<CourseLevel>,
    pub educational_resources: Vec<String>,
}

impl Keyed for Course {
    open spec fn key(&self) -> Seq<char> {
        self.title@
    }
}

impl Course {
    pub open spec fn wf(&self) -> bool {
        course_levels_wf(self.levels@)
    }
}

/// A reward-bearing challenge, keyed by its generated id.
#[derive(Debug)]
pub struct Challenge {
    pub id: String,
    pub description: String,
    pub reward_tokens: u32,
    pub required_courses: Vec<String>,
    pub required_quizzes: Vec<String>,
    pub participants: Vec<String>,
}

impl Keyed for Challenge {
    open spec fn key(&self) -> Seq<char> {
        self.id@
    }
}

impl Challenge {
    pub open spec fn wf(&self) -> bool {
        strs_unique(self.participants@)
    }
}

/// One ledger row: the minted token balance a user owns.
#[derive(Debug)]
pub struct LedgerEntry {
    pub owner: String,
    pub balance: u32,
}

impl Keyed for LedgerEntry {
    open spec fn key(&self) -> Seq<char> {
        self.owner@
    }
}

/// What a notification announces.
#[derive(Clone, Copy, Debug, PartialEq, Eq, Structural)]
pub enum NotificationKind {
    CourseAdded,
    ChallengeAdded,
    ChallengeStarted,
    ChallengeParticipated,
    ChallengeReminder,
    AchievementShared,
}

/// The reserved recipient naming the broadcast queue every user may read.
pub open spec fn spec_broadcast_recipient() -> Seq<char> {
    "all"@
}

/// An immutable entry of a per-recipient notification queue.  The
/// recipient is a user id, or `"all"` for a broadcast.
#[derive(Debug)]
pub struct Notification {
    pub recipient: String,
    pub message: String,
    pub timestamp: u64,
    pub kind: NotificationKind,
}

impl Clone for Notification {
    fn clone(&self) -> (r: Self)
        ensures
            r == *self,
    {
        Notification {
            recipient: self.recipient.clone(),
            message: self.message.clone(),
            timestamp: self.timestamp,
            kind: self.kind,
        }
    }
}

/// A feedback note left by a user; the log of these is append-only.
#[derive(Debug)]
pub struct Feedback {
    pub user_id: String,
    pub text: String,
}

/// A catalog reward, keyed by its id, redeemable for a positive number
/// of profile tokens.
#[derive(Debug)]
pub struct Reward {
    pub id: String,
    pub description: String,
    pub cost_tokens: u32,
}

impl Keyed for Reward {
    open spec fn key(&self) -> Seq<char> {
        self.id@
    }
}

impl Reward {
    pub open spec fn wf(&self) -> bool {
        self.cost_tokens > 0
    }
}

/// One record of the append-only audit trail: which operation ran, and
/// when.
#[derive(Debug)]
pub struct ActionLogEntry {
    pub action: String,
    pub timestamp: u64,
}

impl Clone for ActionLogEntry {
    fn clone(&self) -> (r: Self)
        ensures
            r == *self,
    {
        ActionLogEntry { action: self.action.clone(), timestamp: self.timestamp }
    }
}

} // verus!
