//! The engine: the complete domain snapshot and the helpers every
//! request handler shares — keyed lookups, the append-only action log,
//! and the notification queues.

use vstd::prelude::*;
use vstd::pervasive::VecAdditionalExecFns;
use crate::domain::ActionLogEntry;
use crate::domain::Challenge;
use crate::domain::Course;
use crate::domain::Feedback;
use crate::domain::LedgerEntry;
use crate::domain::Notification;
use crate::domain::NotificationKind;
use crate::domain::Quiz;
use crate::domain::Reward;
use crate::domain::User;
use crate::domain::UserFootprint;
use crate::domain::str_in;
use crate::keyed::entry_of;
use crate::keyed::has_key;
use crate::keyed::key_idx;
use crate::keyed::keys_unique;
use crate::keyed::lemma_key_at_index;

verus! {

/// How long a session stays open, in seconds.
pub const SESSION_TTL_SECS: u64 = 3600;

/// The complete domain state, loaded and stored as one snapshot.  The
/// field order is the persisted ten-tuple order; changing it is a
/// breaking schema change.
pub struct Engine {
    pub users: Vec<User>,
    pub footprints: Vec<UserFootprint>,
    pub quizzes: Vec<Quiz>,
    pub challenges: Vec<Challenge>,
    pub ledger: Vec<LedgerEntry>,
    pub action_log: Vec<ActionLogEntry>,
    pub courses: Vec<Course>,
    pub notifications: Vec<Notification>,
    pub feedbacks: Vec<Feedback>,
    pub rewards: Vec<Reward>,
}

impl Engine {
    /// Every reachable snapshot keeps these invariants: unique primary
    /// keys throughout, pairwise-distinct stored session tokens,
    /// duplicate-free completion records, the footprint score formula,
    /// aligned quiz columns, and positive reward costs.
    pub open spec fn wf(self) -> bool {
        keys_unique(self.users@) && (forall|i: int|
            0 <= i < self.users@.len() ==> (#[trigger] self.users@[i]).wf())
            && crate::domain::session_tokens_unique(self.users@) && keys_unique(
            self.footprints@,
        ) && (forall|i: int|
            0 <= i < self.footprints@.len() ==> (#[trigger] self.footprints@[i]).wf())
            && keys_unique(self.quizzes@) && (forall|i: int|
            0 <= i < self.quizzes@.len() ==> (#[trigger] self.quizzes@[i]).wf()) && keys_unique(
            self.courses@,
        ) && (forall|i: int| 0 <= i < self.courses@.len() ==> (#[trigger] self.courses@[i]).wf())
            && keys_unique(self.challenges@) && (forall|i: int|
            0 <= i < self.challenges@.len() ==> (#[trigger] self.challenges@[i]).wf())
            && keys_unique(self.ledger@) && keys_unique(self.rewards@) && (forall|i: int|
            0 <= i < self.rewards@.len() ==> (#[trigger] self.rewards@[i]).wf())
    }

    pub open spec fn has_user(self, id: Seq<char>) -> bool {
        has_key(self.users@, id)
    }

    pub open spec fn user_of(self, id: Seq<char>) -> User {
        entry_of(self.users@, id)
    }

    pub open spec fn has_footprint(self, user_id: Seq<char>) -> bool {
        has_key(self.footprints@, user_id)
    }

    pub open spec fn footprint_of(self, user_id: Seq<char>) -> UserFootprint {
        entry_of(self.footprints@, user_id)
    }

    pub open spec fn has_quiz(self, title: Seq<char>) -> bool {
        has_key(self.quizzes@, title)
    }

    pub open spec fn quiz_of(self, title: Seq<char>) -> Quiz {
        entry_of(self.quizzes@, title)
    }

    pub open spec fn has_course(self, title: Seq<char>) -> bool {
        has_key(self.courses@, title)
    }

    pub open spec fn course_of(self, title: Seq<char>) -> Course {
        entry_of(self.courses@, title)
    }

    pub open spec fn has_challenge(self, id: Seq<char>) -> bool {
        has_key(self.challenges@, id)
    }

    pub open spec fn challenge_of(self, id: Seq<char>) -> Challenge {
        entry_of(self.challenges@, id)
    }

    pub open spec fn in_ledger(self, owner: Seq<char>) -> bool {
        has_key(self.ledger@, owner)
    }

    pub open spec fn ledger_entry_of(self, owner: Seq<char>) -> LedgerEntry {
        entry_of(self.ledger@, owner)
    }

    /// The ledger balance under `owner`, counting an absent row as zero.
    pub open spec fn balance_of(self, owner: Seq<char>) -> int {
        if self.in_ledger(owner) {
            self.ledger_entry_of(owner).balance as int
        } else {
            0
        }
    }

    pub open spec fn has_reward(self, id: Seq<char>) -> bool {
        has_key(self.rewards@, id)
    }

    pub open spec fn reward_of(self, id: Seq<char>) -> Reward {
        entry_of(self.rewards@, id)
    }

    /// Whether a user under `id` exists and carries the admin role.
    pub open spec fn is_admin(self, id: Seq<char>) -> bool {
        self.has_user(id) && self.user_of(id).role == crate::domain::Role::Admin
    }

    /// The freshly initialized state: every collection empty.
    pub fn new() -> (r: Engine)
        ensures
            r.wf(),
            r.users@ =~= Seq::<User>::empty(),
            r.footprints@ =~= Seq::<UserFootprint>::empty(),
            r.quizzes@ =~= Seq::<Quiz>::empty(),
            r.challenges@ =~= Seq::<Challenge>::empty(),
            r.ledger@ =~= Seq::<LedgerEntry>::empty(),
            r.action_log@ =~= Seq::<ActionLogEntry>::empty(),
            r.courses@ =~= Seq::<Course>::empty(),
            r.notifications@ =~= Seq::<Notification>::empty(),
            r.feedbacks@ =~= Seq::<Feedback>::empty(),
            r.rewards@ =~= Seq::<Reward>::empty(),
    {
        Engine {
            users: Vec::new(),
            footprints: Vec::new(),
            quizzes: Vec::new(),
            challenges: Vec::new(),
            ledger: Vec::new(),
            action_log: Vec::new(),
            courses: Vec::new(),
            notifications: Vec::new(),
            feedbacks: Vec::new(),
            rewards: Vec::new(),
        }
    }

    pub(crate) fn find_user(&self, id: &String) -> (r: Option<usize>)
        requires
            keys_unique(self.users@),
        ensures
            match r {
                Some(i) => self.has_user(id@) && i < self.users@.len() && key_idx(self.users@, id@)
                    == i as int && self.users@[i as int] == self.user_of(id@),
                None => !self.has_user(id@),
            },
    {
        let n = self.users.len();
        for i in 0..n
            invariant
                keys_unique(self.users@),
                n == self.users@.len(),
                forall|j: int| 0 <= j < i ==> #[trigger] self.users@[j].id@ != id@,
        {
            if self.users[i].id == *id {
                proof {
                    lemma_key_at_index(self.users@, i as int);
                }
                return Some(i);
            }
        }
        None
    }

    pub(crate) fn find_footprint(&self, user_id: &String) -> (r: Option<usize>)
        requires
            keys_unique(self.footprints@),
        ensures
            match r {
                Some(i) => self.has_footprint(user_id@) && i < self.footprints@.len() && key_idx(
                    self.footprints@,
                    user_id@,
                ) == i as int && self.footprints@[i as int] == self.footprint_of(user_id@),
                None => !self.has_footprint(user_id@),
            },
    {
        let n = self.footprints.len();
        for i in 0..n
            invariant
                keys_unique(self.footprints@),
                n == self.footprints@.len(),
                forall|j: int| 0 <= j < i ==> #[trigger] self.footprints@[j].user_id@ != user_id@,
        {
            if self.footprints[i].user_id == *user_id {
                proof {
                    lemma_key_at_index(self.footprints@, i as int);
                }
                return Some(i);
            }
        }
        None
    }

    pub(crate) fn find_quiz(&self, title: &String) -> (r: Option<usize>)
        requires
            keys_unique(self.quizzes@),
        ensures
            match r {
                Some(i) => self.has_quiz(title@) && i < self.quizzes@.len() && key_idx(
                    self.quizzes@,
                    title@,
                ) == i as int && self.quizzes@[i as int] == self.quiz_of(title@),
                None => !self.has_quiz(title@),
            },
    {
        let n = self.quizzes.len();
        for i in 0..n
            invariant
                keys_unique(self.quizzes@),
                n == self.quizzes@.len(),
                forall|j: int| 0 <= j < i ==> #[trigger] self.quizzes@[j].title@ != title@,
        {
            if self.quizzes[i].title == *title {
                proof {
                    lemma_key_at_index(self.quizzes@, i as int);
                }
                return Some(i);
            }
        }
        None
    }

    pub(crate) fn find_course(&self, title: &String) -> (r: Option<usize>)
        requires
            keys_unique(self.courses@),
        ensures
            match r {
                Some(i) => self.has_course(title@) && i < self.courses@.len() && key_idx(
                    self.courses@,
                    title@,
                ) == i as int && self.courses@[i as int] == self.course_of(title@),
                None => !self.has_course(title@),
            },
    {
        let n = self.courses.len();
        for i in 0..n
            invariant
                keys_unique(self.courses@),
                n == self.courses@.len(),
                forall|j: int| 0 <= j < i ==> #[trigger] self.courses@[j].title@ != title@,
        {
            if self.courses[i].title == *title {
                proof {
                    lemma_key_at_index(self.courses@, i as int);
                }
                return Some(i);
            }
        }
        None
    }

    pub(crate) fn find_challenge(&self, id: &String) -> (r: Option<usize>)
        requires
            keys_unique(self.challenges@),
        ensures
            match r {
                Some(i) => self.has_challenge(id@) && i < self.challenges@.len() && key_idx(
                    self.challenges@,
                    id@,
                ) == i as int && self.challenges@[i as int] == self.challenge_of(id@),
                None => !self.has_challenge(id@),
            },
    {
        let n = self.challenges.len();
        for i in 0..n
            invariant
                keys_unique(self.challenges@),
                n == self.challenges@.len(),
                forall|j: int| 0 <= j < i ==> #[trigger] self.challenges@[j].id@ != id@,
        {
            if self.challenges[i].id == *id {
                proof {
                    lemma_key_at_index(self.challenges@, i as int);
                }
                return Some(i);
            }
        }
        None
    }

    pub(crate) fn find_ledger(&self, owner: &String) -> (r: Option<usize>)
        requires
            keys_unique(self.ledger@),
        ensures
            match r {
                Some(i) => self.in_ledger(owner@) && i < self.ledger@.len() && key_idx(
                    self.ledger@,
                    owner@,
                ) == i as int && self.ledger@[i as int] == self.ledger_entry_of(owner@),
                None => !self.in_ledger(owner@),
            },
    {
        let n = self.ledger.len();
        for i in 0..n
            invariant
                keys_unique(self.ledger@),
                n == self.ledger@.len(),
                forall|j: int| 0 <= j < i ==> #[trigger] self.ledger@[j].owner@ != owner@,
        {
            if self.ledger[i].owner == *owner {
                proof {
                    lemma_key_at_index(self.ledger@, i as int);
                }
                return Some(i);
            }
        }
        None
    }

    pub(crate) fn find_reward(&self, id: &String) -> (r: Option<usize>)
        requires
            keys_unique(self.rewards@),
        ensures
            match r {
                Some(i) => self.has_reward(id@) && i < self.rewards@.len() && key_idx(
                    self.rewards@,
                    id@,
                ) == i as int && self.rewards@[i as int] == self.reward_of(id@),
                None => !self.has_reward(id@),
            },
    {
        let n = self.rewards.len();
        for i in 0..n
            invariant
                keys_unique(self.rewards@),
                n == self.rewards@.len(),
                forall|j: int| 0 <= j < i ==> #[trigger] self.rewards@[j].id@ != id@,
        {
            if self.rewards[i].id == *id {
                proof {
                    lemma_key_at_index(self.rewards@, i as int);
                }
                return Some(i);
            }
        }
        None
    }

    /// Appends one audit record; every successful mutation runs through
    /// here, so the log length never decreases.
    pub(crate) fn append_log(&mut self, action: &str, now: u64)
        ensures
            log_appended(*old(self), *final(self), action@, now),
            final(self).users == old(self).users,
            final(self).footprints == old(self).footprints,
            final(self).quizzes == old(self).quizzes,
            final(self).challenges == old(self).challenges,
            final(self).ledger == old(self).ledger,
            final(self).courses == old(self).courses,
            final(self).notifications == old(self).notifications,
            final(self).feedbacks == old(self).feedbacks,
            final(self).rewards == old(self).rewards,
            *final(self) == (Engine { action_log: final(self).action_log, ..*old(self) }),
    {
        let entry = ActionLogEntry { action: action.to_owned(), timestamp: now };
        self.action_log.push(entry);
        proof {
            assert(final(self).action_log@.drop_last() =~= old(self).action_log@);
        }
    }

    /// Appends one notification to the flat queue store; a queue is the
    /// subsequence of entries naming its recipient.
    pub(crate) fn push_notification(
        &mut self,
        recipient: String,
        message: String,
        now: u64,
        kind: NotificationKind,
    )
        ensures
            notif_appended(*old(self), *final(self), recipient@, message@, now, kind),
            final(self).users == old(self).users,
            final(self).footprints == old(self).footprints,
            final(self).quizzes == old(self).quizzes,
            final(self).challenges == old(self).challenges,
            final(self).ledger == old(self).ledger,
            final(self).action_log == old(self).action_log,
            final(self).courses == old(self).courses,
            final(self).feedbacks == old(self).feedbacks,
            final(self).rewards == old(self).rewards,
            *final(self) == (Engine { notifications: final(self).notifications, ..*old(self) }),
    {
        self.notifications.push(Notification { recipient, message, timestamp: now, kind });
        proof {
            assert(final(self).notifications@.drop_last() =~= old(self).notifications@);
        }
    }
}

/// One notification appended for `recipient`: the queues after a
/// broadcast or a direct send are the old ones plus this entry.
pub open spec fn notif_appended(
    pre: Engine,
    post: Engine,
    recipient: Seq<char>,
    message: Seq<char>,
    now: u64,
    kind: NotificationKind,
) -> bool {
    post.notifications@.len() == pre.notifications@.len() + 1 && post.notifications@.drop_last()
        == pre.notifications@ && post.notifications@.last().recipient@ == recipient
        && post.notifications@.last().message@ == message && post.notifications@.last().timestamp
        == now && post.notifications@.last().kind == kind
}

/// The audit trail after a successful mutation: the old log plus one
/// record naming the operation and its timestamp.
pub open spec fn log_appended(pre: Engine, post: Engine, action: Seq<char>, now: u64) -> bool {
    post.action_log@.len() == pre.action_log@.len() + 1 && post.action_log@.drop_last()
        == pre.action_log@ && post.action_log@.last().action@ == action
        && post.action_log@.last().timestamp == now
}

/// Whether every string of `req` occurs in `have`.
pub open spec fn all_in(req: Seq<String>, have: Seq<String>) -> bool {
    forall|i: int| 0 <= i < req.len() ==> str_in(have, #[trigger] req[i]@)
}

/// Linear membership test against a duplicate-free or arbitrary list.
pub(crate) fn contains_string(v: &Vec<String>, x: &String) -> (r: bool)
    ensures
        r == str_in(v@, x@),
{
    let n = v.len();
    for i in 0..n
        invariant
            n == v@.len(),
            forall|j: int| 0 <= j < i ==> #[trigger] v@[j]@ != x@,
    {
        if v[i] == *x {
            return true;
        }
    }
    false
}

/// Whether every string of `req` occurs in `have`, checked pairwise.
pub(crate) fn contains_all(req: &Vec<String>, have: &Vec<String>) -> (r: bool)
    ensures
        r == all_in(req@, have@),
{
    let n = req.len();
    for i in 0..n
        invariant
            n == req@.len(),
            forall|j: int| 0 <= j < i ==> str_in(have@, #[trigger] req@[j]@),
    {
        if !contains_string(have, &req[i]) {
            return false;
        }
    }
    true
}

} // verus!
