//! The catalog: courses, quizzes, challenges and redeemable rewards.
//! Mutating the catalog is reserved to admins.

use vstd::prelude::*;
use vstd::string::StringExecFns;
use crate::collaborators::fresh_uuid;
use crate::collaborators::now_secs;
use crate::domain::Challenge;
use crate::domain::Course;
use crate::domain::CourseLevel;
use crate::domain::NotificationKind;
use crate::domain::Quiz;
use crate::domain::Reward;
use crate::engine::Engine;
use crate::engine::log_appended;
use crate::engine::notif_appended;
use crate::errors::AppError;
use crate::keyed::entry_of;
use crate::keyed::has_key;
use crate::keyed::lemma_push_fresh;

verus! {

/// The successful challenge-creation transition: the catalog gains one
/// challenge with no participants under the fresh id, the broadcast
/// queue announces it, and one audit record is appended.
pub open spec fn add_challenge_post(
    pre: Engine,
    post: Engine,
    challenge_id: Seq<char>,
    description: Seq<char>,
    reward_tokens: u32,
    required_courses: Seq<String>,
    required_quizzes: Seq<String>,
    now: u64,
) -> bool {
    &&& !pre.has_challenge(challenge_id)
    &&& post.has_challenge(challenge_id)
    &&& ({
        let c = post.challenge_of(challenge_id);
        &&& c.id@ == challenge_id
        &&& c.description@ == description
        &&& c.reward_tokens == reward_tokens
        &&& c.required_courses@ == required_courses
        &&& c.required_quizzes@ == required_quizzes
        &&& c.participants@.len() == 0
    })
    &&& forall|k: Seq<char>|
        k != challenge_id ==> #[trigger] has_key(post.challenges@, k) == has_key(pre.challenges@, k)
    &&& forall|k: Seq<char>|
        k != challenge_id && has_key(pre.challenges@, k) ==> #[trigger] entry_of(
            post.challenges@,
            k,
        ) == entry_of(pre.challenges@, k)
    &&& notif_appended(
        pre,
        post,
        crate::domain::spec_broadcast_recipient(),
        "A new challenge has been added: "@ + description,
        now,
        NotificationKind::ChallengeAdded,
    )
    &&& log_appended(pre, post, "add_challenge"@, now)
    &&& post == (Engine {
        challenges: post.challenges,
        notifications: post.notifications,
        action_log: post.action_log,
        ..pre
    })
}

impl Engine {
    /// Whether the acting user exists and is an admin.
    pub(crate) fn actor_is_admin(&self, actor_id: &String) -> (r: bool)
        requires
            crate::keyed::keys_unique(self.users@),
        ensures
            r == self.is_admin(actor_id@),
    {
        match self.find_user(actor_id) {
            Some(i) => self.users[i].role == crate::domain::Role::Admin,
            None => false,
        }
    }

    /// Adds a course to the catalog and announces it to everyone.
    /// Admin-only; fails when the title is taken or the level numbers
    /// collide.
    pub fn add_course(
        &mut self,
        actor_id: String,
        title: String,
        levels: Vec<CourseLevel>,
        educational_resources: Vec<String>,
        now: u64,
    ) -> (r: Result<(), AppError>)
        requires
            old(self).wf(),
        ensures
            final(self).wf(),
            r == (if !old(self).is_admin(actor_id@) {
                Err::<(), AppError>(AppError::ValidationError)
            } else if old(self).has_course(title@) {
                Err::<(), AppError>(AppError::CourseAlreadyExists)
            } else if !crate::domain::course_levels_wf(levels@) {
                Err::<(), AppError>(AppError::ValidationError)
            } else {
                Ok::<(), AppError>(())
            }),
            r is Err ==> *final(self) == *old(self),
            r is Ok ==> {
                &&& final(self).has_course(title@)
                &&& final(self).course_of(title@) == (Course {
                    title,
                    levels,
                    educational_resources,
                })
                &&& forall|k: Seq<char>|
                    k != title@ ==> #[trigger] has_key(final(self).courses@, k) == has_key(
                        old(self).courses@,
                        k,
                    )
                &&& forall|k: Seq<char>|
                    k != title@ && has_key(old(self).courses@, k) ==> #[trigger] entry_of(
                        final(self).courses@,
                        k,
                    ) == entry_of(old(self).courses@, k)
                &&& notif_appended(
                    *old(self),
                    *final(self),
                    crate::domain::spec_broadcast_recipient(),
                    "A new course has been created: "@ + title@,
                    now,
                    NotificationKind::CourseAdded,
                )
                &&& log_appended(*old(self), *final(self), "add_course"@, now)
                &&& *final(self) == (Engine {
                    courses: final(self).courses,
                    notifications: final(self).notifications,
                    action_log: final(self).action_log,
                    ..*old(self)
                })
            },
    {
        if !self.actor_is_admin(&actor_id) {
            return Err(AppError::ValidationError);
        }
        if self.find_course(&title).is_some() {
            return Err(AppError::CourseAlreadyExists);
        }
        if !course_levels_ok(&levels) {
            return Err(AppError::ValidationError);
        }
        let mut message = "A new course has been created: ".to_owned();
        message.append(title.as_str());
        let course = Course { title, levels, educational_resources };
        self.courses.push(course);
        proof {
            lemma_push_fresh(old(self).courses@, course);
        }
        self.push_notification(
            "all".to_owned(),
            message,
            now,
            NotificationKind::CourseAdded,
        );
        self.append_log("add_course", now);
        Ok(())
    }

    /// Adds a quiz to the catalog.  Admin-only; fails when the title is
    /// taken, or when questions, options and answers do not line up.
    pub fn add_quiz(
        &mut self,
        actor_id: String,
        title: String,
        level: u32,
        questions: Vec<String>,
        options: Vec<Vec<String>>,
        correct_answers: Vec<String>,
        reward: u32,
        now: u64,
    ) -> (r: Result<(), AppError>)
        requires
            old(self).wf(),
        ensures
            final(self).wf(),
            r == (if !old(self).is_admin(actor_id@) {
                Err::<(), AppError>(AppError::ValidationError)
            } else if old(self).has_quiz(title@) {
                Err::<(), AppError>(AppError::QuizAlreadyExists)
            } else if questions@.len() != options@.len() || questions@.len()
                != correct_answers@.len() {
                Err::<(), AppError>(AppError::ValidationError)
            } else {
                Ok::<(), AppError>(())
            }),
            r is Err ==> *final(self) == *old(self),
            r is Ok ==> {
                &&& final(self).has_quiz(title@)
                &&& final(self).quiz_of(title@) == (Quiz {
                    title,
                    level,
                    questions,
                    options,
                    correct_answers,
                    reward,
                })
                &&& forall|k: Seq<char>|
                    k != title@ ==> #[trigger] has_key(final(self).quizzes@, k) == has_key(
                        old(self).quizzes@,
                        k,
                    )
                &&& forall|k: Seq<char>|
                    k != title@ && has_key(old(self).quizzes@, k) ==> #[trigger] entry_of(
                        final(self).quizzes@,
                        k,
                    ) == entry_of(old(self).quizzes@, k)
                &&& log_appended(*old(self), *final(self), "add_quiz"@, now)
                &&& *final(self) == (Engine {
                    quizzes: final(self).quizzes,
                    action_log: final(self).action_log,
                    ..*old(self)
                })
            },
    {
        if !self.actor_is_admin(&actor_id) {
            return Err(AppError::ValidationError);
        }
        if self.find_quiz(&title).is_some() {
            return Err(AppError::QuizAlreadyExists);
        }
        if questions.len() != options.len() || questions.len() != correct_answers.len() {
            return Err(AppError::ValidationError);
        }
        let quiz = Quiz { title, level, questions, options, correct_answers, reward };
        self.quizzes.push(quiz);
        proof {
            lemma_push_fresh(old(self).quizzes@, quiz);
        }
        self.append_log("add_quiz", now);
        Ok(())
    }

    /// Adds a challenge under an already-drawn id and announces it to
    /// everyone.  Admin-only; fails when the id collides with an
    /// existing challenge.
    pub fn add_challenge_with(
        &mut self,
        actor_id: String,
        challenge_id: String,
        description: String,
        reward_tokens: u32,
        required_courses: Vec<String>,
        required_quizzes: Vec<String>,
        now: u64,
    ) -> (r: Result<(), AppError>)
        requires
            old(self).wf(),
        ensures
            final(self).wf(),
            r == (if !old(self).is_admin(actor_id@) {
                Err::<(), AppError>(AppError::ValidationError)
            } else if old(self).has_challenge(challenge_id@) {
                Err::<(), AppError>(AppError::ValidationError)
            } else {
                Ok::<(), AppError>(())
            }),
            r is Err ==> *final(self) == *old(self),
            r is Ok ==> add_challenge_post(
                *old(self),
                *final(self),
                challenge_id@,
                description@,
                reward_tokens,
                required_courses@,
                required_quizzes@,
                now,
            ),
    {
        if !self.actor_is_admin(&actor_id) {
            return Err(AppError::ValidationError);
        }
        if self.find_challenge(&challenge_id).is_some() {
            return Err(AppError::ValidationError);
        }
        let mut message = "A new challenge has been added: ".to_owned();
        message.append(description.as_str());
        let challenge = Challenge {
            id: challenge_id,
            description,
            reward_tokens,
            required_courses,
            required_quizzes,
            participants: Vec::new(),
        };
        self.challenges.push(challenge);
        proof {
            lemma_push_fresh(old(self).challenges@, challenge);
        }
        self.push_notification(
            "all".to_owned(),
            message,
            now,
            NotificationKind::ChallengeAdded,
        );
        self.append_log("add_challenge", now);
        Ok(())
    }

    /// Adds a challenge, drawing a fresh id from the random collaborator
    /// and the timestamp from the clock, and returns the id.
    /// Admin-only; an admin is owed success unless the drawn id could
    /// collide, which needs at least one challenge to exist already.
    pub fn add_challenge(
        &mut self,
        actor_id: String,
        description: String,
        reward_tokens: u32,
        required_courses: Vec<String>,
        required_quizzes: Vec<String>,
    ) -> (r: Result<String, AppError>)
        requires
            old(self).wf(),
        ensures
            final(self).wf(),
            !old(self).is_admin(actor_id@) ==> r == Err::<String, AppError>(
                AppError::ValidationError,
            ),
            r is Err ==> !old(self).is_admin(actor_id@) || old(self).challenges@.len() > 0,
            r is Err ==> *final(self) == *old(self),
            r matches Ok(cid) ==> exists|now: u64|
                #[trigger] add_challenge_post(
                    *old(self),
                    *final(self),
                    cid@,
                    description@,
                    reward_tokens,
                    required_courses@,
                    required_quizzes@,
                    now,
                ),
    {
        let challenge_id = fresh_uuid();
        let now = now_secs();
        let returned = challenge_id.clone();
        let ghost cid_view = challenge_id@;
        let r = self.add_challenge_with(
            actor_id,
            challenge_id,
            description,
            reward_tokens,
            required_courses,
            required_quizzes,
            now,
        );
        match r {
            Ok(_) => {
                let out: Result<String, AppError> = Ok(returned);
                proof {
                    assert(out->Ok_0 == returned);
                    assert(add_challenge_post(
                        *old(self),
                        *final(self),
                        (out->Ok_0)@,
                        description@,
                        reward_tokens,
                        required_courses@,
                        required_quizzes@,
                        now,
                    ));
                }
                out
            },
            Err(e) => {
                proof {
                    if old(self).is_admin(actor_id@) {
                        assert(old(self).has_challenge(cid_view));
                    }
                }
                Err(e)
            },
        }
    }

    /// Adds a redeemable reward to the catalog.  Admin-only; fails when
    /// the id is taken or the cost is zero.
    pub fn add_reward(
        &mut self,
        actor_id: String,
        id: String,
        description: String,
        cost_tokens: u32,
        now: u64,
    ) -> (r: Result<(), AppError>)
        requires
            old(self).wf(),
        ensures
            final(self).wf(),
            r == (if !old(self).is_admin(actor_id@) {
                Err::<(), AppError>(AppError::ValidationError)
            } else if old(self).has_reward(id@) || cost_tokens == 0 {
                Err::<(), AppError>(AppError::ValidationError)
            } else {
                Ok::<(), AppError>(())
            }),
            r is Err ==> *final(self) == *old(self),
            r is Ok ==> {
                &&& final(self).has_reward(id@)
                &&& final(self).reward_of(id@) == (Reward { id, description, cost_tokens })
                &&& forall|k: Seq<char>|
                    k != id@ ==> #[trigger] has_key(final(self).rewards@, k) == has_key(
                        old(self).rewards@,
                        k,
                    )
                &&& forall|k: Seq<char>|
                    k != id@ && has_key(old(self).rewards@, k) ==> #[trigger] entry_of(
                        final(self).rewards@,
                        k,
                    ) == entry_of(old(self).rewards@, k)
                &&& log_appended(*old(self), *final(self), "add_reward"@, now)
                &&& *final(self) == (Engine {
                    rewards: final(self).rewards,
                    action_log: final(self).action_log,
                    ..*old(self)
                })
            },
    {
        if !self.actor_is_admin(&actor_id) {
            return Err(AppError::ValidationError);
        }
        if self.find_reward(&id).is_some() || cost_tokens == 0 {
            return Err(AppError::ValidationError);
        }
        let reward = Reward { id, description, cost_tokens };
        self.rewards.push(reward);
        proof {
            lemma_push_fresh(old(self).rewards@, reward);
        }
        self.append_log("add_reward", now);
        Ok(())
    }
}

/// Whether the level numbers form a mapping and each level's quiz lines
/// up — exactly the course well-formedness on these levels.
pub(crate) fn course_levels_ok(levels: &Vec<CourseLevel>) -> (r: bool)
    ensures
        r == crate::domain::course_levels_wf(levels@),
{
    let n = levels.len();
    for i in 0..n
        invariant
            n == levels@.len(),
            forall|a: int, b: int|
                0 <= a < i && 0 <= b < i && #[trigger] levels@[a].level == #[trigger] levels@[b].level
                    ==> a == b,
            forall|a: int| 0 <= a < i ==> (#[trigger] levels@[a]).quiz.wf(),
    {
        let q = &levels[i].quiz;
        if q.questions.len() != q.options.len() || q.questions.len() != q.correct_answers.len() {
            return false;
        }
        for j in 0..i
            invariant
                i < n,
                n == levels@.len(),
                forall|b: int| 0 <= b < j ==> #[trigger] levels@[b].level != levels@[i as int].level,
        {
            if levels[j].level == levels[i].level {
                return false;
            }
        }
    }
    true
}

} // verus!
