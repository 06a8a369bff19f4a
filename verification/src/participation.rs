//! Learning progress: passing quizzes, completing courses, and joining
//! reward-bearing challenges.

use vstd::prelude::*;
use vstd::string::StringExecFns;
use crate::domain::Challenge;
use crate::domain::NotificationKind;
use crate::domain::User;
use crate::domain::lemma_sessions_unique_update_same;
use crate::domain::lemma_strs_push_fresh;
use crate::domain::str_in;
use crate::engine::Engine;
use crate::engine::all_in;
use crate::engine::contains_all;
use crate::engine::contains_string;
use crate::engine::log_appended;
use crate::engine::notif_appended;
use crate::errors::AppError;
use crate::keyed::entry_of;
use crate::keyed::has_key;
use crate::keyed::lemma_update_at;

verus! {

impl Engine {
    /// Marks a quiz as passed and credits its reward to the profile
    /// counter.  Requires a live session; a quiz already passed is
    /// acknowledged without crediting anything again.
    pub fn pass_quiz(&mut self, user_id: String, quiz_title: String, now: u64) -> (r: Result<
        (),
        AppError,
    >)
        requires
            old(self).wf(),
            old(self).has_user(user_id@) && old(self).user_of(user_id@).session_live(now) && old(
                self,
            ).has_quiz(quiz_title@) && !str_in(
                old(self).user_of(user_id@).passed_quizzes@,
                quiz_title@,
            ) ==> old(self).user_of(user_id@).tokens + old(self).quiz_of(quiz_title@).reward
                <= u32::MAX,
        ensures
            final(self).wf(),
            r == (if !old(self).has_user(user_id@) {
                Err::<(), AppError>(AppError::UserNotFound)
            } else if !old(self).user_of(user_id@).session_live(now) {
                Err::<(), AppError>(AppError::SessionExpired)
            } else if !old(self).has_quiz(quiz_title@) {
                Err::<(), AppError>(AppError::ValidationError)
            } else {
                Ok::<(), AppError>(())
            }),
            r is Err ==> *final(self) == *old(self),
            r is Ok && str_in(old(self).user_of(user_id@).passed_quizzes@, quiz_title@) ==> {
                &&& log_appended(*old(self), *final(self), "pass_quiz"@, now)
                &&& *final(self) == (Engine { action_log: final(self).action_log, ..*old(self) })
            },
            r is Ok && !str_in(old(self).user_of(user_id@).passed_quizzes@, quiz_title@) ==> {
                &&& final(self).has_user(user_id@)
                &&& ({
                    let u0 = old(self).user_of(user_id@);
                    let u1 = final(self).user_of(user_id@);
                    &&& u1.passed_quizzes@ == u0.passed_quizzes@.push(quiz_title)
                    &&& u1.tokens == u0.tokens + old(self).quiz_of(quiz_title@).reward
                    &&& u1 == (User {
                        tokens: u1.tokens,
                        passed_quizzes: u1.passed_quizzes,
                        ..u0
                    })
                })
                &&& forall|k: Seq<char>|
                    k != user_id@ ==> #[trigger] has_key(final(self).users@, k) == has_key(
                        old(self).users@,
                        k,
                    )
                &&& forall|k: Seq<char>|
                    k != user_id@ && has_key(old(self).users@, k) ==> #[trigger] entry_of(
                        final(self).users@,
                        k,
                    ) == entry_of(old(self).users@, k)
                &&& log_appended(*old(self), *final(self), "pass_quiz"@, now)
                &&& *final(self) == (Engine {
                    users: final(self).users,
                    action_log: final(self).action_log,
                    ..*old(self)
                })
            },
    {
        match self.find_user(&user_id) {
            None => Err(AppError::UserNotFound),
            Some(i) => {
                let live = match &self.users[i].session {
                    Some(t) => t.expires_at > now,
                    None => false,
                };
                if !live {
                    return Err(AppError::SessionExpired);
                }
                let qi = match self.find_quiz(&quiz_title) {
                    None => {
                        return Err(AppError::ValidationError);
                    },
                    Some(qi) => qi,
                };
                let reward = self.quizzes[qi].reward;
                if contains_string(&self.users[i].passed_quizzes, &quiz_title) {
                    self.append_log("pass_quiz", now);
                    return Ok(());
                }
                let mut u = self.users.remove(i);
                proof {
                    lemma_strs_push_fresh(u.passed_quizzes@, quiz_title);
                }
                u.passed_quizzes.push(quiz_title);
                u.tokens = u.tokens + reward;
                self.users.insert(i, u);
                proof {
                    assert(self.users@ =~= old(self).users@.update(
                        i as int,
                        self.users@[i as int],
                    ));
                    lemma_update_at(old(self).users@, i as int, self.users@[i as int]);
                    lemma_sessions_unique_update_same(
                        old(self).users@,
                        i as int,
                        self.users@[i as int],
                    );
                }
                self.append_log("pass_quiz", now);
                Ok(())
            },
        }
    }

    /// Marks a course as completed for the user.  Requires a live
    /// session and an existing course; completing a course twice is
    /// acknowledged without changing the record.
    pub fn complete_course(&mut self, user_id: String, course_title: String, now: u64) -> (r:
        Result<(), AppError>)
        requires
            old(self).wf(),
        ensures
            final(self).wf(),
            r == (if !old(self).has_user(user_id@) {
                Err::<(), AppError>(AppError::UserNotFound)
            } else if !old(self).user_of(user_id@).session_live(now) {
                Err::<(), AppError>(AppError::SessionExpired)
            } else if !old(self).has_course(course_title@) {
                Err::<(), AppError>(AppError::ValidationError)
            } else {
                Ok::<(), AppError>(())
            }),
            r is Err ==> *final(self) == *old(self),
            r is Ok && str_in(old(self).user_of(user_id@).completed_courses@, course_title@) ==> {
                &&& log_appended(*old(self), *final(self), "complete_course"@, now)
                &&& *final(self) == (Engine { action_log: final(self).action_log, ..*old(self) })
            },
            r is Ok && !str_in(old(self).user_of(user_id@).completed_courses@, course_title@)
                ==> {
                &&& final(self).has_user(user_id@)
                &&& ({
                    let u0 = old(self).user_of(user_id@);
                    let u1 = final(self).user_of(user_id@);
                    &&& u1.completed_courses@ == u0.completed_courses@.push(course_title)
                    &&& u1 == (User { completed_courses: u1.completed_courses, ..u0 })
                })
                &&& forall|k: Seq<char>|
                    k != user_id@ ==> #[trigger] has_key(final(self).users@, k) == has_key(
                        old(self).users@,
                        k,
                    )
                &&& forall|k: Seq<char>|
                    k != user_id@ && has_key(old(self).users@, k) ==> #[trigger] entry_of(
                        final(self).users@,
                        k,
                    ) == entry_of(old(self).users@, k)
                &&& log_appended(*old(self), *final(self), "complete_course"@, now)
                &&& *final(self) == (Engine {
                    users: final(self).users,
                    action_log: final(self).action_log,
                    ..*old(self)
                })
            },
    {
        match self.find_user(&user_id) {
            None => Err(AppError::UserNotFound),
            Some(i) => {
                let live = match &self.users[i].session {
                    Some(t) => t.expires_at > now,
                    None => false,
                };
                if !live {
                    return Err(AppError::SessionExpired);
                }
                if self.find_course(&course_title).is_none() {
                    return Err(AppError::ValidationError);
                }
                if contains_string(&self.users[i].completed_courses, &course_title) {
                    self.append_log("complete_course", now);
                    return Ok(());
                }
                let mut u = self.users.remove(i);
                proof {
                    lemma_strs_push_fresh(u.completed_courses@, course_title);
                }
                u.completed_courses.push(course_title);
                self.users.insert(i, u);
                proof {
                    assert(self.users@ =~= old(self).users@.update(
                        i as int,
                        self.users@[i as int],
                    ));
                    lemma_update_at(old(self).users@, i as int, self.users@[i as int]);
                    lemma_sessions_unique_update_same(
                        old(self).users@,
                        i as int,
                        self.users@[i as int],
                    );
                }
                self.append_log("complete_course", now);
                Ok(())
            },
        }
    }

    /// Joins a challenge.  Requires a live session, an existing
    /// challenge the user has not joined, and every required course and
    /// quiz on the user's record; on success the user is enrolled, the
    /// reward is credited to the profile counter, and the user is
    /// notified.
    pub fn participate_in_challenge(&mut self, user_id: String, challenge_id: String, now: u64)
        -> (r: Result<(), AppError>)
        requires
            old(self).wf(),
            old(self).has_user(user_id@) && old(self).user_of(user_id@).session_live(now) && old(
                self,
            ).has_challenge(challenge_id@) && !str_in(
                old(self).challenge_of(challenge_id@).participants@,
                user_id@,
            ) && !str_in(old(self).user_of(user_id@).challenges_completed@, challenge_id@) && all_in(
                old(self).challenge_of(challenge_id@).required_courses@,
                old(self).user_of(user_id@).completed_courses@,
            ) && all_in(
                old(self).challenge_of(challenge_id@).required_quizzes@,
                old(self).user_of(user_id@).passed_quizzes@,
            ) ==> old(self).user_of(user_id@).tokens + old(self).challenge_of(challenge_id@).reward_tokens
                <= u32::MAX,
        ensures
            final(self).wf(),
            r == (if !old(self).has_user(user_id@) {
                Err::<(), AppError>(AppError::UserNotFound)
            } else if !old(self).user_of(user_id@).session_live(now) {
                Err::<(), AppError>(AppError::SessionExpired)
            } else if !old(self).has_challenge(challenge_id@) {
                Err::<(), AppError>(AppError::ChallengeNotFound)
            } else if str_in(old(self).challenge_of(challenge_id@).participants@, user_id@)
                || str_in(old(self).user_of(user_id@).challenges_completed@, challenge_id@) {
                Err::<(), AppError>(AppError::AlreadyParticipating)
            } else if !(all_in(
                old(self).challenge_of(challenge_id@).required_courses@,
                old(self).user_of(user_id@).completed_courses@,
            ) && all_in(
                old(self).challenge_of(challenge_id@).required_quizzes@,
                old(self).user_of(user_id@).passed_quizzes@,
            )) {
                Err::<(), AppError>(AppError::RequiredCoursesNotCompleted)
            } else {
                Ok::<(), AppError>(())
            }),
            r is Err ==> *final(self) == *old(self),
            r is Ok ==> {
                &&& final(self).has_user(user_id@) && final(self).has_challenge(challenge_id@)
                &&& ({
                    let u0 = old(self).user_of(user_id@);
                    let u1 = final(self).user_of(user_id@);
                    let c0 = old(self).challenge_of(challenge_id@);
                    let c1 = final(self).challenge_of(challenge_id@);
                    &&& u1.challenges_completed@ == u0.challenges_completed@.push(challenge_id)
                    &&& u1.tokens == u0.tokens + c0.reward_tokens
                    &&& u1 == (User {
                        tokens: u1.tokens,
                        challenges_completed: u1.challenges_completed,
                        ..u0
                    })
                    &&& c1.participants@ == c0.participants@.push(user_id)
                    &&& c1 == (Challenge { participants: c1.participants, ..c0 })
                    &&& notif_appended(
                        *old(self),
                        *final(self),
                        user_id@,
                        "You have successfully participated in the challenge: "@ + c0.description@,
                        now,
                        NotificationKind::ChallengeStarted,
                    )
                })
                &&& forall|k: Seq<char>|
                    k != user_id@ ==> #[trigger] has_key(final(self).users@, k) == has_key(
                        old(self).users@,
                        k,
                    )
                &&& forall|k: Seq<char>|
                    k != user_id@ && has_key(old(self).users@, k) ==> #[trigger] entry_of(
                        final(self).users@,
                        k,
                    ) == entry_of(old(self).users@, k)
                &&& forall|k: Seq<char>|
                    k != challenge_id@ ==> #[trigger] has_key(final(self).challenges@, k)
                        == has_key(old(self).challenges@, k)
                &&& forall|k: Seq<char>|
                    k != challenge_id@ && has_key(old(self).challenges@, k) ==> #[trigger] entry_of(
                        final(self).challenges@,
                        k,
                    ) == entry_of(old(self).challenges@, k)
                &&& log_appended(*old(self), *final(self), "participate_in_challenge"@, now)
                &&& *final(self) == (Engine {
                    users: final(self).users,
                    challenges: final(self).challenges,
                    notifications: final(self).notifications,
                    action_log: final(self).action_log,
                    ..*old(self)
                })
            },
    {
        match self.find_user(&user_id) {
            None => Err(AppError::UserNotFound),
            Some(i) => {
                let live = match &self.users[i].session {
                    Some(t) => t.expires_at > now,
                    None => false,
                };
                if !live {
                    return Err(AppError::SessionExpired);
                }
                let ci = match self.find_challenge(&challenge_id) {
                    None => {
                        return Err(AppError::ChallengeNotFound);
                    },
                    Some(ci) => ci,
                };
                if contains_string(&self.challenges[ci].participants, &user_id)
                    || contains_string(&self.users[i].challenges_completed, &challenge_id) {
                    return Err(AppError::AlreadyParticipating);
                }
                if !(contains_all(
                    &self.challenges[ci].required_courses,
                    &self.users[i].completed_courses,
                ) && contains_all(
                    &self.challenges[ci].required_quizzes,
                    &self.users[i].passed_quizzes,
                )) {
                    return Err(AppError::RequiredCoursesNotCompleted);
                }
                let reward = self.challenges[ci].reward_tokens;
                let mut message =
                    "You have successfully participated in the challenge: ".to_owned();
                message.append(self.challenges[ci].description.as_str());
                let mut c = self.challenges.remove(ci);
                proof {
                    lemma_strs_push_fresh(c.participants@, user_id);
                }
                c.participants.push(user_id.clone());
                self.challenges.insert(ci, c);
                proof {
                    assert(self.challenges@ =~= old(self).challenges@.update(
                        ci as int,
                        self.challenges@[ci as int],
                    ));
                    lemma_update_at(old(self).challenges@, ci as int, self.challenges@[ci as int]);
                }
                let mut u = self.users.remove(i);
                proof {
                    lemma_strs_push_fresh(u.challenges_completed@, challenge_id);
                }
                u.challenges_completed.push(challenge_id.clone());
                u.tokens = u.tokens + reward;
                self.users.insert(i, u);
                proof {
                    assert(self.users@ =~= old(self).users@.update(
                        i as int,
                        self.users@[i as int],
                    ));
                    lemma_update_at(old(self).users@, i as int, self.users@[i as int]);
                    lemma_sessions_unique_update_same(
                        old(self).users@,
                        i as int,
                        self.users@[i as int],
                    );
                }
                self.push_notification(
                    user_id,
                    message,
                    now,
                    NotificationKind::ChallengeStarted,
                );
                self.append_log("participate_in_challenge", now);
                Ok(())
            },
        }
    }
}

} // verus!
