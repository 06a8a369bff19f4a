//! User accounts: registration, login, session validation, the profile
//! token counter, reward redemption and feedback.

use vstd::prelude::*;
use crate::collaborators::fresh_uuid;
use crate::collaborators::hash_password;
use crate::collaborators::now_secs;
use crate::collaborators::pw_digest;
use crate::domain::Feedback;
use crate::domain::Role;
use crate::domain::SessionToken;
use crate::domain::User;
use crate::domain::lemma_sessions_unique_push;
use crate::domain::session_tokens_unique;
use crate::domain::lemma_sessions_unique_update_same;
use crate::domain::lemma_sessions_unique_update_token;
use crate::domain::stored_session_token;
use crate::domain::token_in_use_by_other;
use crate::engine::Engine;
use crate::engine::SESSION_TTL_SECS;
use crate::engine::log_appended;
use crate::errors::AppError;
use crate::keyed::entry_of;
use crate::keyed::has_key;
use crate::keyed::lemma_push_fresh;
use crate::keyed::lemma_update_at;

verus! {

/// The successful registration transition: the snapshot gains exactly
/// one user record — fresh counters, empty collections, no session, and
/// the salted digest of the given password — plus one audit record.
pub open spec fn register_post(
    pre: Engine,
    post: Engine,
    id: Seq<char>,
    full_name: Seq<char>,
    email: Seq<char>,
    password: Seq<char>,
    role: Role,
    preferred_language: Seq<char>,
    salt: Seq<char>,
    now: u64,
) -> bool {
    &&& post.has_user(id)
    &&& ({
        let u = post.user_of(id);
        &&& u.id@ == id
        &&& u.full_name@ == full_name
        &&& u.email@ == email
        &&& u.hashed_password@ == pw_digest(password, salt)
        &&& u.salt@ == salt
        &&& u.tokens == 0
        &&& u.role == role
        &&& u.preferred_language@ == preferred_language
        &&& u.session is None
        &&& u.achievements@.len() == 0
        &&& u.challenges_completed@.len() == 0
        &&& u.completed_courses@.len() == 0
        &&& u.passed_quizzes@.len() == 0
        &&& u.inbox@.len() == 0
    })
    &&& forall|k: Seq<char>|
        k != id ==> #[trigger] has_key(post.users@, k) == has_key(pre.users@, k)
    &&& forall|k: Seq<char>|
        k != id && has_key(pre.users@, k) ==> #[trigger] entry_of(post.users@, k) == entry_of(
            pre.users@,
            k,
        )
    &&& log_appended(pre, post, "register_user"@, now)
    &&& post == (Engine { users: post.users, action_log: post.action_log, ..pre })
}

/// The successful login transition: the user's session is replaced by a
/// token no other user stores, expiring one TTL after `now`; nothing
/// else on the record moves, stored session tokens stay pairwise
/// distinct, and one audit record is appended.
pub open spec fn login_post(
    pre: Engine,
    post: Engine,
    id: Seq<char>,
    token: Seq<char>,
    now: u64,
) -> bool {
    &&& post.has_user(id)
    &&& ({
        let u0 = pre.user_of(id);
        let u1 = post.user_of(id);
        &&& u1.session matches Some(t) && t.token@ == token && t.expires_at == now
            + SESSION_TTL_SECS
        &&& u1 == (User { session: u1.session, ..u0 })
    })
    &&& forall|k: Seq<char>|
        k != id ==> #[trigger] has_key(post.users@, k) == has_key(pre.users@, k)
    &&& forall|k: Seq<char>|
        k != id && has_key(pre.users@, k) ==> #[trigger] entry_of(post.users@, k) == entry_of(
            pre.users@,
            k,
        )
    &&& !token_in_use_by_other(pre.users@, id, token)
    &&& session_tokens_unique(post.users@)
    &&& log_appended(pre, post, "login_user"@, now)
    &&& post == (Engine { users: post.users, action_log: post.action_log, ..pre })
}

/// The role a registration takes when none is given: a plain user.
pub open spec fn resolved_role(role: Option<Role>) -> Role {
    match role {
        Some(x) => x,
        None => Role::User,
    }
}

impl Engine {
    /// Registers a user from an already-drawn salt and clock reading.
    /// Fails exactly when the id is taken.
    pub fn register_user_with(
        &mut self,
        id: String,
        full_name: String,
        email: String,
        password: String,
        role: Role,
        preferred_language: String,
        salt: String,
        now: u64,
    ) -> (r: Result<(), AppError>)
        requires
            old(self).wf(),
        ensures
            final(self).wf(),
            r == (if old(self).has_user(id@) {
                Err::<(), AppError>(AppError::UserAlreadyExists)
            } else {
                Ok::<(), AppError>(())
            }),
            r is Err ==> *final(self) == *old(self),
            r is Ok ==> register_post(
                *old(self),
                *final(self),
                id@,
                full_name@,
                email@,
                password@,
                role,
                preferred_language@,
                salt@,
                now,
            ),
    {
        match self.find_user(&id) {
            Some(_) => Err(AppError::UserAlreadyExists),
            None => {
                let hashed_password = hash_password(password.as_str(), salt.as_str());
                let user = User {
                    id,
                    full_name,
                    email,
                    hashed_password,
                    salt,
                    tokens: 0,
                    role,
                    preferred_language,
                    session: None,
                    achievements: Vec::new(),
                    challenges_completed: Vec::new(),
                    completed_courses: Vec::new(),
                    passed_quizzes: Vec::new(),
                    inbox: Vec::new(),
                };
                self.users.push(user);
                proof {
                    lemma_push_fresh(old(self).users@, user);
                    lemma_sessions_unique_push(old(self).users@, user);
                }
                self.append_log("register_user", now);
                Ok(())
            },
        }
    }

    /// Registers a user, drawing the salt from the random collaborator
    /// and the timestamp from the clock.  Fails exactly when the id is
    /// taken.
    pub fn register_user(
        &mut self,
        id: String,
        full_name: String,
        email: String,
        password: String,
        role: Option<Role>,
        preferred_language: String,
    ) -> (r: Result<(), AppError>)
        requires
            old(self).wf(),
        ensures
            final(self).wf(),
            r == (if old(self).has_user(id@) {
                Err::<(), AppError>(AppError::UserAlreadyExists)
            } else {
                Ok::<(), AppError>(())
            }),
            r is Err ==> *final(self) == *old(self),
            r is Ok ==> exists|salt: Seq<char>, now: u64|
                #[trigger] register_post(
                    *old(self),
                    *final(self),
                    id@,
                    full_name@,
                    email@,
                    password@,
                    resolved_role(role),
                    preferred_language@,
                    salt,
                    now,
                ),
    {
        let resolved = match role {
            Some(x) => x,
            None => Role::User,
        };
        let salt = fresh_uuid();
        let now = now_secs();
        let ghost salt_view = salt@;
        let r = self.register_user_with(
            id,
            full_name,
            email,
            password,
            resolved,
            preferred_language,
            salt,
            now,
        );
        proof {
            if r is Ok {
                assert(register_post(
                    *old(self),
                    *final(self),
                    id@,
                    full_name@,
                    email@,
                    password@,
                    resolved,
                    preferred_language@,
                    salt_view,
                    now,
                ));
            }
        }
        r
    }

    /// Whether a user other than the one under `exclude_id` stores a
    /// session carrying this token.
    fn token_in_use(&self, exclude_id: &String, token: &String) -> (r: bool)
        ensures
            r == token_in_use_by_other(self.users@, exclude_id@, token@),
    {
        let n = self.users.len();
        for j in 0..n
            invariant
                n == self.users@.len(),
                forall|k: int|
                    0 <= k < j && self.users@[k].id@ != exclude_id@ ==> #[trigger] stored_session_token(
                        self.users@[k],
                    ) != Some(token@),
        {
            if self.users[j].id != *exclude_id {
                let hit = match &self.users[j].session {
                    Some(t) => t.token == *token,
                    None => false,
                };
                if hit {
                    proof {
                        assert(stored_session_token(self.users@[j as int]) == Some(token@));
                    }
                    return true;
                }
            }
        }
        false
    }

    /// Authenticates a user from an already-drawn session token and
    /// clock reading.  Fails when the id is unknown, when the salted
    /// digest of the password disagrees with the stored one, or when
    /// another user already stores the drawn token — the session-token
    /// uniqueness the data model demands; on success the session is
    /// replaced and the token returned.
    pub fn login_user_with(&mut self, id: String, password: String, token: String, now: u64) -> (r:
        Result<String, AppError>)
        requires
            old(self).wf(),
            now + SESSION_TTL_SECS <= u64::MAX,
        ensures
            final(self).wf(),
            r matches Ok(t) ==> t@ == token@,
            r is Ok <==> old(self).has_user(id@) && old(self).user_of(id@).hashed_password@
                == pw_digest(password@, old(self).user_of(id@).salt@) && !token_in_use_by_other(
                old(self).users@,
                id@,
                token@,
            ),
            r is Err ==> *final(self) == *old(self),
            r == (if !old(self).has_user(id@) {
                Err::<String, AppError>(AppError::UserNotFound)
            } else if old(self).user_of(id@).hashed_password@ != pw_digest(
                password@,
                old(self).user_of(id@).salt@,
            ) {
                Err::<String, AppError>(AppError::InvalidCredentials)
            } else if token_in_use_by_other(old(self).users@, id@, token@) {
                Err::<String, AppError>(AppError::ValidationError)
            } else {
                r
            }),
            r is Ok ==> login_post(*old(self), *final(self), id@, token@, now),
    {
        match self.find_user(&id) {
            None => Err(AppError::UserNotFound),
            Some(i) => {
                let digest = hash_password(password.as_str(), self.users[i].salt.as_str());
                if digest != self.users[i].hashed_password {
                    return Err(AppError::InvalidCredentials);
                }
                if self.token_in_use(&id, &token) {
                    return Err(AppError::ValidationError);
                }
                let returned = token.clone();
                let ghost token_view = token@;
                let mut u = self.users.remove(i);
                u.session = Some(SessionToken { token, expires_at: now + SESSION_TTL_SECS });
                self.users.insert(i, u);
                proof {
                    assert(self.users@ =~= old(self).users@.update(
                        i as int,
                        self.users@[i as int],
                    ));
                    lemma_update_at(old(self).users@, i as int, self.users@[i as int]);
                    lemma_sessions_unique_update_token(
                        old(self).users@,
                        i as int,
                        self.users@[i as int],
                        token_view,
                    );
                }
                self.append_log("login_user", now);
                Ok(returned)
            },
        }
    }

    /// Authenticates a user, drawing the fresh token from the random
    /// collaborator and the timestamp from the clock.  A clock reading
    /// too close to the top of the range is clamped so the expiry stays
    /// representable.
    pub fn login_user(&mut self, id: String, password: String) -> (r: Result<String, AppError>)
        requires
            old(self).wf(),
        ensures
            final(self).wf(),
            r is Ok ==> old(self).has_user(id@) && old(self).user_of(id@).hashed_password@
                == pw_digest(password@, old(self).user_of(id@).salt@),
            r is Err ==> *final(self) == *old(self),
            !old(self).has_user(id@) ==> r == Err::<String, AppError>(AppError::UserNotFound),
            old(self).has_user(id@) && old(self).user_of(id@).hashed_password@ != pw_digest(
                password@,
                old(self).user_of(id@).salt@,
            ) ==> r == Err::<String, AppError>(AppError::InvalidCredentials),
            r is Err ==> !old(self).has_user(id@) || old(self).user_of(id@).hashed_password@
                != pw_digest(password@, old(self).user_of(id@).salt@) || (exists|j: int|
                0 <= j < old(self).users@.len() && old(self).users@[j].id@ != id@
                    && #[trigger] stored_session_token(old(self).users@[j]) is Some),
            r matches Ok(t) ==> exists|now: u64|
                #[trigger] login_post(*old(self), *final(self), id@, t@, now),
    {
        let token = fresh_uuid();
        let mut now = now_secs();
        if now > u64::MAX - SESSION_TTL_SECS {
            now = u64::MAX - SESSION_TTL_SECS;
        }
        let ghost token_view = token@;
        let r = self.login_user_with(id, password, token, now);
        proof {
            if r is Ok {
                assert(login_post(*old(self), *final(self), id@, token_view, now));
            }
            if r is Err && token_in_use_by_other(old(self).users@, id@, token_view) {
                let j = choose|j: int|
                    0 <= j < old(self).users@.len() && old(self).users@[j].id@ != id@
                        && stored_session_token(old(self).users@[j]) == Some(token_view);
                assert(stored_session_token(old(self).users@[j]) is Some);
            }
        }
        r
    }

    /// The session gate every authenticated handler applies: the user
    /// record when it exists and its session is still open at `now`,
    /// the matching error otherwise.
    pub fn is_logged_in(&self, user_id: &String, now: u64) -> (r: Result<&User, AppError>)
        requires
            self.wf(),
        ensures
            r is Ok <==> self.has_user(user_id@) && self.user_of(user_id@).session_live(now),
            r matches Ok(u) ==> *u == self.user_of(user_id@),
            r == (if !self.has_user(user_id@) {
                Err::<&User, AppError>(AppError::UserNotFound)
            } else if !self.user_of(user_id@).session_live(now) {
                Err::<&User, AppError>(AppError::SessionExpired)
            } else {
                r
            }),
    {
        match self.find_user(user_id) {
            None => Err(AppError::UserNotFound),
            Some(i) => {
                let live = match &self.users[i].session {
                    Some(t) => t.expires_at > now,
                    None => false,
                };
                if live {
                    Ok(&self.users[i])
                } else {
                    Err(AppError::SessionExpired)
                }
            },
        }
    }

    /// Credits `delta` to the profile token counter.  Requires a live
    /// session for the user at time `now`.
    pub fn update_user_tokens(&mut self, id: String, delta: u32, now: u64) -> (r: Result<
        (),
        AppError,
    >)
        requires
            old(self).wf(),
            old(self).has_user(id@) && old(self).user_of(id@).session_live(now) ==> old(
                self,
            ).user_of(id@).tokens + delta <= u32::MAX,
        ensures
            final(self).wf(),
            r == (if !old(self).has_user(id@) {
                Err::<(), AppError>(AppError::UserNotFound)
            } else if !old(self).user_of(id@).session_live(now) {
                Err::<(), AppError>(AppError::SessionExpired)
            } else {
                Ok::<(), AppError>(())
            }),
            r is Err ==> *final(self) == *old(self),
            r is Ok ==> {
                &&& final(self).has_user(id@)
                &&& final(self).user_of(id@) == (User {
                    tokens: (old(self).user_of(id@).tokens + delta) as u32,
                    ..old(self).user_of(id@)
                })
                &&& forall|k: Seq<char>|
                    k != id@ ==> #[trigger] has_key(final(self).users@, k) == has_key(
                        old(self).users@,
                        k,
                    )
                &&& forall|k: Seq<char>|
                    k != id@ && has_key(old(self).users@, k) ==> #[trigger] entry_of(
                        final(self).users@,
                        k,
                    ) == entry_of(old(self).users@, k)
                &&& log_appended(*old(self), *final(self), "update_user_tokens"@, now)
                &&& *final(self) == (Engine {
                    users: final(self).users,
                    action_log: final(self).action_log,
                    ..*old(self)
                })
            },
    {
        match self.find_user(&id) {
            None => Err(AppError::UserNotFound),
            Some(i) => {
                let live = match &self.users[i].session {
                    Some(t) => t.expires_at > now,
                    None => false,
                };
                if !live {
                    return Err(AppError::SessionExpired);
                }
                let mut u = self.users.remove(i);
                u.tokens = u.tokens + delta;
                self.users.insert(i, u);
                proof {
                    assert(self.users@ =~= old(self).users@.update(
                        i as int,
                        self.users@[i as int],
                    ));
                    lemma_update_at(old(self).users@, i as int, self.users@[i as int]);
                    lemma_sessions_unique_update_same(
                        old(self).users@,
                        i as int,
                        self.users@[i as int],
                    );
                }
                self.append_log("update_user_tokens", now);
                Ok(())
            },
        }
    }

    /// Exchanges profile tokens for a catalog reward.  Fails when the
    /// user is unknown, or when the reward is unknown or costs more than
    /// the user's counter holds.
    pub fn redeem_reward(&mut self, user_id: String, reward_id: String, now: u64) -> (r: Result<
        (),
        AppError,
    >)
        requires
            old(self).wf(),
        ensures
            final(self).wf(),
            r == (if !old(self).has_user(user_id@) {
                Err::<(), AppError>(AppError::UserNotFound)
            } else if !old(self).has_reward(reward_id@) || old(self).user_of(user_id@).tokens < old(
                self,
            ).reward_of(reward_id@).cost_tokens {
                Err::<(), AppError>(AppError::InvalidReward)
            } else {
                Ok::<(), AppError>(())
            }),
            r is Err ==> *final(self) == *old(self),
            r is Ok ==> {
                &&& final(self).has_user(user_id@)
                &&& final(self).user_of(user_id@) == (User {
                    tokens: (old(self).user_of(user_id@).tokens - old(self).reward_of(
                        reward_id@,
                    ).cost_tokens) as u32,
                    ..old(self).user_of(user_id@)
                })
                &&& forall|k: Seq<char>|
                    k != user_id@ ==> #[trigger] has_key(final(self).users@, k) == has_key(
                        old(self).users@,
                        k,
                    )
                &&& forall|k: Seq<char>|
                    k != user_id@ && has_key(old(self).users@, k) ==> #[trigger] entry_of(
                        final(self).users@,
                        k,
                    ) == entry_of(old(self).users@, k)
                &&& log_appended(*old(self), *final(self), "redeem_reward"@, now)
                &&& *final(self) == (Engine {
                    users: final(self).users,
                    action_log: final(self).action_log,
                    ..*old(self)
                })
            },
    {
        match self.find_user(&user_id) {
            None => Err(AppError::UserNotFound),
            Some(i) => {
                let cost = match self.find_reward(&reward_id) {
                    None => {
                        return Err(AppError::InvalidReward);
                    },
                    Some(j) => self.rewards[j].cost_tokens,
                };
                if self.users[i].tokens < cost {
                    return Err(AppError::InvalidReward);
                }
                let mut u = self.users.remove(i);
                u.tokens = u.tokens - cost;
                self.users.insert(i, u);
                proof {
                    assert(self.users@ =~= old(self).users@.update(
                        i as int,
                        self.users@[i as int],
                    ));
                    lemma_update_at(old(self).users@, i as int, self.users@[i as int]);
                    lemma_sessions_unique_update_same(
                        old(self).users@,
                        i as int,
                        self.users@[i as int],
                    );
                }
                self.append_log("redeem_reward", now);
                Ok(())
            },
        }
    }

    /// Appends a feedback note.  Requires the user to exist; the
    /// feedback log itself is append-only.
    pub fn submit_feedback(&mut self, user_id: String, text: String, now: u64) -> (r: Result<
        (),
        AppError,
    >)
        requires
            old(self).wf(),
        ensures
            final(self).wf(),
            r == (if !old(self).has_user(user_id@) {
                Err::<(), AppError>(AppError::UserNotFound)
            } else {
                Ok::<(), AppError>(())
            }),
            r is Err ==> *final(self) == *old(self),
            r is Ok ==> {
                &&& final(self).feedbacks@ == old(self).feedbacks@.push(
                    (Feedback { user_id, text }),
                )
                &&& log_appended(*old(self), *final(self), "submit_feedback"@, now)
                &&& *final(self) == (Engine {
                    feedbacks: final(self).feedbacks,
                    action_log: final(self).action_log,
                    ..*old(self)
                })
            },
    {
        match self.find_user(&user_id) {
            None => Err(AppError::UserNotFound),
            Some(_) => {
                self.feedbacks.push(Feedback { user_id, text });
                self.append_log("submit_feedback", now);
                Ok(())
            },
        }
    }
}

} // verus!
