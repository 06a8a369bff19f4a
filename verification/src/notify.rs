//! Notifications: per-recipient append-only queues over one flat store,
//! with the reserved recipient `"all"` as the broadcast bucket.

use vstd::prelude::*;
use vstd::string::StringExecFns;
use crate::domain::Notification;
use crate::domain::NotificationKind;
use crate::domain::User;
use crate::domain::lemma_sessions_unique_update_same;
use crate::engine::Engine;
use crate::engine::log_appended;
use crate::engine::notif_appended;
use crate::errors::AppError;
use crate::keyed::entry_of;
use crate::keyed::has_key;
use crate::keyed::lemma_update_at;

verus! {

impl Engine {
    /// The queue a recipient may read: the store entries naming it, in
    /// insertion order.
    pub open spec fn queue_of(self, recipient: Seq<char>) -> Seq<Notification> {
        self.notifications@.filter(|n: Notification| n.recipient@ == recipient)
    }

    /// Shares an achievement: appends an `AchievementShared` entry to
    /// `to_user`'s queue and a note of the send to `from_user`'s inbox.
    /// Both users must exist.
    pub fn send_notification(
        &mut self,
        from_user: String,
        to_user: String,
        message: String,
        now: u64,
    ) -> (r: Result<(), AppError>)
        requires
            old(self).wf(),
        ensures
            final(self).wf(),
            r == (if !old(self).has_user(from_user@) || !old(self).has_user(to_user@) {
                Err::<(), AppError>(AppError::UserNotFound)
            } else {
                Ok::<(), AppError>(())
            }),
            r is Err ==> *final(self) == *old(self),
            r is Ok ==> {
                &&& notif_appended(
                    *old(self),
                    *final(self),
                    to_user@,
                    from_user@ + ": "@ + message@,
                    now,
                    NotificationKind::AchievementShared,
                )
                &&& ({
                    let u0 = old(self).user_of(from_user@);
                    let u1 = final(self).user_of(from_user@);
                    &&& u1.inbox@.len() == u0.inbox@.len() + 1
                    &&& u1.inbox@.drop_last() == u0.inbox@
                    &&& u1.inbox@.last()@ == "You sent a message to "@ + to_user@
                    &&& u1 == (User { inbox: u1.inbox, ..u0 })
                })
                &&& forall|k: Seq<char>|
                    k != from_user@ ==> #[trigger] has_key(final(self).users@, k) == has_key(
                        old(self).users@,
                        k,
                    )
                &&& forall|k: Seq<char>|
                    k != from_user@ && has_key(old(self).users@, k) ==> #[trigger] entry_of(
                        final(self).users@,
                        k,
                    ) == entry_of(old(self).users@, k)
                &&& log_appended(*old(self), *final(self), "send_notification"@, now)
                &&& *final(self) == (Engine {
                    users: final(self).users,
                    notifications: final(self).notifications,
                    action_log: final(self).action_log,
                    ..*old(self)
                })
            },
    {
        let fi = match self.find_user(&from_user) {
            None => {
                return Err(AppError::UserNotFound);
            },
            Some(fi) => fi,
        };
        if self.find_user(&to_user).is_none() {
            return Err(AppError::UserNotFound);
        }
        let mut shared = from_user.clone();
        shared.append(": ");
        shared.append(message.as_str());
        let mut note = "You sent a message to ".to_owned();
        note.append(to_user.as_str());
        let mut u = self.users.remove(fi);
        u.inbox.push(note);
        self.users.insert(fi, u);
        proof {
            assert(self.users@ =~= old(self).users@.update(fi as int, self.users@[fi as int]));
            lemma_update_at(old(self).users@, fi as int, self.users@[fi as int]);
            lemma_sessions_unique_update_same(old(self).users@, fi as int, self.users@[fi as int]);
            assert(self.users@[fi as int].inbox@.drop_last() =~= old(self).users@[fi as int].inbox@);
        }
        self.push_notification(to_user, shared, now, NotificationKind::AchievementShared);
        self.append_log("send_notification", now);
        Ok(())
    }

    /// Appends a notification of the given kind to an existing user's
    /// queue.
    pub fn add_notification(
        &mut self,
        user_id: String,
        message: String,
        kind: NotificationKind,
        now: u64,
    ) -> (r: Result<(), AppError>)
        requires
            old(self).wf(),
        ensures
            final(self).wf(),
            r == (if !old(self).has_user(user_id@) {
                Err::<(), AppError>(AppError::UserNotFound)
            } else {
                Ok::<(), AppError>(())
            }),
            r is Err ==> *final(self) == *old(self),
            r is Ok ==> {
                &&& notif_appended(*old(self), *final(self), user_id@, message@, now, kind)
                &&& log_appended(*old(self), *final(self), "add_notification"@, now)
                &&& *final(self) == (Engine {
                    notifications: final(self).notifications,
                    action_log: final(self).action_log,
                    ..*old(self)
                })
            },
    {
        if self.find_user(&user_id).is_none() {
            return Err(AppError::UserNotFound);
        }
        self.push_notification(user_id, message, now, kind);
        self.append_log("add_notification", now);
        Ok(())
    }

    /// The recipient's queue, in insertion order; empty queues surface
    /// as the notification error.
    pub fn get_notifications(&self, user_id: &String) -> (r: Result<Vec<Notification>, AppError>)
        ensures
            r is Ok <==> self.queue_of(user_id@).len() > 0,
            r matches Ok(v) ==> v@ == self.queue_of(user_id@),
            r is Err ==> r == Err::<Vec<Notification>, AppError>(AppError::NotificationError),
    {
        let mut out: Vec<Notification> = Vec::new();
        let n = self.notifications.len();
        for i in 0..n
            invariant
                n == self.notifications@.len(),
                out@ == self.notifications@.take(i as int).filter(
                    |n: Notification| n.recipient@ == user_id@,
                ),
        {
            proof {
                reveal(Seq::filter);
                assert(self.notifications@.take(i + 1).drop_last() =~= self.notifications@.take(
                    i as int,
                ));
                assert(self.notifications@.take(i + 1).last() == self.notifications@[i as int]);
            }
            if self.notifications[i].recipient == *user_id {
                out.push(self.notifications[i].clone());
            }
        }
        proof {
            assert(self.notifications@.take(n as int) =~= self.notifications@);
        }
        if out.len() == 0 {
            Err(AppError::NotificationError)
        } else {
            Ok(out)
        }
    }
}

} // verus!
