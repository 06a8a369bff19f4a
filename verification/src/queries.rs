//! Read-only lookups over the snapshot.

use vstd::prelude::*;
use crate::domain::ActionLogEntry;
use crate::domain::User;
use crate::engine::Engine;
use crate::errors::AppError;

verus! {

impl Engine {
    /// The user record under `id`, or the absence error.
    pub fn get_user(&self, id: &String) -> (r: Result<&User, AppError>)
        requires
            self.wf(),
        ensures
            r is Ok <==> self.has_user(id@),
            r matches Ok(u) ==> *u == self.user_of(id@),
            r is Err ==> r == Err::<&User, AppError>(AppError::UserNotFound),
    {
        match self.find_user(id) {
            Some(i) => Ok(&self.users[i]),
            None => Err(AppError::UserNotFound),
        }
    }

    /// The complete audit trail, oldest record first.
    pub fn get_action_logs(&self) -> (r: &Vec<ActionLogEntry>)
        ensures
            r@ == self.action_log@,
    {
        &self.action_log
    }
}

} // verus!
