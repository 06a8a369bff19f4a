//! Waste footprints: recording measurements and reading them back.

use vstd::prelude::*;
use vstd::pervasive::VecAdditionalExecFns;
use crate::domain::UserFootprint;
use crate::domain::score_tenths;
use crate::engine::Engine;
use crate::engine::log_appended;
use crate::errors::AppError;
use crate::keyed::entry_of;
use crate::keyed::has_key;
use crate::keyed::lemma_key_at_index;
use crate::keyed::lemma_push_fresh;
use crate::keyed::lemma_update_at;

verus! {

impl Engine {
    /// Records a waste measurement for an existing user, upserting the
    /// user's footprint with the score the formula gives, and returns
    /// the new score in tenths of a unit.
    pub fn log_waste(
        &mut self,
        user_id: String,
        waste_generated: u32,
        recyclable_waste: u32,
        now: u64,
    ) -> (r: Result<i64, AppError>)
        requires
            old(self).wf(),
        ensures
            final(self).wf(),
            r is Ok <==> old(self).has_user(user_id@),
            r is Err ==> r == Err::<i64, AppError>(AppError::UserNotFound) && *final(self) == *old(
                self,
            ),
            r matches Ok(score) ==> {
                &&& score as int == score_tenths(waste_generated, recyclable_waste)
                &&& final(self).has_footprint(user_id@)
                &&& ({
                    let fp = final(self).footprint_of(user_id@);
                    &&& fp.user_id@ == user_id@
                    &&& fp.waste_generated == waste_generated
                    &&& fp.recyclable_waste == recyclable_waste
                    &&& fp.footprint_score_tenths == score
                })
                &&& forall|k: Seq<char>|
                    k != user_id@ ==> #[trigger] has_key(final(self).footprints@, k) == has_key(
                        old(self).footprints@,
                        k,
                    )
                &&& forall|k: Seq<char>|
                    k != user_id@ && has_key(old(self).footprints@, k) ==> #[trigger] entry_of(
                        final(self).footprints@,
                        k,
                    ) == entry_of(old(self).footprints@, k)
                &&& log_appended(*old(self), *final(self), "log_waste"@, now)
                &&& *final(self) == (Engine {
                    footprints: final(self).footprints,
                    action_log: final(self).action_log,
                    ..*old(self)
                })
            },
    {
        if self.find_user(&user_id).is_none() {
            return Err(AppError::UserNotFound);
        }
        let score: i64 = 7 * (waste_generated as i64) - 5 * (recyclable_waste as i64);
        let fp = UserFootprint {
            user_id,
            waste_generated,
            recyclable_waste,
            footprint_score_tenths: score,
        };
        match self.find_footprint(&fp.user_id) {
            Some(i) => {
                proof {
                    lemma_key_at_index(self.footprints@, i as int);
                }
                self.footprints.set(i, fp);
                proof {
                    lemma_update_at(old(self).footprints@, i as int, fp);
                }
            },
            None => {
                self.footprints.push(fp);
                proof {
                    lemma_push_fresh(old(self).footprints@, fp);
                }
            },
        }
        self.append_log("log_waste", now);
        Ok(score)
    }

    /// The user's latest footprint, or the absence error.
    pub fn get_footprint(&self, user_id: &String) -> (r: Result<&UserFootprint, AppError>)
        requires
            self.wf(),
        ensures
            r is Ok <==> self.has_footprint(user_id@),
            r matches Ok(fp) ==> *fp == self.footprint_of(user_id@),
            r is Err ==> r == Err::<&UserFootprint, AppError>(AppError::UserNotFound),
    {
        match self.find_footprint(user_id) {
            Some(i) => Ok(&self.footprints[i]),
            None => Err(AppError::UserNotFound),
        }
    }
}

} // verus!
