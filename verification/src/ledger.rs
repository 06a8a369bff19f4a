//! The token ledger: the authoritative store of minted balances, moved
//! only by explicit mint, burn and transfer operations and by challenge
//! rewards.

use vstd::prelude::*;
use vstd::pervasive::VecAdditionalExecFns;
use crate::domain::LedgerEntry;
use crate::engine::Engine;
use crate::engine::log_appended;
use crate::errors::AppError;
use crate::keyed::keys_unique;
use crate::keyed::has_key;
use crate::keyed::entry_of;
use crate::keyed::lemma_key_at_index;
use crate::keyed::lemma_push_fresh;
use crate::keyed::lemma_update_at;

verus! {

impl Engine {
    /// Adds `amount` to the row under `owner`, creating the row when it
    /// is absent.  Shared by minting, transfers and challenge rewards;
    /// the callers append their own audit records.
    pub(crate) fn ledger_credit(&mut self, owner: String, amount: u32)
        requires
            keys_unique(old(self).ledger@),
            old(self).balance_of(owner@) + amount <= u32::MAX,
        ensures
            keys_unique(final(self).ledger@),
            final(self).in_ledger(owner@),
            final(self).balance_of(owner@) == old(self).balance_of(owner@) + amount,
            forall|k: Seq<char>|
                k != owner@ ==> #[trigger] has_key(final(self).ledger@, k) == has_key(old(self).ledger@, k),
            forall|k: Seq<char>|
                k != owner@ && has_key(old(self).ledger@, k) ==> #[trigger] entry_of(
                    final(self).ledger@,
                    k,
                ) == entry_of(old(self).ledger@, k),
            final(self).users == old(self).users,
            final(self).footprints == old(self).footprints,
            final(self).quizzes == old(self).quizzes,
            final(self).challenges == old(self).challenges,
            final(self).action_log == old(self).action_log,
            final(self).courses == old(self).courses,
            final(self).notifications == old(self).notifications,
            final(self).feedbacks == old(self).feedbacks,
            final(self).rewards == old(self).rewards,
            *final(self) == (Engine { ledger: final(self).ledger, ..*old(self) }),
    {
        match self.find_ledger(&owner) {
            Some(i) => {
                let b = self.ledger[i].balance;
                let entry = LedgerEntry { owner, balance: b + amount };
                proof {
                    lemma_key_at_index(self.ledger@, i as int);
                }
                self.ledger.set(i, entry);
                proof {
                    lemma_update_at(old(self).ledger@, i as int, entry);
                }
            },
            None => {
                let entry = LedgerEntry { owner, balance: amount };
                self.ledger.push(entry);
                proof {
                    lemma_push_fresh(old(self).ledger@, entry);
                }
            },
        }
    }

    /// Mints `amount` tokens into `user_id`'s ledger row, creating the
    /// row when absent.  Always succeeds.
    pub fn mint_tokens(&mut self, user_id: String, amount: u32, now: u64) -> (r: Result<
        (),
        AppError,
    >)
        requires
            old(self).wf(),
            old(self).balance_of(user_id@) + amount <= u32::MAX,
        ensures
            final(self).wf(),
            r == Ok::<(), AppError>(()),
            final(self).in_ledger(user_id@),
            final(self).balance_of(user_id@) == old(self).balance_of(user_id@) + amount,
            forall|k: Seq<char>|
                k != user_id@ ==> #[trigger] has_key(final(self).ledger@, k) == has_key(old(self).ledger@, k),
            forall|k: Seq<char>|
                k != user_id@ && has_key(old(self).ledger@, k) ==> #[trigger] entry_of(final(self).ledger@, k) == entry_of(old(self).ledger@, k),
            log_appended(*old(self), *final(self), "mint_tokens"@, now),
            *final(self) == (Engine {
                ledger: final(self).ledger,
                action_log: final(self).action_log,
                ..*old(self)
            }),
    {
        self.ledger_credit(user_id, amount);
        self.append_log("mint_tokens", now);
        Ok(())
    }

    /// Burns `amount` tokens from `user_id`'s ledger row.  Fails when the
    /// row is absent, or when the balance is too small — in which case
    /// nothing changes.
    pub fn burn_tokens(&mut self, user_id: String, amount: u32, now: u64) -> (r: Result<
        (),
        AppError,
    >)
        requires
            old(self).wf(),
        ensures
            final(self).wf(),
            r == (if !old(self).in_ledger(user_id@) {
                Err::<(), AppError>(AppError::UserNotFoundInLedger)
            } else if old(self).balance_of(user_id@) < amount {
                Err::<(), AppError>(AppError::InsufficientBalance)
            } else {
                Ok::<(), AppError>(())
            }),
            r is Err ==> *final(self) == *old(self),
            r is Ok ==> {
                &&& final(self).in_ledger(user_id@)
                &&& final(self).balance_of(user_id@) == old(self).balance_of(user_id@) - amount
                &&& forall|k: Seq<char>|
                    k != user_id@ ==> #[trigger] has_key(final(self).ledger@, k) == has_key(old(self).ledger@, k)
                &&& forall|k: Seq<char>|
                    k != user_id@ && has_key(old(self).ledger@, k) ==> #[trigger] entry_of(final(self).ledger@, k) == entry_of(old(self).ledger@, k)
                &&& log_appended(*old(self), *final(self), "burn_tokens"@, now)
                &&& *final(self) == (Engine {
                    ledger: final(self).ledger,
                    action_log: final(self).action_log,
                    ..*old(self)
                })
            },
    {
        match self.find_ledger(&user_id) {
            None => Err(AppError::UserNotFoundInLedger),
            Some(i) => {
                let b = self.ledger[i].balance;
                if b < amount {
                    return Err(AppError::InsufficientBalance);
                }
                let entry = LedgerEntry { owner: user_id, balance: b - amount };
                proof {
                    lemma_key_at_index(self.ledger@, i as int);
                }
                self.ledger.set(i, entry);
                proof {
                    lemma_update_at(old(self).ledger@, i as int, entry);
                }
                self.append_log("burn_tokens", now);
                Ok(())
            },
        }
    }

    /// Moves `amount` tokens from `from` to `to`, creating the recipient
    /// row when absent.  Debit and credit happen together or not at all;
    /// the two balances' sum is preserved.
    pub fn transfer_tokens(&mut self, from: String, to: String, amount: u32, now: u64) -> (r:
        Result<(), AppError>)
        requires
            old(self).wf(),
            from@ != to@ ==> old(self).balance_of(to@) + amount <= u32::MAX,
        ensures
            final(self).wf(),
            r == (if !old(self).in_ledger(from@) {
                Err::<(), AppError>(AppError::UserNotFoundInLedger)
            } else if old(self).balance_of(from@) < amount {
                Err::<(), AppError>(AppError::InsufficientBalance)
            } else {
                Ok::<(), AppError>(())
            }),
            r is Err ==> *final(self) == *old(self),
            r is Ok ==> {
                &&& final(self).in_ledger(from@) && final(self).in_ledger(to@)
                &&& final(self).balance_of(from@) == (if from@ == to@ {
                    old(self).balance_of(from@)
                } else {
                    old(self).balance_of(from@) - amount
                })
                &&& final(self).balance_of(to@) == (if from@ == to@ {
                    old(self).balance_of(to@)
                } else {
                    old(self).balance_of(to@) + amount
                })
                &&& final(self).balance_of(from@) + final(self).balance_of(to@) == old(self).balance_of(from@) + old(self).balance_of(to@)
                &&& forall|k: Seq<char>|
                    k != from@ && k != to@ ==> #[trigger] has_key(final(self).ledger@, k) == has_key(old(self).ledger@, k)
                &&& forall|k: Seq<char>|
                    k != from@ && k != to@ && has_key(old(self).ledger@, k) ==> #[trigger] entry_of(final(self).ledger@, k) == entry_of(old(self).ledger@, k)
                &&& log_appended(*old(self), *final(self), "transfer_tokens"@, now)
                &&& *final(self) == (Engine {
                    ledger: final(self).ledger,
                    action_log: final(self).action_log,
                    ..*old(self)
                })
            },
    {
        match self.find_ledger(&from) {
            None => Err(AppError::UserNotFoundInLedger),
            Some(i) => {
                let b = self.ledger[i].balance;
                if b < amount {
                    return Err(AppError::InsufficientBalance);
                }
                if from == to {
                    self.append_log("transfer_tokens", now);
                    return Ok(());
                }
                let debited = LedgerEntry { owner: from, balance: b - amount };
                proof {
                    lemma_key_at_index(self.ledger@, i as int);
                }
                self.ledger.set(i, debited);
                proof {
                    lemma_update_at(old(self).ledger@, i as int, debited);
                }
                self.ledger_credit(to, amount);
                self.append_log("transfer_tokens", now);
                Ok(())
            },
        }
    }

    /// The ledger balance under `user_id`, or the absence error.
    pub fn get_balance(&self, user_id: &String) -> (r: Result<u32, AppError>)
        requires
            self.wf(),
        ensures
            r == (if self.in_ledger(user_id@) {
                Ok::<u32, AppError>(self.ledger_entry_of(user_id@).balance)
            } else {
                Err::<u32, AppError>(AppError::UserNotFoundInLedger)
            }),
    {
        match self.find_ledger(user_id) {
            Some(i) => Ok(self.ledger[i].balance),
            None => Err(AppError::UserNotFoundInLedger),
        }
    }

    /// Credits a challenge's reward tokens to `user_id`'s ledger row —
    /// the delegated mint of the challenge-reward path.  Fails only when
    /// the challenge is unknown.
    pub fn reward_user_for_challenge(&mut self, user_id: String, challenge_id: String, now: u64)
        -> (r: Result<(), AppError>)
        requires
            old(self).wf(),
            old(self).has_challenge(challenge_id@) ==> old(self).balance_of(user_id@) + old(self).challenge_of(challenge_id@).reward_tokens <= u32::MAX,
        ensures
            final(self).wf(),
            r == (if !old(self).has_challenge(challenge_id@) {
                Err::<(), AppError>(AppError::ChallengeNotFound)
            } else {
                Ok::<(), AppError>(())
            }),
            r is Err ==> *final(self) == *old(self),
            r is Ok ==> {
                &&& final(self).in_ledger(user_id@)
                &&& final(self).balance_of(user_id@) == old(self).balance_of(user_id@) + old(
                    self,
                ).challenge_of(challenge_id@).reward_tokens
                &&& forall|k: Seq<char>|
                    k != user_id@ ==> #[trigger] has_key(final(self).ledger@, k) == has_key(old(self).ledger@, k)
                &&& forall|k: Seq<char>|
                    k != user_id@ && has_key(old(self).ledger@, k) ==> #[trigger] entry_of(final(self).ledger@, k) == entry_of(old(self).ledger@, k)
                &&& log_appended(*old(self), *final(self), "reward_user_for_challenge"@, now)
                &&& *final(self) == (Engine {
                    ledger: final(self).ledger,
                    action_log: final(self).action_log,
                    ..*old(self)
                })
            },
    {
        match self.find_challenge(&challenge_id) {
            None => Err(AppError::ChallengeNotFound),
            Some(ci) => {
                let amount = self.challenges[ci].reward_tokens;
                self.ledger_credit(user_id, amount);
                self.append_log("reward_user_for_challenge", now);
                Ok(())
            },
        }
    }
}

} // verus!
