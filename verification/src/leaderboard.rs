//! The leaderboard: every user with their profile token count, ordered
//! by tokens descending and, among equal counts, by id ascending.

use vstd::prelude::*;
use vstd::seq_lib::to_multiset_insert;
use vstd::seq_lib::to_multiset_build;
use vstd::string::StrSliceExecFns;
use crate::domain::User;
use crate::engine::Engine;

verus! {

/// Lexicographic order on code points: whether `a` sorts at or before
/// `b`.
pub open spec fn lex_le(a: Seq<char>, b: Seq<char>) -> bool
    decreases a.len(),
{
    if a.len() == 0 {
        true
    } else if b.len() == 0 {
        false
    } else if (a[0] as u32) < (b[0] as u32) {
        true
    } else if (a[0] as u32) > (b[0] as u32) {
        false
    } else {
        lex_le(a.drop_first(), b.drop_first())
    }
}

/// Any two strings compare one way or the other.
pub proof fn lemma_lex_le_total(a: Seq<char>, b: Seq<char>)
    ensures
        lex_le(a, b) || lex_le(b, a),
    decreases a.len(),
{
    if a.len() == 0 {
    } else if b.len() == 0 {
    } else if (a[0] as u32) == (b[0] as u32) {
        lemma_lex_le_total(a.drop_first(), b.drop_first());
    }
}

/// One shared-prefix step: equal characters at the front leave the
/// comparison of the remainders unchanged.
proof fn lemma_lex_le_skip(a: Seq<char>, b: Seq<char>, i: int)
    requires
        0 <= i < a.len(),
        i < b.len(),
        a[i] == b[i],
    ensures
        lex_le(a.skip(i), b.skip(i)) == lex_le(a.skip(i + 1), b.skip(i + 1)),
{
    assert(a.skip(i)[0] == a[i]);
    assert(b.skip(i)[0] == b[i]);
    assert(a.skip(i).drop_first() =~= a.skip(i + 1));
    assert(b.skip(i).drop_first() =~= b.skip(i + 1));
}

/// Whether the entry `a` may stand before `b`: more tokens, or the same
/// tokens and an id that is not later.
pub open spec fn leader_le(a: (String, u32), b: (String, u32)) -> bool {
    a.1 > b.1 || (a.1 == b.1 && lex_le(a.0@, b.0@))
}

/// Any two entries compare one way or the other.
pub proof fn lemma_leader_le_total(a: (String, u32), b: (String, u32))
    ensures
        leader_le(a, b) || leader_le(b, a),
{
    lemma_lex_le_total(a.0@, b.0@);
}

/// Each neighbouring pair of the sequence is in leaderboard order.
pub open spec fn leaders_sorted(s: Seq<(String, u32)>) -> bool {
    forall|i: int| 0 <= i && i + 1 < s.len() ==> leader_le(#[trigger] s[i], s[i + 1])
}

/// The entries reduced to plain values: id as characters, token count.
pub open spec fn pairs_of(s: Seq<(String, u32)>) -> Seq<(Seq<char>, u32)> {
    s.map_values(|p: (String, u32)| (p.0@, p.1))
}

/// What each user contributes to the board.
pub open spec fn user_entries(s: Seq<User>) -> Seq<(Seq<char>, u32)> {
    s.map_values(|u: User| (u.id@, u.tokens))
}

/// Whether `a` sorts at or before `b` in code-point order.
fn str_lex_le(a: &String, b: &String) -> (r: bool)
    ensures
        r == lex_le(a@, b@),
{
    let an = a.as_str().unicode_len();
    let bn = b.as_str().unicode_len();
    let mut i: usize = 0;
    proof {
        assert(a@.skip(0) =~= a@);
        assert(b@.skip(0) =~= b@);
    }
    while i < an && i < bn
        invariant
            an == a@.len(),
            bn == b@.len(),
            0 <= i <= an,
            i <= bn,
            lex_le(a@, b@) == lex_le(a@.skip(i as int), b@.skip(i as int)),
        decreases an - i,
    {
        let ca = a.as_str().get_char(i);
        let cb = b.as_str().get_char(i);
        proof {
            assert(a@.skip(i as int)[0] == a@[i as int]);
            assert(b@.skip(i as int)[0] == b@[i as int]);
        }
        if (ca as u32) < (cb as u32) {
            return true;
        }
        if (ca as u32) > (cb as u32) {
            return false;
        }
        proof {
            lemma_lex_le_skip(a@, b@, i as int);
        }
        i = i + 1;
    }
    proof {
        if i >= an {
            assert(a@.skip(i as int).len() == 0);
        } else {
            assert(b@.skip(i as int).len() == 0);
            assert(a@.skip(i as int).len() > 0);
        }
    }
    an <= bn
}

/// Whether the entry `a` may stand before `b` on the board.
fn leader_before(a: &(String, u32), b: &(String, u32)) -> (r: bool)
    ensures
        r == leader_le(*a, *b),
{
    if a.1 > b.1 {
        true
    } else if a.1 < b.1 {
        false
    } else {
        str_lex_le(&a.0, &b.0)
    }
}

impl Engine {
    /// Every user's id and token count, sorted by tokens descending with
    /// ties broken by id ascending, so the board is deterministic.
    pub fn get_leaderboard(&self) -> (r: Vec<(String, u32)>)
        ensures
            r@.len() == self.users@.len(),
            leaders_sorted(r@),
            pairs_of(r@).to_multiset() == user_entries(self.users@).to_multiset(),
    {
        let mut out: Vec<(String, u32)> = Vec::new();
        let n = self.users.len();
        proof {
            assert(self.users@.take(0).map_values(|u: User| (u.id@, u.tokens)) =~= Seq::<(
                Seq<char>,
                u32,
            )>::empty());
            assert(pairs_of(out@) =~= Seq::<(Seq<char>, u32)>::empty());
        }
        for i in 0..n
            invariant
                n == self.users@.len(),
                out@.len() == i,
                leaders_sorted(out@),
                pairs_of(out@).to_multiset() == user_entries(
                    self.users@.take(i as int),
                ).to_multiset(),
        {
            let pair = (self.users[i].id.clone(), self.users[i].tokens);
            let mut p: usize = 0;
            while p < out.len() && leader_before(&out[p], &pair)
                invariant
                    0 <= p <= out.len(),
                    forall|j: int| 0 <= j < p ==> leader_le(#[trigger] out@[j], pair),
                decreases out.len() - p,
            {
                p = p + 1;
            }
            proof {
                if p < out.len() {
                    lemma_leader_le_total(out@[p as int], pair);
                }
            }
            let ghost before = out@;
            out.insert(p, pair);
            proof {
                before.insert_ensures(p as int, pair);
                assert(leaders_sorted(out@)) by {
                    assert forall|t: int| 0 <= t && t + 1 < out@.len() implies leader_le(
                        #[trigger] out@[t],
                        out@[t + 1],
                    ) by {
                        if t + 1 < p {
                            assert(out@[t] == before[t]);
                            assert(out@[t + 1] == before[t + 1]);
                        } else if t + 1 == p {
                            assert(out@[t] == before[t]);
                            assert(out@[t + 1] == pair);
                        } else if t == p {
                            assert(out@[t] == pair);
                            assert(out@[t + 1] == before[t]);
                        } else {
                            assert(out@[t] == before[t - 1]);
                            assert(out@[t + 1] == before[t]);
                        }
                    }
                }
                assert(pairs_of(out@) =~= pairs_of(before).insert(
                    p as int,
                    (pair.0@, pair.1),
                ));
                to_multiset_insert(pairs_of(before), p as int, (pair.0@, pair.1));
                assert(user_entries(self.users@.take(i + 1)) =~= user_entries(
                    self.users@.take(i as int),
                ).push((self.users@[i as int].id@, self.users@[i as int].tokens)));
                to_multiset_build(
                    user_entries(self.users@.take(i as int)),
                    (self.users@[i as int].id@, self.users@[i as int].tokens),
                );
            }
        }
        proof {
            assert(self.users@.take(n as int) =~= self.users@);
        }
        out
    }
}

} // verus!
