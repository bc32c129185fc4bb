//! The moderator roster: who may run admin commands besides the fixed
//! admin.  The roster itself is plain state; persisting it to disk is the
//! process edge's work.

use vstd::prelude::*;
use crate::text::str_eq_str;

verus! {

/// Whether the roster holds the user.
pub open spec fn has_mod(s: Seq<String>, uid: Seq<char>) -> bool {
    exists|i: int| 0 <= i < s.len() && s[i]@ == uid
}

/// No user appears twice.
pub open spec fn mods_unique(s: Seq<String>) -> bool {
    forall|i: int, j: int| 0 <= i < j < s.len() ==> s[i]@ != s[j]@
}

/// The roster of moderator user ids, each held once.
pub struct ModeratorsStore {
    pub moderators: Vec<String>,
}

impl ModeratorsStore {
    pub fn new() -> (r: Self)
        ensures
            r.moderators@.len() == 0,
            mods_unique(r.moderators@),
    {
        ModeratorsStore { moderators: Vec::new() }
    }

    /// Add the user to the roster, once.
    pub fn add_moderator(&mut self, user_id: String)
        requires
            mods_unique(old(self).moderators@),
        ensures
            mods_unique(final(self).moderators@),
            has_mod(final(self).moderators@, user_id@),
            forall|u: Seq<char>|
                u != user_id@ ==> #[trigger] has_mod(final(self).moderators@, u) == has_mod(
                    old(self).moderators@,
                    u,
                ),
    {
        if !self.is_moderator(user_id.as_str()) {
            let ghost s0 = self.moderators@;
            self.moderators.push(user_id);
            proof {
                assert(self.moderators@[s0.len() as int]@ == user_id@);
                assert forall|u: Seq<char>| u != user_id@ implies #[trigger] has_mod(
                    self.moderators@,
                    u,
                ) == has_mod(s0, u) by {
                    if has_mod(self.moderators@, u) {
                        let i = choose|i: int|
                            0 <= i < self.moderators@.len() && self.moderators@[i]@ == u;
                        assert(i < s0.len() && s0[i]@ == u);
                    }
                    if has_mod(s0, u) {
                        let i = choose|i: int| 0 <= i < s0.len() && s0[i]@ == u;
                        assert(self.moderators@[i]@ == u);
                    }
                }
            }
        }
    }

    /// Drop the user from the roster; report whether they were on it.
    pub fn remove_moderator(&mut self, user_id: &str) -> (r: bool)
        requires
            mods_unique(old(self).moderators@),
        ensures
            mods_unique(final(self).moderators@),
            r == has_mod(old(self).moderators@, user_id@),
            !has_mod(final(self).moderators@, user_id@),
            forall|u: Seq<char>|
                u != user_id@ ==> #[trigger] has_mod(final(self).moderators@, u) == has_mod(
                    old(self).moderators@,
                    u,
                ),
    {
        let ghost s0 = self.moderators@;
        let len = self.moderators.len();
        let mut out: Vec<String> = Vec::new();
        let mut found: bool = false;
        let mut i: usize = 0;
        while i < len
            invariant
                i <= len,
                len == s0.len(),
                s0 == self.moderators@,
                mods_unique(s0),
                forall|k: int|
                    0 <= k < out@.len() ==> exists|j: int|
                        0 <= j < i && (#[trigger] out@[k])@ == s0[j]@,
                forall|j: int|
                    0 <= j < i && s0[j]@ != user_id@ ==> has_mod(out@, #[trigger] s0[j]@),
                forall|k: int| 0 <= k < out@.len() ==> (#[trigger] out@[k])@ != user_id@,
                mods_unique(out@),
                found == exists|j: int| 0 <= j < i && (#[trigger] s0[j])@ == user_id@,
            decreases len - i,
        {
            let keep = !str_eq_str(self.moderators[i].as_str(), user_id);
            if keep {
                let ghost o0 = out@;
                out.push(self.moderators[i].clone());
                proof {
                    assert(out@[o0.len() as int]@ == s0[i as int]@);
                    assert forall|k: int| 0 <= k < out@.len() implies exists|j: int|
                        0 <= j < i + 1 && (#[trigger] out@[k])@ == s0[j]@ by {
                        if k < o0.len() {
                            assert(out@[k] == o0[k]);
                            let j = choose|j: int| 0 <= j < i && o0[k]@ == s0[j]@;
                            assert(out@[k]@ == s0[j]@);
                        } else {
                            assert(out@[k]@ == s0[i as int]@);
                        }
                    }
                    assert forall|j: int| 0 <= j < i + 1 && s0[j]@ != user_id@ implies has_mod(
                        out@,
                        #[trigger] s0[j]@,
                    ) by {
                        if j < i {
                            let k = choose|k: int| 0 <= k < o0.len() && o0[k]@ == s0[j]@;
                            assert(out@[k]@ == s0[j]@);
                        } else {
                            assert(out@[o0.len() as int]@ == s0[j]@);
                        }
                    }
                }
            } else {
                found = true;
                proof {
                    assert forall|j: int| 0 <= j < i + 1 && s0[j]@ != user_id@ implies has_mod(
                        out@,
                        #[trigger] s0[j]@,
                    ) by {}
                }
            }
            i = i + 1;
        }
        self.moderators = out;
        proof {
            assert forall|u: Seq<char>| u != user_id@ implies #[trigger] has_mod(
                self.moderators@,
                u,
            ) == has_mod(s0, u) by {
                if has_mod(self.moderators@, u) {
                    let k = choose|k: int|
                        0 <= k < self.moderators@.len() && self.moderators@[k]@ == u;
                    let j = choose|j: int| 0 <= j < len && self.moderators@[k]@ == s0[j]@;
                    assert(s0[j]@ == u);
                }
                if has_mod(s0, u) {
                    let j = choose|j: int| 0 <= j < s0.len() && s0[j]@ == u;
                    assert(has_mod(self.moderators@, s0[j]@));
                }
            }
        }
        found
    }

    /// Whether the user is on the roster.
    pub fn is_moderator(&self, user_id: &str) -> (r: bool)
        ensures
            r == has_mod(self.moderators@, user_id@),
    {
        let len = self.moderators.len();
        let mut i: usize = 0;
        while i < len
            invariant
                i <= len,
                len == self.moderators@.len(),
                forall|k: int| 0 <= k < i ==> (#[trigger] self.moderators@[k])@ != user_id@,
            decreases len - i,
        {
            if str_eq_str(self.moderators[i].as_str(), user_id) {
                return true;
            }
            i = i + 1;
        }
        false
    }

    /// Every moderator on the roster, in roster order.
    pub fn list_moderators(&self) -> (r: Vec<String>)
        ensures
            r@.len() == self.moderators@.len(),
            forall|k: int| 0 <= k < r@.len() ==> (#[trigger] r@[k])@ == self.moderators@[k]@,
    {
        let len = self.moderators.len();
        let mut out: Vec<String> = Vec::new();
        let mut i: usize = 0;
        while i < len
            invariant
                i <= len,
                len == self.moderators@.len(),
                out@.len() == i,
                forall|k: int| 0 <= k < i ==> (#[trigger] out@[k])@ == self.moderators@[k]@,
            decreases len - i,
        {
            out.push(self.moderators[i].clone());
            i = i + 1;
        }
        out
    }

    /// Whether the user is the fixed admin.
    pub fn is_admin(&self, user_id: &str, admin_user_id: &str) -> (r: bool)
        ensures
            r == (user_id@ == admin_user_id@),
    {
        str_eq_str(user_id, admin_user_id)
    }

    /// Whether the user may run privileged commands: the admin, or any
    /// moderator.
    pub fn is_authorized(&self, user_id: &str, admin_user_id: &str) -> (r: bool)
        ensures
            r == (user_id@ == admin_user_id@ || has_mod(self.moderators@, user_id@)),
    {
        self.is_admin(user_id, admin_user_id) || self.is_moderator(user_id)
    }
}

} // verus!
