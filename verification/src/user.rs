//! Logical users, each aggregating accounts from several platforms.

use vstd::prelude::*;

use crate::platform::{Platform, PlatformId};

verus! {

/// The platform-to-id mapping a sequence of entries denotes: later entries
/// win when a platform occurs twice.
pub open spec fn map_of(s: Seq<PlatformId>) -> Map<Platform, u128>
    decreases s.len(),
{
    if s.len() == 0 {
        Map::empty()
    } else {
        map_of(s.drop_last()).insert(s.last().platform, s.last().value)
    }
}

/// No two entries of `s` belong to the same platform.
pub open spec fn platforms_unique(s: Seq<PlatformId>) -> bool {
    forall|i: int, j: int| 0 <= i < j < s.len() ==> s[i].platform != s[j].platform
}

/// A platform is in the denoted mapping exactly when some entry carries it.
proof fn lemma_map_of_contains(s: Seq<PlatformId>, p: Platform)
    ensures
        map_of(s).contains_key(p) <==> exists|i: int| 0 <= i < s.len() && s[i].platform == p,
    decreases s.len(),
{
    if s.len() > 0 {
        lemma_map_of_contains(s.drop_last(), p);
        if s.last().platform == p {
            assert(s[s.len() - 1].platform == p);
        } else {
            if exists|i: int| 0 <= i < s.len() && s[i].platform == p {
                let i = choose|i: int| 0 <= i < s.len() && s[i].platform == p;
                assert(s.drop_last()[i].platform == p);
            }
        }
    }
}

/// With unique platforms, each entry's value is the one the mapping holds
/// for its platform.
proof fn lemma_map_of_value(s: Seq<PlatformId>, i: int)
    requires
        platforms_unique(s),
        0 <= i < s.len(),
    ensures
        map_of(s).contains_key(s[i].platform),
        map_of(s)[s[i].platform] == s[i].value,
    decreases s.len(),
{
    if i == s.len() - 1 {
    } else {
        assert(s[i].platform != s.last().platform);
        assert(s.drop_last()[i] == s[i]);
        lemma_map_of_value(s.drop_last(), i);
    }
}

/// Replacing the entry that carries a platform inserts the new value into
/// the denoted mapping.
proof fn lemma_map_of_update(s: Seq<PlatformId>, i: int, pid: PlatformId)
    requires
        platforms_unique(s),
        0 <= i < s.len(),
        s[i].platform == pid.platform,
    ensures
        map_of(s.update(i, pid)) == map_of(s).insert(pid.platform, pid.value),
    decreases s.len(),
{
    let t = s.update(i, pid);
    if i == s.len() - 1 {
        assert(t.drop_last() =~= s.drop_last());
        assert(t.last() == pid);
        assert(map_of(s.drop_last()).insert(s.last().platform, s.last().value).insert(
            pid.platform,
            pid.value,
        ) =~= map_of(s.drop_last()).insert(pid.platform, pid.value));
    } else {
        assert(t.drop_last() =~= s.drop_last().update(i, pid));
        assert(t.last() == s.last());
        assert(s.drop_last()[i] == s[i]);
        lemma_map_of_update(s.drop_last(), i, pid);
        assert(s.last().platform != pid.platform);
        assert(map_of(s.drop_last()).insert(pid.platform, pid.value).insert(
            s.last().platform,
            s.last().value,
        ) =~= map_of(s.drop_last()).insert(s.last().platform, s.last().value).insert(
            pid.platform,
            pid.value,
        ));
    }
}

/// A logical identity across platforms: an internal numeric id (unique
/// within this system, opaque to platforms), a display username, and a
/// mapping from platform to platform-local numeric id.
pub struct User {
    id: u128,
    platform_ids: Vec<PlatformId>,
    pub username: String,
}

impl User {
    /// The user's internal numeric id, assigned once at creation by the
    /// owning collaborator.
    pub closed spec fn spec_id(self) -> u128 {
        self.id
    }

    /// The user's display username.
    pub closed spec fn spec_username(self) -> Seq<char> {
        self.username@
    }

    /// The platform-to-id mapping the user currently holds.
    pub closed spec fn platform_map(self) -> Map<Platform, u128> {
        map_of(self.platform_ids@)
    }

    /// Well-formed: at most one id per platform.
    pub closed spec fn wf(self) -> bool {
        platforms_unique(self.platform_ids@)
    }

    /// What `get_platform_id` returns: the currently mapped id for the
    /// platform, or the empty result.
    pub open spec fn spec_get(self, platform: Platform) -> Option<PlatformId> {
        if self.platform_map().contains_key(platform) {
            Some(PlatformId { value: self.platform_map()[platform], platform })
        } else {
            None
        }
    }

    /// Creates a user with no platform accounts yet.
    pub fn new(id: u128, username: String) -> (u: User)
        ensures
            u.wf(),
            u.spec_id() == id,
            u.spec_username() == username@,
            u.platform_map() == Map::<Platform, u128>::empty(),
    {
        User { id, platform_ids: Vec::new(), username }
    }

    /// Returns the user's internal numeric id.
    pub fn id(&self) -> (r: u128)
        ensures
            r == self.spec_id(),
    {
        self.id
    }

    /// Inserts or replaces the id mapped to `id.platform`: a deliberate
    /// last-write-wins merge policy, never an error.
    pub fn set_platform_id(&mut self, id: &PlatformId)
        requires
            old(self).wf(),
        ensures
            final(self).wf(),
            final(self).platform_map() == old(self).platform_map().insert(
                id.platform,
                id.value,
            ),
            final(self).spec_id() == old(self).spec_id(),
            final(self).spec_username() == old(self).spec_username(),
    {
        let n = self.platform_ids.len();
        let mut i: usize = 0;
        while i < n
            invariant
                *self == *old(self),
                self.wf(),
                n == self.platform_ids.len(),
                i <= n,
                forall|j: int| 0 <= j < i ==> self.platform_ids@[j].platform != id.platform,
            decreases n - i,
        {
            if self.platform_ids[i].platform == id.platform {
                proof {
                    lemma_map_of_update(self.platform_ids@, i as int, *id);
                }
                self.platform_ids[i] = *id;
                proof {
                    let s = old(self).platform_ids@;
                    let t = self.platform_ids@;
                    assert(t == s.update(i as int, *id));
                    assert forall|a: int, b: int|
                        0 <= a < b < t.len() implies t[a].platform != t[b].platform by {
                        assert(s[a].platform != s[b].platform);
                    }
                }
                return ;
            }
            i += 1;
        }
        self.platform_ids.push(*id);
        proof {
            let s0 = old(self).platform_ids@;
            let t = self.platform_ids@;
            assert(t.drop_last() =~= s0);
            assert(map_of(t) == map_of(s0).insert(id.platform, id.value));
            assert forall|a: int, b: int|
                0 <= a < b < t.len() implies t[a].platform != t[b].platform by {
                if b < t.len() - 1 {
                    assert(s0[a].platform != s0[b].platform);
                } else {
                    assert(t[b] == *id);
                    assert(s0[a].platform != id.platform);
                }
            }
        }
    }

    /// Returns the currently mapped id for `platform`, or the empty result
    /// if the user has no account on that platform. No side effects.
    pub fn get_platform_id(&self, platform: Platform) -> (r: Option<PlatformId>)
        requires
            self.wf(),
        ensures
            r == self.spec_get(platform),
    {
        let n = self.platform_ids.len();
        let mut i: usize = 0;
        while i < n
            invariant
                n == self.platform_ids.len(),
                i <= n,
                self.wf(),
                forall|j: int| 0 <= j < i ==> self.platform_ids@[j].platform != platform,
            decreases n - i,
        {
            let entry = self.platform_ids[i];
            if entry.platform == platform {
                proof {
                    lemma_map_of_value(self.platform_ids@, i as int);
                }
                return Some(PlatformId { value: entry.value, platform });
            }
            i += 1;
        }
        proof {
            lemma_map_of_contains(self.platform_ids@, platform);
        }
        None
    }
}

/// Setting an id for one platform does not affect what is mapped for any
/// other platform: `u2`, a user as it stands after `set_platform_id(id)` on
/// `u1`, answers every other platform's query as `u1` does.
pub proof fn lemma_set_preserves_other_platforms(u1: User, u2: User, id: PlatformId, p: Platform)
    requires
        u2.platform_map() == u1.platform_map().insert(id.platform, id.value),
        p != id.platform,
    ensures
        u2.spec_get(p) == u1.spec_get(p),
{
}

/// After `set_platform_id(id)`, querying `id.platform` returns exactly the
/// id that was set, equal in value and platform.
pub proof fn lemma_set_then_get(u1: User, u2: User, id: PlatformId)
    requires
        u2.platform_map() == u1.platform_map().insert(id.platform, id.value),
    ensures
        u2.spec_get(id.platform) == Some(id),
{
}

/// Last write wins: after setting `id1` and then `id2` for the same
/// platform, the platform's query returns `id2`, not `id1`.
pub proof fn lemma_set_overwrites(u1: User, u2: User, u3: User, id1: PlatformId, id2: PlatformId)
    requires
        id1.platform == id2.platform,
        id1.value != id2.value,
        u2.platform_map() == u1.platform_map().insert(id1.platform, id1.value),
        u3.platform_map() == u2.platform_map().insert(id2.platform, id2.value),
    ensures
        u3.spec_get(id1.platform) == Some(id2),
        u3.spec_get(id1.platform) != Some(id1),
{
}

/// A user with no id ever set for a platform gets the empty result: a
/// freshly created user answers every platform's query with `None`.
pub proof fn lemma_fresh_user_has_no_ids(u: User, p: Platform)
    requires
        u.platform_map() == Map::<Platform, u128>::empty(),
    ensures
        u.spec_get(p) is None,
{
}

} // verus!
