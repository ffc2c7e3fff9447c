use vstd::prelude::*;
use crate::identity::Identity;

verus! {

/// The set of administrator identities, kept in a
/// `gstd::collections::HashSet` of `gstd::ActorId`. Nothing is proved of
/// the set itself: what it holds is `admin_set_members`, and the methods
/// below say, unproved, what each call of the hash set does to that.
#[verifier::external_body]
pub struct AdminSet {
    inner: gstd::collections::HashSet<gstd::ActorId>,
}

/// The identities that an admin set holds.
pub uninterp spec fn admin_set_members(set: AdminSet) -> Set<Identity>;

impl AdminSet {
    /// Calls `gstd::collections::HashSet::new`. Trusted: the new set holds nothing.
    #[verifier::external_body]
    pub(crate) fn empty() -> (set: AdminSet)
        ensures
            admin_set_members(set) == Set::<Identity>::empty(),
    {
        AdminSet { inner: gstd::collections::HashSet::new() }
    }

    /// Calls `gstd::collections::HashSet::contains` with the actor of the
    /// same 32 bytes. Trusted: the answer is whether the
    /// identity is a member; the set is not changed.
    #[verifier::external_body]
    pub(crate) fn contains(&self, id: Identity) -> (found: bool)
        ensures
            found == admin_set_members(*self).contains(id),
    {
        self.inner.contains(&gstd::ActorId::new(id.bytes))
    }

    /// Calls `gstd::collections::HashSet::insert` with the actor of the
    /// same 32 bytes. Trusted: afterwards the set holds the
    /// identity beside what it held, and the answer is whether the
    /// identity was absent before.
    #[verifier::external_body]
    pub(crate) fn insert(&mut self, id: Identity) -> (fresh: bool)
        ensures
            admin_set_members(*final(self)) == admin_set_members(*old(self)).insert(id),
            fresh == !admin_set_members(*old(self)).contains(id),
    {
        self.inner.insert(gstd::ActorId::new(id.bytes))
    }

    /// Calls `gstd::collections::HashSet::remove` with the actor of the
    /// same 32 bytes. Trusted: afterwards the set holds what it
    /// held but the identity, and the answer is whether the identity was
    /// present before.
    #[verifier::external_body]
    pub(crate) fn remove(&mut self, id: Identity) -> (present: bool)
        ensures
            admin_set_members(*final(self)) == admin_set_members(*old(self)).remove(id),
            present == admin_set_members(*old(self)).contains(id),
    {
        self.inner.remove(&gstd::ActorId::new(id.bytes))
    }
}

} // verus!
