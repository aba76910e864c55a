use vstd::prelude::*;
use crate::error::Error;
use crate::identity::Identity;
use crate::package::{Package, PackageView};

verus! {

/// Keeps the administrator, the identifier counter and the package records.
///
/// Identifiers are handed out in order from zero, and a record can be
/// stored only under an identifier that has been handed out. The store
/// checks nothing else about what it is asked to keep.
pub struct PackageStore {
    admin: Option<Identity>,
    slots: Vec<Option<Package>>,
}

impl PackageStore {
    /// The administrator, if one has been set.
    pub closed spec fn admin(&self) -> Option<Seq<char>> {
        match self.admin {
            Some(a) => Some(a@),
            None => None,
        }
    }

    /// How many identifiers have been handed out.
    pub closed spec fn count(&self) -> nat {
        self.slots.len() as nat
    }

    /// The records, by identifier.
    pub closed spec fn packages(&self) -> Map<nat, PackageView> {
        Map::new(
            |id: nat| id < self.slots.len() && self.slots[id as int].is_some(),
            |id: nat| self.slots[id as int].unwrap()@,
        )
    }

    /// Records exist only under identifiers that have been handed out.
    pub proof fn lemma_records_below_count(&self)
        ensures
            forall|id: nat| self.packages().contains_key(id) ==> id < self.count(),
            self.count() <= u64::MAX,
    {
    }

    /// A store without administrator, identifiers or records.
    pub fn new() -> (r: Self)
        ensures
            r.admin() == None::<Seq<char>>,
            r.count() == 0,
            r.packages() == Map::<nat, PackageView>::empty(),
    {
        let r = PackageStore { admin: None, slots: Vec::new() };
        assert(r.packages() =~= Map::<nat, PackageView>::empty());
        r
    }

    /// The administrator; `NotAuthorized` while none has been set.
    pub fn get_admin(&self) -> (r: Result<Identity, Error>)
        ensures
            match r {
                Ok(a) => self.admin() == Some(a@),
                Err(e) => self.admin().is_none() && e == Error::NotAuthorized,
            },
    {
        match &self.admin {
            Some(a) => Ok(a.clone()),
            None => Err(Error::NotAuthorized),
        }
    }

    /// Whether an administrator has been set.
    pub fn has_admin(&self) -> (r: bool)
        ensures
            r == self.admin().is_some(),
    {
        self.admin.is_some()
    }

    /// Sets the administrator. This happens once: the store offers no way
    /// to replace an administrator.
    pub fn set_admin(&mut self, admin: Identity)
        requires
            old(self).admin().is_none(),
        ensures
            final(self).admin() == Some(admin@),
            final(self).count() == old(self).count(),
            final(self).packages() == old(self).packages(),
    {
        self.admin = Some(admin);
        assert(self.packages() =~= old(self).packages());
    }

    /// Hands out the next identifier: the number of identifiers handed out
    /// before. No record exists under it yet.
    pub fn next_package_id(&mut self) -> (id: u64)
        ensures
            id == old(self).count(),
            final(self).count() == old(self).count() + 1,
            final(self).admin() == old(self).admin(),
            final(self).packages() == old(self).packages(),
    {
        let id = self.slots.len() as u64;
        self.slots.push(None);
        assert(self.packages() =~= old(self).packages());
        id
    }

    /// How many identifiers have been handed out.
    pub fn package_count(&self) -> (r: u64)
        ensures
            r == self.count(),
    {
        self.slots.len() as u64
    }

    /// A copy of the record under `id`, if there is one.
    pub fn get_package(&self, id: u64) -> (r: Option<Package>)
        ensures
            r.is_some() == self.packages().contains_key(id as nat),
            r matches Some(p) ==> p@ == self.packages()[id as nat],
    {
        if id >= self.slots.len() as u64 {
            return None;
        }
        match &self.slots[id as usize] {
            Some(p) => Some(p.clone()),
            None => None,
        }
    }

    /// Stores `package` under `id`, in place of any record that was there.
    pub fn put_package(&mut self, id: u64, package: Package)
        requires
            id < old(self).count(),
        ensures
            final(self).packages() == old(self).packages().insert(id as nat, package@),
            final(self).count() == old(self).count(),
            final(self).admin() == old(self).admin(),
    {
        self.slots.set(id as usize, Some(package));
        assert(self.packages() =~= old(self).packages().insert(id as nat, package@));
    }
}

} // verus!
