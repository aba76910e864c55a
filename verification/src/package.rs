use vstd::prelude::*;
use crate::identity::Identity;

verus! {

/// Where a package stands in its lifecycle.
#[derive(Clone, Copy, PartialEq, Eq, Debug, Structural)]
pub enum PackageStatus {
    /// Deposited and waiting for its recipient.
    Created,
    /// Redeemed by its recipient.
    Claimed,
    /// Found past its deadline when a claim was attempted.
    Expired,
    /// Revoked by the administrator.
    Cancelled,
}

/// One entry of a package's free-form metadata.
#[derive(Debug, PartialEq, Eq)]
pub struct MetadataEntry {
    pub key: String,
    pub value: String,
}

impl View for MetadataEntry {
    type V = (Seq<char>, Seq<char>);

    open spec fn view(&self) -> (Seq<char>, Seq<char>) {
        (self.key@, self.value@)
    }
}

impl Clone for MetadataEntry {
    fn clone(&self) -> (r: Self)
        ensures
            r@ == self@,
    {
        MetadataEntry { key: self.key.clone(), value: self.value.clone() }
    }
}

/// The entries of `entries`, each by its view, in order.
pub open spec fn metadata_view(entries: Seq<MetadataEntry>) -> Seq<(Seq<char>, Seq<char>)> {
    Seq::new(entries.len(), |i: int| entries[i]@)
}

/// Whether no key occurs twice in `metadata`, as befits a mapping.
pub open spec fn keys_distinct(metadata: Seq<(Seq<char>, Seq<char>)>) -> bool {
    forall|i: int, j: int| 0 <= i < j < metadata.len() ==> metadata[i].0 != metadata[j].0
}

/// Whether no key occurs twice in `entries`.
pub fn has_distinct_keys(entries: &Vec<MetadataEntry>) -> (r: bool)
    ensures
        r == keys_distinct(metadata_view(entries@)),
{
    let ghost view = metadata_view(entries@);
    let mut j: usize = 0;
    while j < entries.len()
        invariant
            j <= entries.len(),
            view == metadata_view(entries@),
            forall|a: int, b: int| 0 <= a < b < j ==> view[a].0 != view[b].0,
        decreases entries.len() - j,
    {
        let mut i: usize = 0;
        while i < j
            invariant
                i <= j < entries.len(),
                view == metadata_view(entries@),
                forall|a: int| 0 <= a < i ==> view[a].0 != view[j as int].0,
            decreases j - i,
        {
            if entries[i].key == entries[j].key {
                assert(view[i as int].0 == view[j as int].0);
                return false;
            }
            i += 1;
        }
        j += 1;
    }
    true
}

/// A copy of `entries` with the same keys and values in the same order.
pub fn clone_metadata(entries: &Vec<MetadataEntry>) -> (r: Vec<MetadataEntry>)
    ensures
        metadata_view(r@) == metadata_view(entries@),
{
    let mut out: Vec<MetadataEntry> = Vec::new();
    let mut i: usize = 0;
    while i < entries.len()
        invariant
            i <= entries.len(),
            out.len() == i,
            forall|j: int| 0 <= j < i ==> out[j]@ == entries[j]@,
        decreases entries.len() - i,
    {
        out.push(entries[i].clone());
        i += 1;
    }
    assert(metadata_view(out@) =~= metadata_view(entries@));
    out
}

/// What a package is, as plain mathematical values.
pub struct PackageView {
    pub recipient: Seq<char>,
    pub amount: int,
    pub token: Seq<char>,
    pub status: PackageStatus,
    pub created_at: nat,
    pub expires_at: nat,
    pub metadata: Seq<(Seq<char>, Seq<char>)>,
}

impl PackageView {
    /// A deadline of zero means the package never expires; otherwise it has
    /// expired once the clock is strictly past the deadline.
    pub open spec fn expired_at(self, now: nat) -> bool {
        self.expires_at != 0 && now > self.expires_at
    }

    /// The same package with another status.
    pub open spec fn with_status(self, status: PackageStatus) -> PackageView {
        PackageView { status, ..self }
    }

    /// The same package in all but its status.
    pub open spec fn same_terms(self, other: PackageView) -> bool {
        self.with_status(other.status) == other
    }

    /// What holds of every package that the escrow keeps: a positive amount,
    /// a deadline after its creation unless it has none, the status
    /// `Expired` only where there is a deadline, and metadata in which no
    /// key occurs twice.
    pub open spec fn valid(self) -> bool {
        &&& self.amount > 0
        &&& (self.expires_at == 0 || self.created_at < self.expires_at)
        &&& (self.status == PackageStatus::Expired ==> self.expires_at != 0)
        &&& keys_distinct(self.metadata)
    }
}

/// A deposit earmarked for one recipient.
#[derive(Debug, PartialEq)]
pub struct Package {
    pub recipient: Identity,
    pub amount: i128,
    pub token: Identity,
    pub status: PackageStatus,
    pub created_at: u64,
    pub expires_at: u64,
    pub metadata: Vec<MetadataEntry>,
}

impl View for Package {
    type V = PackageView;

    open spec fn view(&self) -> PackageView {
        PackageView {
            recipient: self.recipient@,
            amount: self.amount as int,
            token: self.token@,
            status: self.status,
            created_at: self.created_at as nat,
            expires_at: self.expires_at as nat,
            metadata: metadata_view(self.metadata@),
        }
    }
}

impl Clone for Package {
    fn clone(&self) -> (r: Self)
        ensures
            r@ == self@,
    {
        Package {
            recipient: self.recipient.clone(),
            amount: self.amount,
            token: self.token.clone(),
            status: self.status,
            created_at: self.created_at,
            expires_at: self.expires_at,
            metadata: clone_metadata(&self.metadata),
        }
    }
}

impl Package {
    /// Whether the package's deadline has passed at time `now`.
    pub fn is_expired_at(&self, now: u64) -> (r: bool)
        ensures
            r == self@.expired_at(now as nat),
    {
        self.expires_at > 0 && now > self.expires_at
    }

    /// Whether the package has the shape that the escrow keeps.
    pub fn is_valid(&self) -> (r: bool)
        ensures
            r == self@.valid(),
    {
        self.amount > 0 && (self.expires_at == 0 || self.created_at < self.expires_at) && (
        !matches!(self.status, PackageStatus::Expired) || self.expires_at != 0)
            && has_distinct_keys(&self.metadata)
    }
}

} // verus!
