use vstd::prelude::*;
use crate::error::Error;
use crate::event::EventView;
use crate::package::{PackageStatus, PackageView};
use crate::settlement::TransferView;

verus! {

/// One call of a state-changing operation, with its arguments and the time
/// at which it is made. A claim and a cancellation also say whether the
/// host carried out the movement of value that the call owes, if it owes
/// one.
pub enum Operation {
    Initialize { admin: Seq<char>, now: nat },
    Create {
        caller: Seq<char>,
        recipient: Seq<char>,
        amount: int,
        token: Seq<char>,
        expires_in: nat,
        now: nat,
    },
    Claim { caller: Seq<char>, id: nat, now: nat, transferred: bool },
    Cancel { caller: Seq<char>, id: nat, now: nat, transferred: bool },
}

/// The escrow as a mathematical value: the administrator, the number of
/// identifiers handed out, the package records by identifier, and the
/// notifications published so far, oldest first.
///
/// The functions below say, for each operation, which outcome it has in a
/// given state and which state follows. The executable escrow is proved to
/// do exactly this.
pub struct EscrowView {
    pub admin: Option<Seq<char>>,
    pub count: nat,
    pub packages: Map<nat, PackageView>,
    pub events: Seq<EventView>,
}

impl EscrowView {
    /// The escrow before initialization.
    pub open spec fn empty() -> EscrowView {
        EscrowView { admin: None, count: 0, packages: Map::empty(), events: Seq::empty() }
    }

    /// What every operation keeps: the identifiers in use are exactly those
    /// below the counter, every record is valid, and nothing has been
    /// created while there is no administrator.
    pub open spec fn wf(self) -> bool {
        &&& forall|id: nat| self.packages.contains_key(id) <==> id < self.count
        &&& forall|id: nat| self.packages.contains_key(id) ==> (#[trigger] self.packages[id]).valid()
        &&& (self.admin.is_none() ==> self.count == 0)
    }

    /// The status of the package `id`, if there is such a package.
    pub open spec fn status_of(self, id: nat) -> Option<PackageStatus> {
        if self.packages.contains_key(id) {
            Some(self.packages[id].status)
        } else {
            None
        }
    }

    /// The same escrow with the package `id` in another status.
    pub open spec fn set_status(self, id: nat, status: PackageStatus) -> EscrowView {
        EscrowView { packages: self.packages.insert(id, self.packages[id].with_status(status)), ..self }
    }

    /// The same escrow with one more notification at the end of the log.
    pub open spec fn publish(self, event: EventView) -> EscrowView {
        EscrowView { events: self.events.push(event), ..self }
    }

    /// Initialization is refused once an administrator has been set.
    pub open spec fn initialize_result(self) -> Result<(), Error> {
        if self.admin.is_some() {
            Err(Error::NotAuthorized)
        } else {
            Ok(())
        }
    }

    /// The state after `initialize(admin)` at time `now`.
    pub open spec fn initialize(self, admin: Seq<char>, now: nat) -> EscrowView {
        if self.initialize_result().is_ok() {
            EscrowView { admin: Some(admin), count: 0, ..self }.publish(
                EventView::ContractInitialized { admin, timestamp: now },
            )
        } else {
            self
        }
    }

    /// The administrator, or `NotAuthorized` before initialization.
    pub open spec fn admin_result(self) -> Result<Seq<char>, Error> {
        match self.admin {
            Some(a) => Ok(a),
            None => Err(Error::NotAuthorized),
        }
    }

    /// Whether `caller` is the administrator.
    pub open spec fn is_admin(self, caller: Seq<char>) -> bool {
        self.admin == Some(caller)
    }

    /// Creation is reserved for the administrator and needs a positive
    /// amount; the caller is looked at first. The new package gets the
    /// counter's value as its identifier.
    pub open spec fn create_result(self, caller: Seq<char>, amount: int) -> Result<nat, Error> {
        if !self.is_admin(caller) {
            Err(Error::NotAuthorized)
        } else if amount <= 0 {
            Err(Error::InvalidAmount)
        } else {
            Ok(self.count)
        }
    }

    /// The deadline of a package created at `now`: `expires_in` later, or
    /// none (zero) where `expires_in` is zero.
    pub open spec fn deadline(now: nat, expires_in: nat) -> nat {
        if expires_in > 0 {
            now + expires_in
        } else {
            0
        }
    }

    /// The record that `create_package` writes.
    pub open spec fn new_package(
        recipient: Seq<char>,
        amount: int,
        token: Seq<char>,
        expires_in: nat,
        now: nat,
    ) -> PackageView {
        PackageView {
            recipient,
            amount,
            token,
            status: PackageStatus::Created,
            created_at: now,
            expires_at: Self::deadline(now, expires_in),
            metadata: Seq::empty(),
        }
    }

    /// The state after `create_package` at time `now`.
    pub open spec fn create(
        self,
        caller: Seq<char>,
        recipient: Seq<char>,
        amount: int,
        token: Seq<char>,
        expires_in: nat,
        now: nat,
    ) -> EscrowView {
        if self.create_result(caller, amount).is_ok() {
            EscrowView {
                count: self.count + 1,
                packages: self.packages.insert(
                    self.count,
                    Self::new_package(recipient, amount, token, expires_in, now),
                ),
                ..self
            }.publish(
                EventView::PackageCreated {
                    package_id: self.count,
                    recipient,
                    amount,
                    token,
                    creator: caller,
                    created_at: now,
                    expires_at: Self::deadline(now, expires_in),
                },
            )
        } else {
            self
        }
    }

    /// Whether a claim of `id` at time `now` finds the package expired: it
    /// has been marked `Expired` before, or it is still `Created` and its
    /// deadline has passed.
    pub open spec fn claim_finds_expired(self, id: nat, now: nat) -> bool {
        &&& self.packages.contains_key(id)
        &&& (self.packages[id].status == PackageStatus::Expired || (self.packages[id].status
            == PackageStatus::Created && self.packages[id].expired_at(now)))
    }

    /// The outcome of `claim_package(caller, id)` at time `now`. Only a
    /// package that is still `Created` can be claimed. One that has left
    /// `Created` is refused by its status: `PackageAlreadyClaimed` for a
    /// claimed one, `PackageExpired` for an expired one, and `NotAuthorized`
    /// for a cancelled one, whose recipient the administrator has withdrawn.
    /// For a `Created` package the deadline is looked at before the caller.
    pub open spec fn claim_result(self, caller: Seq<char>, id: nat, now: nat) -> Result<(), Error> {
        if !self.packages.contains_key(id) {
            Err(Error::PackageNotFound)
        } else {
            match self.packages[id].status {
                PackageStatus::Claimed => Err(Error::PackageAlreadyClaimed),
                PackageStatus::Expired => Err(Error::PackageExpired),
                PackageStatus::Cancelled => Err(Error::NotAuthorized),
                PackageStatus::Created => if self.packages[id].expired_at(now) {
                    Err(Error::PackageExpired)
                } else if caller != self.packages[id].recipient {
                    Err(Error::NotAuthorized)
                } else {
                    Ok(())
                },
            }
        }
    }

    /// The state after `claim_package(caller, id)` at time `now`. A
    /// successful claim marks the package `Claimed` and publishes
    /// `PackageClaimed`. A claim that finds the package expired fails, and
    /// still writes the status `Expired` and publishes `PackageExpired`,
    /// each time it is made. Every other failure changes nothing.
    pub open spec fn claim(self, caller: Seq<char>, id: nat, now: nat) -> EscrowView {
        if self.claim_result(caller, id, now).is_ok() {
            self.set_status(id, PackageStatus::Claimed).publish(
                EventView::PackageClaimed {
                    package_id: id,
                    recipient: self.packages[id].recipient,
                    amount: self.packages[id].amount,
                    token: self.packages[id].token,
                    timestamp: now,
                },
            )
        } else if self.claim_finds_expired(id, now) {
            self.set_status(id, PackageStatus::Expired).publish(
                EventView::PackageExpired {
                    package_id: id,
                    recipient: self.packages[id].recipient,
                    amount: self.packages[id].amount,
                    token: self.packages[id].token,
                    timestamp: now,
                },
            )
        } else {
            self
        }
    }

    /// The movement of value that `claim_package(caller, id)` at time `now`
    /// owes: the package's whole amount to its recipient where the claim
    /// succeeds, and nothing where it fails.
    pub open spec fn claim_owes(self, caller: Seq<char>, id: nat, now: nat) -> Option<
        TransferView,
    > {
        if self.claim_result(caller, id, now).is_ok() {
            Some(
                TransferView {
                    token: self.packages[id].token,
                    to: self.packages[id].recipient,
                    amount: self.packages[id].amount,
                },
            )
        } else {
            None
        }
    }

    /// The outcome of a claim of which the host says whether it carried out
    /// the movement of value that the claim owes. Where a movement is owed
    /// and was not carried out, the claim fails with `InvalidAmount`: the
    /// package's amount could not be paid out.
    pub open spec fn claim_settled_result(
        self,
        caller: Seq<char>,
        id: nat,
        now: nat,
        transferred: bool,
    ) -> Result<(), Error> {
        if self.claim_owes(caller, id, now).is_some() && !transferred {
            Err(Error::InvalidAmount)
        } else {
            self.claim_result(caller, id, now)
        }
    }

    /// The state after such a claim: that of `claim`, except that nothing
    /// changes and nothing is published where a movement of value is owed
    /// and was not carried out.
    pub open spec fn claim_settled(
        self,
        caller: Seq<char>,
        id: nat,
        now: nat,
        transferred: bool,
    ) -> EscrowView {
        if self.claim_owes(caller, id, now).is_some() && !transferred {
            self
        } else {
            self.claim(caller, id, now)
        }
    }

    /// The outcome of `cancel_package(caller, id)`. The caller is looked at
    /// first. A claimed package is refused; every other package can be
    /// cancelled, a cancelled one too.
    pub open spec fn cancel_result(self, caller: Seq<char>, id: nat) -> Result<(), Error> {
        if !self.is_admin(caller) {
            Err(Error::NotAuthorized)
        } else if !self.packages.contains_key(id) {
            Err(Error::PackageNotFound)
        } else if self.packages[id].status == PackageStatus::Claimed {
            Err(Error::PackageAlreadyClaimed)
        } else {
            Ok(())
        }
    }

    /// The state after `cancel_package(caller, id)` at time `now`. Every
    /// successful cancellation writes the status `Cancelled` and publishes
    /// `PackageCancelled`, that of a cancelled package too.
    pub open spec fn cancel(self, caller: Seq<char>, id: nat, now: nat) -> EscrowView {
        if self.cancel_result(caller, id).is_ok() {
            self.set_status(id, PackageStatus::Cancelled).publish(
                EventView::PackageCancelled {
                    package_id: id,
                    recipient: self.packages[id].recipient,
                    amount: self.packages[id].amount,
                    token: self.packages[id].token,
                    actor: caller,
                    timestamp: now,
                },
            )
        } else {
            self
        }
    }

    /// The movement of value that `cancel_package(caller, id)` owes. What
    /// is owed goes by the package's status before the call: the whole
    /// amount goes back to the administrator where the call cancels a
    /// created or expired package, and nothing is owed where the package was
    /// cancelled before or the call fails.
    pub open spec fn cancel_owes(self, caller: Seq<char>, id: nat) -> Option<TransferView> {
        if self.cancel_result(caller, id).is_ok() && self.packages[id].status
            != PackageStatus::Cancelled {
            Some(
                TransferView {
                    token: self.packages[id].token,
                    to: caller,
                    amount: self.packages[id].amount,
                },
            )
        } else {
            None
        }
    }

    /// The outcome of a cancellation of which the host says whether it
    /// carried out the movement of value that the cancellation owes. Where
    /// a movement is owed and was not carried out, the cancellation fails
    /// with `InvalidAmount`: the package's amount could not be paid back.
    pub open spec fn cancel_settled_result(
        self,
        caller: Seq<char>,
        id: nat,
        transferred: bool,
    ) -> Result<(), Error> {
        if self.cancel_owes(caller, id).is_some() && !transferred {
            Err(Error::InvalidAmount)
        } else {
            self.cancel_result(caller, id)
        }
    }

    /// The state after such a cancellation: that of `cancel`, except that
    /// nothing changes and nothing is published where a movement of value
    /// is owed and was not carried out.
    pub open spec fn cancel_settled(
        self,
        caller: Seq<char>,
        id: nat,
        now: nat,
        transferred: bool,
    ) -> EscrowView {
        if self.cancel_owes(caller, id).is_some() && !transferred {
            self
        } else {
            self.cancel(caller, id, now)
        }
    }

    /// The state after the call `op`.
    pub open spec fn step(self, op: Operation) -> EscrowView {
        match op {
            Operation::Initialize { admin, now } => self.initialize(admin, now),
            Operation::Create { caller, recipient, amount, token, expires_in, now } => self.create(
                caller,
                recipient,
                amount,
                token,
                expires_in,
                now,
            ),
            Operation::Claim { caller, id, now, transferred } => self.claim_settled(
                caller,
                id,
                now,
                transferred,
            ),
            Operation::Cancel { caller, id, now, transferred } => self.cancel_settled(
                caller,
                id,
                now,
                transferred,
            ),
        }
    }

    /// Whether the call `op` succeeds in this state.
    pub open spec fn accepts(self, op: Operation) -> bool {
        match op {
            Operation::Initialize { .. } => self.initialize_result().is_ok(),
            Operation::Create { caller, amount, .. } => self.create_result(caller, amount).is_ok(),
            Operation::Claim { caller, id, now, transferred } => self.claim_settled_result(
                caller,
                id,
                now,
                transferred,
            ).is_ok(),
            Operation::Cancel { caller, id, transferred, .. } => self.cancel_settled_result(
                caller,
                id,
                transferred,
            ).is_ok(),
        }
    }

    /// The movement of value that the host carried out with the call `op`,
    /// with the package it belongs to: the movement that the call owes,
    /// where the host says that it was made.
    pub open spec fn settles(self, op: Operation) -> Option<(nat, TransferView)> {
        match op {
            Operation::Claim { caller, id, now, transferred } => if transferred && self.claim_owes(
                caller,
                id,
                now,
            ).is_some() {
                Some((id, self.claim_owes(caller, id, now).unwrap()))
            } else {
                None
            },
            Operation::Cancel { caller, id, transferred, .. } => if transferred
                && self.cancel_owes(caller, id).is_some() {
                Some((id, self.cancel_owes(caller, id).unwrap()))
            } else {
                None
            },
            _ => None,
        }
    }

    /// The state after the calls `ops`, made in order.
    pub open spec fn run(self, ops: Seq<Operation>) -> EscrowView
        decreases ops.len(),
    {
        if ops.len() == 0 {
            self
        } else {
            self.run(ops.drop_last()).step(ops.last())
        }
    }

    /// The party whose authorization a claim of `id` at time `now` waits
    /// for: the recipient of a `Created` package whose deadline has not
    /// passed, and nobody otherwise.
    pub open spec fn claim_signer(self, id: nat, now: nat) -> Option<Seq<char>> {
        if self.packages.contains_key(id) && self.packages[id].status == PackageStatus::Created
            && !self.packages[id].expired_at(now) {
            Some(self.packages[id].recipient)
        } else {
            None
        }
    }
}

} // verus!
