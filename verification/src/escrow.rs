use vstd::prelude::*;
use crate::auth::require_caller_is;
use crate::error::Error;
use crate::event::{Event, EventView};
use crate::identity::Identity;
use crate::model::EscrowView;
use crate::package::{Package, PackageStatus};
use crate::settlement::Transfer;
use crate::store::PackageStore;

verus! {

/// The notifications of `events`, each by its view, in order.
pub open spec fn events_view(events: Seq<Event>) -> Seq<EventView> {
    Seq::new(events.len(), |i: int| events[i]@)
}

/// What a store holds, read as an escrow whose log is empty.
pub open spec fn stored(store: &PackageStore) -> EscrowView {
    EscrowView {
        admin: store.admin(),
        count: store.count(),
        packages: store.packages(),
        events: Seq::empty(),
    }
}

/// Whether `store` has a valid record under the identifier `id`.
pub open spec fn kept(store: &PackageStore, id: nat) -> bool {
    store.packages().contains_key(id) && store.packages()[id].valid()
}

/// The escrow: an administrator deposits value for a recipient as a
/// package, the recipient claims it before its deadline, or the
/// administrator cancels it.
///
/// The escrow does not read a clock, verify a signature or move value. The
/// host passes in the time and the caller whose authorization it has
/// verified, and publishes the notifications that an operation appends to
/// the log. Before a claim or a cancellation it asks which movement of
/// value the call owes, carries that out, and tells the escrow whether it
/// succeeded: a call whose movement failed changes nothing.
pub struct AidEscrow {
    store: PackageStore,
    events: Vec<Event>,
}

impl View for AidEscrow {
    type V = EscrowView;

    closed spec fn view(&self) -> EscrowView {
        EscrowView {
            admin: self.store.admin(),
            count: self.store.count(),
            packages: self.store.packages(),
            events: events_view(self.events@),
        }
    }
}

impl AidEscrow {
    /// The invariant of the escrow: that of its view.
    pub open spec fn wf(&self) -> bool {
        self@.wf()
    }

    /// An escrow that has not been initialized: no administrator, no
    /// packages, an empty log.
    pub fn new() -> (r: Self)
        ensures
            r@ == EscrowView::empty(),
            r.wf(),
    {
        let r = AidEscrow { store: PackageStore::new(), events: Vec::new() };
        assert(events_view(r.events@) =~= Seq::<EventView>::empty());
        r
    }

    /// The escrow that `store` holds, with an empty log, where `store`
    /// satisfies the escrow's invariant; nothing where it does not.
    pub fn restore(store: PackageStore) -> (r: Option<Self>)
        ensures
            r.is_some() == stored(&store).wf(),
            r matches Some(escrow) ==> escrow@ == stored(&store),
    {
        proof {
            store.lemma_records_below_count();
        }
        let count = store.package_count();
        if !store.has_admin() && count > 0 {
            return None;
        }
        let mut id: u64 = 0;
        while id < count
            invariant
                id <= count,
                count == store.count(),
                forall|k: nat| k < id ==> #[trigger] kept(&store, k),
            decreases count - id,
        {
            match store.get_package(id) {
                Some(package) => {
                    if !package.is_valid() {
                        assert(!stored(&store).packages[id as nat].valid());
                        return None;
                    }
                },
                None => {
                    assert(!stored(&store).packages.contains_key(id as nat));
                    return None;
                },
            }
            assert(kept(&store, id as nat));
            id += 1;
        }
        let escrow = AidEscrow { store, events: Vec::new() };
        assert(events_view(escrow.events@) =~= Seq::<EventView>::empty());
        assert(stored(&store).wf()) by {
            assert forall|k: nat| store.packages().contains_key(k) <==> k < store.count() by {
                if k < store.count() {
                    assert(kept(&store, k));
                }
            }
            assert forall|k: nat| store.packages().contains_key(k) implies (
            #[trigger] store.packages()[k]).valid() by {
                assert(kept(&store, k));
            }
        }
        Some(escrow)
    }

    /// Sets the administrator and publishes `ContractInitialized`. An
    /// escrow is initialized once: a second call is refused with
    /// `NotAuthorized` and changes nothing.
    pub fn initialize(&mut self, admin: Identity, now: u64) -> (r: Result<(), Error>)
        requires
            old(self).wf(),
        ensures
            r == old(self)@.initialize_result(),
            final(self)@ == old(self)@.initialize(admin@, now as nat),
            final(self).wf(),
    {
        if self.store.has_admin() {
            return Err(Error::NotAuthorized);
        }
        let announced = admin.clone();
        self.store.set_admin(admin);
        self.emit_contract_initialized(announced, now);
        Ok(())
    }

    /// The administrator; `NotAuthorized` before initialization.
    pub fn get_admin(&self) -> (r: Result<Identity, Error>)
        ensures
            match r {
                Ok(a) => self@.admin_result() == Ok::<Seq<char>, Error>(a@),
                Err(e) => self@.admin_result() == Err::<Seq<char>, Error>(e),
            },
    {
        self.store.get_admin()
    }

    /// Deposits `amount` of `token` for `recipient` and returns the new
    /// package's identifier. Reserved for the administrator; the amount
    /// must be positive. The package can be claimed until `expires_in`
    /// after `now`, or without limit where `expires_in` is zero. A refused
    /// call changes nothing and publishes nothing.
    pub fn create_package(
        &mut self,
        caller: &Identity,
        recipient: Identity,
        amount: i128,
        token: Identity,
        expires_in: u64,
        now: u64,
    ) -> (r: Result<u64, Error>)
        requires
            old(self).wf(),
            old(self)@.create_result(caller@, amount as int).is_ok() ==> now + expires_in
                <= u64::MAX,
        ensures
            match r {
                Ok(id) => old(self)@.create_result(caller@, amount as int) == Ok::<nat, Error>(
                    id as nat,
                ),
                Err(e) => old(self)@.create_result(caller@, amount as int) == Err::<nat, Error>(e),
            },
            final(self)@ == old(self)@.create(
                caller@,
                recipient@,
                amount as int,
                token@,
                expires_in as nat,
                now as nat,
            ),
            final(self).wf(),
    {
        let admin = match self.store.get_admin() {
            Ok(admin) => admin,
            Err(e) => {
                return Err(e);
            },
        };
        if let Err(e) = require_caller_is(caller, &admin) {
            return Err(e);
        }
        if amount <= 0 {
            return Err(Error::InvalidAmount);
        }
        let package_id = self.store.next_package_id();

        let created_at = now;
        let expires_at = if expires_in > 0 {
            created_at + expires_in
        } else {
            0
        };

        let package = Package {
            recipient: recipient.clone(),
            amount,
            token: token.clone(),
            status: PackageStatus::Created,
            created_at,
            expires_at,
            metadata: Vec::new(),
        };
        assert(package@.metadata =~= Seq::<(Seq<char>, Seq<char>)>::empty());
        assert(package@ == EscrowView::new_package(
            recipient@,
            amount as int,
            token@,
            expires_in as nat,
            now as nat,
        ));
        proof {
            self.store.lemma_records_below_count();
        }
        self.store.put_package(package_id, package);

        self.emit_package_created(
            package_id,
            recipient,
            amount,
            token,
            admin,
            created_at,
            expires_at,
        );

        Ok(package_id)
    }

    /// Hands the package to its recipient, whose payment the host has
    /// carried out. Only a package that is still `Created` can be claimed:
    /// a claimed one is refused with `PackageAlreadyClaimed`, an expired
    /// one with `PackageExpired`, and a cancelled one with `NotAuthorized`,
    /// because the administrator has withdrawn it from its recipient. For a
    /// `Created` package the deadline decides before the caller is looked
    /// at. A claim that finds the package expired, now or on an earlier
    /// claim, writes the status `Expired`, publishes `PackageExpired` and
    /// fails with that error. Before the deadline, only the recipient
    /// passes; the package becomes `Claimed` and `PackageClaimed` is
    /// published. Every other failure changes nothing and publishes nothing.
    pub fn claim_package(&mut self, caller: &Identity, package_id: u64, now: u64) -> (r: Result<
        (),
        Error,
    >)
        requires
            old(self).wf(),
        ensures
            r == old(self)@.claim_result(caller@, package_id as nat, now as nat),
            final(self)@ == old(self)@.claim(caller@, package_id as nat, now as nat),
            final(self).wf(),
    {
        let mut package = match self.store.get_package(package_id) {
            Some(package) => package,
            None => {
                return Err(Error::PackageNotFound);
            },
        };

        match package.status {
            PackageStatus::Claimed => {
                return Err(Error::PackageAlreadyClaimed);
            },
            PackageStatus::Cancelled => {
                return Err(Error::NotAuthorized);
            },
            _ => {},
        }
        let timestamp = now;
        proof {
            self.store.lemma_records_below_count();
        }

        if matches!(package.status, PackageStatus::Expired) || package.is_expired_at(timestamp) {
            package.status = PackageStatus::Expired;
            let recipient = package.recipient.clone();
            let amount = package.amount;
            let token = package.token.clone();
            self.store.put_package(package_id, package);

            self.emit_package_expired(package_id, recipient, amount, token, timestamp);

            return Err(Error::PackageExpired);
        }
        if let Err(e) = require_caller_is(caller, &package.recipient) {
            return Err(e);
        }
        package.status = PackageStatus::Claimed;
        let recipient = package.recipient.clone();
        let amount = package.amount;
        let token = package.token.clone();
        self.store.put_package(package_id, package);

        self.emit_package_claimed(package_id, recipient, amount, token, timestamp);

        Ok(())
    }

    /// Revokes the package, whose refund the host has carried out where
    /// one is owed. Reserved for the administrator. A claimed package is
    /// refused with `PackageAlreadyClaimed` and keeps its status. Every
    /// other package, an expired or cancelled one too, is written as
    /// `Cancelled`, and `PackageCancelled` is published. A refused call
    /// changes nothing and publishes nothing.
    pub fn cancel_package(&mut self, caller: &Identity, package_id: u64, now: u64) -> (r: Result<
        (),
        Error,
    >)
        requires
            old(self).wf(),
        ensures
            r == old(self)@.cancel_result(caller@, package_id as nat),
            final(self)@ == old(self)@.cancel(caller@, package_id as nat, now as nat),
            final(self).wf(),
    {
        let admin = match self.store.get_admin() {
            Ok(admin) => admin,
            Err(e) => {
                return Err(e);
            },
        };
        if let Err(e) = require_caller_is(caller, &admin) {
            return Err(e);
        }
        let mut package = match self.store.get_package(package_id) {
            Some(package) => package,
            None => {
                return Err(Error::PackageNotFound);
            },
        };

        if matches!(package.status, PackageStatus::Claimed) {
            return Err(Error::PackageAlreadyClaimed);
        }
        let timestamp = now;
        proof {
            self.store.lemma_records_below_count();
        }

        package.status = PackageStatus::Cancelled;
        let recipient = package.recipient.clone();
        let amount = package.amount;
        let token = package.token.clone();
        self.store.put_package(package_id, package);

        self.emit_package_cancelled(package_id, recipient, amount, token, admin, timestamp);

        Ok(())
    }

    /// The movement of value that a claim of `package_id` by `caller` at
    /// time `now` owes: the package's whole amount to its recipient where
    /// the claim succeeds, and nothing where it fails.
    pub fn claim_settlement(&self, caller: &Identity, package_id: u64, now: u64) -> (r: Option<
        Transfer,
    >)
        ensures
            r.is_some() == self@.claim_owes(caller@, package_id as nat, now as nat).is_some(),
            r matches Some(t) ==> self@.claim_owes(caller@, package_id as nat, now as nat) == Some(
                t@,
            ),
    {
        match self.store.get_package(package_id) {
            Some(package) => {
                if matches!(package.status, PackageStatus::Created) && !package.is_expired_at(now)
                    && caller.same_as(&package.recipient) {
                    Some(
                        Transfer {
                            token: package.token,
                            to: package.recipient,
                            amount: package.amount,
                        },
                    )
                } else {
                    None
                }
            },
            None => None,
        }
    }

    /// The movement of value that a cancellation of `package_id` by
    /// `caller` owes. What is owed goes by the package's status before the
    /// call: the whole amount goes back to the administrator where the call
    /// cancels a created or expired package, and nothing is owed where the
    /// package was cancelled before or the call fails.
    pub fn cancel_settlement(&self, caller: &Identity, package_id: u64) -> (r: Option<Transfer>)
        ensures
            r.is_some() == self@.cancel_owes(caller@, package_id as nat).is_some(),
            r matches Some(t) ==> self@.cancel_owes(caller@, package_id as nat) == Some(t@),
    {
        let admin = match self.store.get_admin() {
            Ok(admin) => admin,
            Err(_) => {
                return None;
            },
        };
        if !caller.same_as(&admin) {
            return None;
        }
        match self.store.get_package(package_id) {
            Some(package) => {
                if matches!(package.status, PackageStatus::Created | PackageStatus::Expired) {
                    Some(Transfer { token: package.token, to: admin, amount: package.amount })
                } else {
                    None
                }
            },
            None => None,
        }
    }

    /// A claim of which the host says whether it carried out the movement
    /// of value that `claim_settlement` names. Where that movement is owed
    /// and `transferred` is false, the claim fails with `InvalidAmount`,
    /// the status is not advanced and nothing is published. Otherwise the
    /// call is `claim_package`.
    pub fn claim_package_settled(
        &mut self,
        caller: &Identity,
        package_id: u64,
        now: u64,
        transferred: bool,
    ) -> (r: Result<(), Error>)
        requires
            old(self).wf(),
        ensures
            r == old(self)@.claim_settled_result(
                caller@,
                package_id as nat,
                now as nat,
                transferred,
            ),
            final(self)@ == old(self)@.claim_settled(
                caller@,
                package_id as nat,
                now as nat,
                transferred,
            ),
            final(self).wf(),
    {
        if !transferred && self.claim_settlement(caller, package_id, now).is_some() {
            return Err(Error::InvalidAmount);
        }
        self.claim_package(caller, package_id, now)
    }

    /// A cancellation of which the host says whether it carried out the
    /// movement of value that `cancel_settlement` names. Where that
    /// movement is owed and `transferred` is false, the cancellation fails
    /// with `InvalidAmount`, the status is not advanced and nothing is
    /// published. Otherwise the call is `cancel_package`.
    pub fn cancel_package_settled(
        &mut self,
        caller: &Identity,
        package_id: u64,
        now: u64,
        transferred: bool,
    ) -> (r: Result<(), Error>)
        requires
            old(self).wf(),
        ensures
            r == old(self)@.cancel_settled_result(caller@, package_id as nat, transferred),
            final(self)@ == old(self)@.cancel_settled(
                caller@,
                package_id as nat,
                now as nat,
                transferred,
            ),
            final(self).wf(),
    {
        if !transferred && self.cancel_settlement(caller, package_id).is_some() {
            return Err(Error::InvalidAmount);
        }
        self.cancel_package(caller, package_id, now)
    }

    /// A copy of the package `package_id`, or nothing where no package has
    /// that identifier. Never an error.
    pub fn get_package(&self, package_id: u64) -> (r: Result<Option<Package>, Error>)
        requires
            self.wf(),
        ensures
            r matches Ok(found) && found.is_some() == (package_id < self@.count) && (
            found matches Some(p) ==> p@ == self@.packages[package_id as nat]),
    {
        assert(self@.packages.contains_key(package_id as nat) <==> package_id < self@.count);
        Ok(self.store.get_package(package_id))
    }

    /// How many packages have been created. Never an error.
    pub fn get_package_count(&self) -> (r: Result<u64, Error>)
        ensures
            r matches Ok(n) && n == self@.count,
    {
        Ok(self.store.package_count())
    }

    /// The party whose authorization a claim of `package_id` at time `now`
    /// waits for: the recipient of a `Created` package whose deadline has
    /// not passed, and nobody where the claim fails or expires before the
    /// caller is looked at.
    pub fn claim_signer(&self, package_id: u64, now: u64) -> (r: Option<Identity>)
        ensures
            r.is_some() == self@.claim_signer(package_id as nat, now as nat).is_some(),
            r matches Some(signer) ==> self@.claim_signer(package_id as nat, now as nat) == Some(
                signer@,
            ),
    {
        match self.store.get_package(package_id) {
            Some(package) => {
                if matches!(package.status, PackageStatus::Created) && !package.is_expired_at(now) {
                    Some(package.recipient)
                } else {
                    None
                }
            },
            None => None,
        }
    }

    /// The notifications published so far, oldest first.
    pub fn events(&self) -> (r: &Vec<Event>)
        ensures
            events_view(r@) == self@.events,
    {
        &self.events
    }

    fn publish(&mut self, event: Event)
        ensures
            final(self)@ == old(self)@.publish(event@),
    {
        self.events.push(event);
        assert(events_view(self.events@) =~= events_view(old(self).events@).push(event@));
    }

    fn emit_package_created(
        &mut self,
        package_id: u64,
        recipient: Identity,
        amount: i128,
        token: Identity,
        creator: Identity,
        created_at: u64,
        expires_at: u64,
    )
        ensures
            final(self)@ == old(self)@.publish(
                EventView::PackageCreated {
                    package_id: package_id as nat,
                    recipient: recipient@,
                    amount: amount as int,
                    token: token@,
                    creator: creator@,
                    created_at: created_at as nat,
                    expires_at: expires_at as nat,
                },
            ),
    {
        self.publish(
            Event::PackageCreated {
                package_id,
                recipient,
                amount,
                token,
                creator,
                created_at,
                expires_at,
            },
        );
    }

    fn emit_package_claimed(
        &mut self,
        package_id: u64,
        recipient: Identity,
        amount: i128,
        token: Identity,
        timestamp: u64,
    )
        ensures
            final(self)@ == old(self)@.publish(
                EventView::PackageClaimed {
                    package_id: package_id as nat,
                    recipient: recipient@,
                    amount: amount as int,
                    token: token@,
                    timestamp: timestamp as nat,
                },
            ),
    {
        self.publish(Event::PackageClaimed { package_id, recipient, amount, token, timestamp });
    }

    fn emit_package_expired(
        &mut self,
        package_id: u64,
        recipient: Identity,
        amount: i128,
        token: Identity,
        timestamp: u64,
    )
        ensures
            final(self)@ == old(self)@.publish(
                EventView::PackageExpired {
                    package_id: package_id as nat,
                    recipient: recipient@,
                    amount: amount as int,
                    token: token@,
                    timestamp: timestamp as nat,
                },
            ),
    {
        self.publish(Event::PackageExpired { package_id, recipient, amount, token, timestamp });
    }

    fn emit_package_cancelled(
        &mut self,
        package_id: u64,
        recipient: Identity,
        amount: i128,
        token: Identity,
        actor: Identity,
        timestamp: u64,
    )
        ensures
            final(self)@ == old(self)@.publish(
                EventView::PackageCancelled {
                    package_id: package_id as nat,
                    recipient: recipient@,
                    amount: amount as int,
                    token: token@,
                    actor: actor@,
                    timestamp: timestamp as nat,
                },
            ),
    {
        self.publish(
            Event::PackageCancelled { package_id, recipient, amount, token, actor, timestamp },
        );
    }

    fn emit_contract_initialized(&mut self, admin: Identity, timestamp: u64)
        ensures
            final(self)@ == old(self)@.publish(
                EventView::ContractInitialized { admin: admin@, timestamp: timestamp as nat },
            ),
    {
        self.publish(Event::ContractInitialized { admin, timestamp });
    }
}

} // verus!
