use aid_escrow::auth::require_caller_is;
use aid_escrow::{
    AidEscrow, Error, Event, Field, Identity, MetadataEntry, Package, PackageStatus, PackageStore,
    Transfer, EVENT_CONTRACT_INITIALIZED, EVENT_PACKAGE_CANCELLED, EVENT_PACKAGE_CLAIMED,
    EVENT_PACKAGE_CREATED, EVENT_PACKAGE_EXPIRED,
};

fn initialized() -> (AidEscrow, Identity) {
    let mut escrow = AidEscrow::new();
    let admin = Identity::new("admin");
    escrow.initialize(admin.clone(), 10).unwrap();
    (escrow, admin)
}

fn status_of(escrow: &AidEscrow, id: u64) -> PackageStatus {
    escrow.get_package(id).unwrap().unwrap().status
}

fn sample_package(status: PackageStatus, expires_at: u64) -> Package {
    Package {
        recipient: Identity::new("recipient"),
        amount: 7,
        token: Identity::new("token"),
        status,
        created_at: 1,
        expires_at,
        metadata: Vec::new(),
    }
}

#[test]
fn new_escrow_is_empty() {
    let escrow = AidEscrow::new();
    assert_eq!(escrow.get_admin(), Err(Error::NotAuthorized));
    assert_eq!(escrow.get_package_count(), Ok(0));
    assert_eq!(escrow.get_package(0), Ok(None));
    assert!(escrow.events().is_empty());
}

#[test]
fn operations_before_initialization_are_refused() {
    let mut escrow = AidEscrow::new();
    let admin = Identity::new("admin");
    let r = Identity::new("recipient");
    let t = Identity::new("token");
    assert_eq!(
        escrow.create_package(&admin, r.clone(), 5, t, 0, 0),
        Err(Error::NotAuthorized)
    );
    assert_eq!(escrow.cancel_package(&admin, 0, 0), Err(Error::NotAuthorized));
    assert_eq!(escrow.claim_package(&r, 0, 0), Err(Error::PackageNotFound));
    assert_eq!(escrow.get_package_count(), Ok(0));
    assert!(escrow.events().is_empty());
}

#[test]
fn second_initialization_is_refused() {
    let (mut escrow, admin) = initialized();
    let usurper = Identity::new("usurper");
    assert_eq!(escrow.initialize(usurper, 11), Err(Error::NotAuthorized));
    assert_eq!(escrow.get_admin(), Ok(admin));
    assert_eq!(escrow.events().len(), 1);
}

#[test]
fn identifiers_count_up_from_zero() {
    let (mut escrow, admin) = initialized();
    for expected in 0..25u64 {
        let id = escrow
            .create_package(
                &admin,
                Identity::new("recipient"),
                1 + expected as i128,
                Identity::new("token"),
                expected,
                10,
            )
            .unwrap();
        assert_eq!(id, expected);
        assert_eq!(escrow.get_package_count(), Ok(expected + 1));
    }
}

#[test]
fn failed_calls_do_not_use_up_identifiers() {
    let (mut escrow, admin) = initialized();
    let r = Identity::new("recipient");
    let t = Identity::new("token");
    assert_eq!(escrow.create_package(&admin, r.clone(), 1, t.clone(), 0, 10), Ok(0));
    assert_eq!(
        escrow.create_package(&admin, r.clone(), -1, t.clone(), 0, 10),
        Err(Error::InvalidAmount)
    );
    assert_eq!(
        escrow.create_package(&r, r.clone(), 1, t.clone(), 0, 10),
        Err(Error::NotAuthorized)
    );
    assert_eq!(escrow.claim_package(&r, 0, 10), Ok(()));
    assert_eq!(escrow.create_package(&admin, r.clone(), 1, t, 0, 10), Ok(1));
}

#[test]
fn nonpositive_amount_changes_nothing() {
    let (mut escrow, admin) = initialized();
    let r = Identity::new("recipient");
    let t = Identity::new("token");
    for amount in [0i128, -1, i128::MIN] {
        let count_before = escrow.get_package_count().unwrap();
        let events_before = escrow.events().len();
        assert_eq!(
            escrow.create_package(&admin, r.clone(), amount, t.clone(), 86400, 10),
            Err(Error::InvalidAmount)
        );
        assert_eq!(escrow.get_package_count().unwrap(), count_before);
        assert_eq!(escrow.events().len(), events_before);
        assert_eq!(escrow.get_package(0), Ok(None));
    }
}

#[test]
fn caller_is_checked_before_amount() {
    let (mut escrow, _admin) = initialized();
    let stranger = Identity::new("stranger");
    assert_eq!(
        escrow.create_package(&stranger, Identity::new("r"), 0, Identity::new("t"), 0, 10),
        Err(Error::NotAuthorized)
    );
    assert_eq!(escrow.get_package_count(), Ok(0));
}

#[test]
fn created_package_has_given_terms() {
    let (mut escrow, admin) = initialized();
    let r = Identity::new("recipient");
    let t = Identity::new("token");
    let id = escrow.create_package(&admin, r.clone(), 42, t.clone(), 100, 1000).unwrap();
    let package = escrow.get_package(id).unwrap().unwrap();
    assert_eq!(
        package,
        Package {
            recipient: r,
            amount: 42,
            token: t,
            status: PackageStatus::Created,
            created_at: 1000,
            expires_at: 1100,
            metadata: Vec::new(),
        }
    );
}

#[test]
fn zero_expires_in_means_no_deadline() {
    let (mut escrow, admin) = initialized();
    let r = Identity::new("recipient");
    let id = escrow
        .create_package(&admin, r.clone(), 1, Identity::new("token"), 0, 1000)
        .unwrap();
    assert_eq!(escrow.get_package(id).unwrap().unwrap().expires_at, 0);
    assert_eq!(escrow.claim_package(&r, id, u64::MAX), Ok(()));
    assert_eq!(status_of(&escrow, id), PackageStatus::Claimed);
}

#[test]
fn deadline_at_the_end_of_the_clock() {
    let (mut escrow, admin) = initialized();
    let r = Identity::new("recipient");
    let id = escrow
        .create_package(&admin, r.clone(), 1, Identity::new("token"), u64::MAX - 1000, 1000)
        .unwrap();
    assert_eq!(escrow.get_package(id).unwrap().unwrap().expires_at, u64::MAX);
    assert_eq!(escrow.claim_package(&r, id, u64::MAX), Ok(()));
}

#[test]
fn claiming_twice_fails_the_second_time() {
    let (mut escrow, admin) = initialized();
    let r = Identity::new("recipient");
    let id = escrow
        .create_package(&admin, r.clone(), 1, Identity::new("token"), 100, 10)
        .unwrap();
    assert_eq!(escrow.claim_package(&r, id, 20), Ok(()));
    assert_eq!(status_of(&escrow, id), PackageStatus::Claimed);
    let events_before = escrow.events().len();
    assert_eq!(escrow.claim_package(&r, id, 20), Err(Error::PackageAlreadyClaimed));
    assert_eq!(escrow.claim_package(&admin, id, 500), Err(Error::PackageAlreadyClaimed));
    assert_eq!(status_of(&escrow, id), PackageStatus::Claimed);
    assert_eq!(escrow.events().len(), events_before);
}

#[test]
fn claim_after_deadline_expires_the_package() {
    let (mut escrow, admin) = initialized();
    let r = Identity::new("recipient");
    let id = escrow
        .create_package(&admin, r.clone(), 1, Identity::new("token"), 100, 10)
        .unwrap();
    assert_eq!(escrow.claim_package(&r, id, 10 + 101), Err(Error::PackageExpired));
    assert_eq!(status_of(&escrow, id), PackageStatus::Expired);
}

#[test]
fn claim_at_the_deadline_succeeds() {
    let (mut escrow, admin) = initialized();
    let r = Identity::new("recipient");
    let id = escrow
        .create_package(&admin, r.clone(), 1, Identity::new("token"), 100, 10)
        .unwrap();
    assert_eq!(escrow.claim_package(&r, id, 10 + 100), Ok(()));
    assert_eq!(status_of(&escrow, id), PackageStatus::Claimed);
}

#[test]
fn deadline_is_checked_before_the_caller() {
    let (mut escrow, admin) = initialized();
    let r = Identity::new("recipient");
    let stranger = Identity::new("stranger");
    let id = escrow
        .create_package(&admin, r, 1, Identity::new("token"), 100, 10)
        .unwrap();
    assert_eq!(escrow.claim_package(&stranger, id, 111), Err(Error::PackageExpired));
    assert_eq!(status_of(&escrow, id), PackageStatus::Expired);
    assert_eq!(escrow.events().last().unwrap().topic(), EVENT_PACKAGE_EXPIRED);
}

#[test]
fn claim_by_another_caller_is_refused() {
    let (mut escrow, admin) = initialized();
    let r = Identity::new("recipient");
    let stranger = Identity::new("stranger");
    let id = escrow
        .create_package(&admin, r, 1, Identity::new("token"), 100, 10)
        .unwrap();
    let events_before = escrow.events().len();
    assert_eq!(escrow.claim_package(&stranger, id, 20), Err(Error::NotAuthorized));
    assert_eq!(escrow.claim_package(&admin, id, 20), Err(Error::NotAuthorized));
    assert_eq!(status_of(&escrow, id), PackageStatus::Created);
    assert_eq!(escrow.events().len(), events_before);
}

#[test]
fn cancelling_a_claimed_package_fails() {
    let (mut escrow, admin) = initialized();
    let r = Identity::new("recipient");
    let id = escrow
        .create_package(&admin, r.clone(), 1, Identity::new("token"), 100, 10)
        .unwrap();
    escrow.claim_package(&r, id, 20).unwrap();
    let events_before = escrow.events().len();
    assert_eq!(escrow.cancel_package(&admin, id, 30), Err(Error::PackageAlreadyClaimed));
    assert_eq!(status_of(&escrow, id), PackageStatus::Claimed);
    assert_eq!(escrow.events().len(), events_before);
}

#[test]
fn cancelling_created_and_expired_packages_succeeds() {
    let (mut escrow, admin) = initialized();
    let r = Identity::new("recipient");
    let t = Identity::new("token");
    let fresh = escrow.create_package(&admin, r.clone(), 1, t.clone(), 100, 10).unwrap();
    let stale = escrow.create_package(&admin, r.clone(), 2, t, 100, 10).unwrap();
    assert_eq!(escrow.claim_package(&r, stale, 200), Err(Error::PackageExpired));
    assert_eq!(status_of(&escrow, stale), PackageStatus::Expired);

    assert_eq!(escrow.cancel_package(&admin, fresh, 300), Ok(()));
    assert_eq!(escrow.cancel_package(&admin, stale, 300), Ok(()));
    assert_eq!(status_of(&escrow, fresh), PackageStatus::Cancelled);
    assert_eq!(status_of(&escrow, stale), PackageStatus::Cancelled);
}

#[test]
fn cancel_is_reserved_for_the_admin() {
    let (mut escrow, admin) = initialized();
    let r = Identity::new("recipient");
    let id = escrow
        .create_package(&admin, r.clone(), 1, Identity::new("token"), 100, 10)
        .unwrap();
    assert_eq!(escrow.cancel_package(&r, id, 20), Err(Error::NotAuthorized));
    assert_eq!(escrow.cancel_package(&r, 999, 20), Err(Error::NotAuthorized));
    assert_eq!(escrow.cancel_package(&admin, 999, 20), Err(Error::PackageNotFound));
    assert_eq!(status_of(&escrow, id), PackageStatus::Created);
}

#[test]
fn terms_survive_every_transition() {
    let (mut escrow, admin) = initialized();
    let r = Identity::new("recipient");
    let t = Identity::new("token");
    let id = escrow.create_package(&admin, r.clone(), 9, t, 100, 10).unwrap();
    let before = escrow.get_package(id).unwrap().unwrap();
    let _ = escrow.claim_package(&r, id, 500);
    let _ = escrow.cancel_package(&admin, id, 600);
    let _ = escrow.create_package(&admin, r.clone(), 3, Identity::new("other"), 0, 700);
    let after = escrow.get_package(id).unwrap().unwrap();
    assert_eq!(after.status, PackageStatus::Cancelled);
    assert_eq!(after.recipient, before.recipient);
    assert_eq!(after.amount, before.amount);
    assert_eq!(after.token, before.token);
    assert_eq!(after.created_at, before.created_at);
    assert_eq!(after.expires_at, before.expires_at);
    assert_eq!(after.metadata, before.metadata);
}

#[test]
fn two_packages_end_to_end() {
    let (mut escrow, admin) = initialized();
    let first = Identity::new("first");
    let second = Identity::new("second");
    let t = Identity::new("token");
    assert_eq!(escrow.create_package(&admin, first.clone(), 1000, t.clone(), 86400, 10), Ok(0));
    assert_eq!(escrow.create_package(&admin, second, 2000, t, 86400, 10), Ok(1));
    assert_eq!(escrow.claim_package(&first, 0, 10), Ok(()));
    assert_eq!(escrow.cancel_package(&admin, 1, 10), Ok(()));
    assert_eq!(status_of(&escrow, 0), PackageStatus::Claimed);
    assert_eq!(status_of(&escrow, 1), PackageStatus::Cancelled);
    assert_eq!(escrow.get_package_count(), Ok(2));
}

#[test]
fn one_package_end_to_end() {
    let mut escrow = AidEscrow::new();
    let a = Identity::new("A");
    let r = Identity::new("R");
    let t = Identity::new("T");
    assert_eq!(escrow.initialize(a.clone(), 0), Ok(()));
    assert_eq!(escrow.create_package(&a, r.clone(), 1000, t, 86400, 0), Ok(0));
    let package = escrow.get_package(0).unwrap().unwrap();
    assert_eq!(package.status, PackageStatus::Created);
    assert_eq!(package.amount, 1000);
    assert_eq!(escrow.claim_package(&r, 0, 0), Ok(()));
    assert_eq!(status_of(&escrow, 0), PackageStatus::Claimed);
    assert_eq!(escrow.get_package_count(), Ok(1));
}

#[test]
fn log_records_each_transition_in_order() {
    let (mut escrow, admin) = initialized();
    let r = Identity::new("recipient");
    let t = Identity::new("token");
    escrow.create_package(&admin, r.clone(), 5, t.clone(), 100, 20).unwrap();
    escrow.create_package(&admin, r.clone(), 6, t.clone(), 100, 21).unwrap();
    escrow.claim_package(&r, 0, 30).unwrap();
    let _ = escrow.claim_package(&r, 1, 500);
    escrow.cancel_package(&admin, 1, 600).unwrap();
    let topics: Vec<&str> = escrow.events().iter().map(|e| e.topic()).collect();
    assert_eq!(
        topics,
        vec![
            EVENT_CONTRACT_INITIALIZED,
            EVENT_PACKAGE_CREATED,
            EVENT_PACKAGE_CREATED,
            EVENT_PACKAGE_CLAIMED,
            EVENT_PACKAGE_EXPIRED,
            EVENT_PACKAGE_CANCELLED,
        ]
    );
    let ids: Vec<Option<u64>> = escrow.events().iter().map(|e| e.package_id()).collect();
    assert_eq!(ids, vec![None, Some(0), Some(1), Some(0), Some(1), Some(1)]);
}

#[test]
fn topic_names() {
    assert_eq!(EVENT_PACKAGE_CREATED, "package_created");
    assert_eq!(EVENT_PACKAGE_CLAIMED, "package_claimed");
    assert_eq!(EVENT_PACKAGE_EXPIRED, "package_expired");
    assert_eq!(EVENT_PACKAGE_CANCELLED, "package_cancelled");
    assert_eq!(EVENT_CONTRACT_INITIALIZED, "contract_initialized");
}

#[test]
fn claim_owes_the_amount_to_the_recipient() {
    let (mut escrow, admin) = initialized();
    let r = Identity::new("recipient");
    let t = Identity::new("token");
    let id = escrow.create_package(&admin, r.clone(), 12, t.clone(), 100, 10).unwrap();
    assert_eq!(
        escrow.claim_settlement(&r, id, 110),
        Some(Transfer { token: t, to: r.clone(), amount: 12 })
    );
    assert_eq!(escrow.claim_settlement(&r, id, 111), None);
    assert_eq!(escrow.claim_settlement(&admin, id, 20), None);
    assert_eq!(escrow.claim_settlement(&r, id + 1, 20), None);
    escrow.claim_package(&r, id, 20).unwrap();
    assert_eq!(escrow.claim_settlement(&r, id, 20), None);
}

#[test]
fn cancel_owes_the_amount_to_the_admin_once() {
    let (mut escrow, admin) = initialized();
    let r = Identity::new("recipient");
    let t = Identity::new("token");
    let fresh = escrow.create_package(&admin, r.clone(), 12, t.clone(), 100, 10).unwrap();
    let stale = escrow.create_package(&admin, r.clone(), 13, t.clone(), 100, 10).unwrap();
    let taken = escrow.create_package(&admin, r.clone(), 14, t.clone(), 100, 10).unwrap();
    let _ = escrow.claim_package(&r, stale, 500);
    escrow.claim_package(&r, taken, 20).unwrap();

    assert_eq!(
        escrow.cancel_settlement(&admin, fresh),
        Some(Transfer { token: t.clone(), to: admin.clone(), amount: 12 })
    );
    assert_eq!(
        escrow.cancel_settlement(&admin, stale),
        Some(Transfer { token: t, to: admin.clone(), amount: 13 })
    );
    assert_eq!(escrow.cancel_settlement(&admin, taken), None);
    assert_eq!(escrow.cancel_settlement(&r, fresh), None);
    assert_eq!(escrow.cancel_settlement(&admin, 999), None);

    escrow.cancel_package(&admin, fresh, 30).unwrap();
    escrow.cancel_package(&admin, stale, 30).unwrap();
    assert_eq!(escrow.cancel_settlement(&admin, fresh), None);
    assert_eq!(escrow.cancel_settlement(&admin, stale), None);
}

#[test]
fn failed_payment_leaves_the_package_unclaimed() {
    let (mut escrow, admin) = initialized();
    let r = Identity::new("recipient");
    let id = escrow
        .create_package(&admin, r.clone(), 12, Identity::new("token"), 100, 10)
        .unwrap();
    let events_before = escrow.events().len();
    assert_eq!(
        escrow.claim_package_settled(&r, id, 20, false),
        Err(Error::InvalidAmount)
    );
    assert_eq!(status_of(&escrow, id), PackageStatus::Created);
    assert_eq!(escrow.events().len(), events_before);

    assert_eq!(escrow.claim_package_settled(&r, id, 20, true), Ok(()));
    assert_eq!(status_of(&escrow, id), PackageStatus::Claimed);
    assert_eq!(escrow.events().len(), events_before + 1);
}

#[test]
fn failed_refund_leaves_the_package_uncancelled() {
    let (mut escrow, admin) = initialized();
    let r = Identity::new("recipient");
    let id = escrow
        .create_package(&admin, r, 12, Identity::new("token"), 100, 10)
        .unwrap();
    let events_before = escrow.events().len();
    assert_eq!(
        escrow.cancel_package_settled(&admin, id, 20, false),
        Err(Error::InvalidAmount)
    );
    assert_eq!(status_of(&escrow, id), PackageStatus::Created);
    assert_eq!(escrow.events().len(), events_before);

    assert_eq!(escrow.cancel_package_settled(&admin, id, 20, true), Ok(()));
    assert_eq!(status_of(&escrow, id), PackageStatus::Cancelled);
    assert_eq!(escrow.events().len(), events_before + 1);
}

#[test]
fn calls_that_owe_nothing_do_not_wait_for_a_transfer() {
    let (mut escrow, admin) = initialized();
    let r = Identity::new("recipient");
    let stranger = Identity::new("stranger");
    let id = escrow
        .create_package(&admin, r.clone(), 12, Identity::new("token"), 100, 10)
        .unwrap();
    assert_eq!(
        escrow.claim_package_settled(&stranger, id, 20, false),
        Err(Error::NotAuthorized)
    );
    assert_eq!(
        escrow.claim_package_settled(&r, 999, 20, false),
        Err(Error::PackageNotFound)
    );
    assert_eq!(
        escrow.cancel_package_settled(&stranger, id, 20, false),
        Err(Error::NotAuthorized)
    );
    assert_eq!(
        escrow.claim_package_settled(&r, id, 111, false),
        Err(Error::PackageExpired)
    );
    assert_eq!(status_of(&escrow, id), PackageStatus::Expired);
    assert_eq!(escrow.cancel_package_settled(&admin, id, 120, true), Ok(()));
    // cancelled already: nothing is owed, and the call goes through
    assert_eq!(escrow.cancel_package_settled(&admin, id, 121, false), Ok(()));
    assert_eq!(status_of(&escrow, id), PackageStatus::Cancelled);
}

#[test]
fn claim_signer_is_the_recipient_while_claimable() {
    let (mut escrow, admin) = initialized();
    let r = Identity::new("recipient");
    let id = escrow
        .create_package(&admin, r.clone(), 1, Identity::new("token"), 100, 10)
        .unwrap();
    assert_eq!(escrow.claim_signer(id, 110), Some(r.clone()));
    assert_eq!(escrow.claim_signer(id, 111), None);
    assert_eq!(escrow.claim_signer(id + 1, 20), None);
    escrow.claim_package(&r, id, 20).unwrap();
    assert_eq!(escrow.claim_signer(id, 20), None);
}

#[test]
fn only_the_named_party_passes() {
    let a = Identity::new("a");
    let b = Identity::new("b");
    assert_eq!(require_caller_is(&a, &a.clone()), Ok(()));
    assert_eq!(require_caller_is(&a, &b), Err(Error::NotAuthorized));
    assert_eq!(require_caller_is(&Identity::new(""), &a), Err(Error::NotAuthorized));
}

#[test]
fn identity_keeps_its_text() {
    let a = Identity::new("GABC");
    assert_eq!(a.as_str(), "GABC");
    assert!(a.same_as(&Identity::new("GABC")));
    assert!(!a.same_as(&Identity::new("GABD")));
    assert!(!a.same_as(&Identity::new("GAB")));
    assert_eq!(a.clone(), a);
}

#[test]
fn package_expiry_and_validity() {
    let p = sample_package(PackageStatus::Created, 100);
    assert!(!p.is_expired_at(100));
    assert!(p.is_expired_at(101));
    assert!(p.is_valid());
    let open_ended = sample_package(PackageStatus::Created, 0);
    assert!(!open_ended.is_expired_at(u64::MAX));
    assert!(open_ended.is_valid());
    assert!(!sample_package(PackageStatus::Expired, 0).is_valid());
    assert!(sample_package(PackageStatus::Expired, 2).is_valid());
    assert!(!sample_package(PackageStatus::Created, 1).is_valid());
    let mut free = sample_package(PackageStatus::Created, 0);
    free.amount = 0;
    assert!(!free.is_valid());
}

#[test]
fn package_clone_copies_metadata() {
    let mut p = sample_package(PackageStatus::Created, 0);
    p.metadata.push(MetadataEntry { key: "region".to_string(), value: "north".to_string() });
    p.metadata.push(MetadataEntry { key: "batch".to_string(), value: "7".to_string() });
    let q = p.clone();
    assert_eq!(q, p);
    assert_eq!(q.metadata[0].key, "region");
    assert_eq!(q.metadata[1].value, "7");
}

#[test]
fn store_hands_out_identifiers_and_keeps_records() {
    let mut store = PackageStore::new();
    assert!(!store.has_admin());
    assert_eq!(store.get_admin(), Err(Error::NotAuthorized));
    assert_eq!(store.package_count(), 0);
    store.set_admin(Identity::new("admin"));
    assert_eq!(store.get_admin(), Ok(Identity::new("admin")));
    assert_eq!(store.next_package_id(), 0);
    assert_eq!(store.next_package_id(), 1);
    assert_eq!(store.package_count(), 2);
    assert_eq!(store.get_package(1), None);
    store.put_package(1, sample_package(PackageStatus::Created, 0));
    assert_eq!(store.get_package(1), Some(sample_package(PackageStatus::Created, 0)));
    store.put_package(1, sample_package(PackageStatus::Claimed, 0));
    assert_eq!(store.get_package(1).unwrap().status, PackageStatus::Claimed);
    assert_eq!(store.get_package(0), None);
    assert_eq!(store.get_package(2), None);
    assert_eq!(store.package_count(), 2);
}

#[test]
fn restore_accepts_what_an_escrow_keeps() {
    let mut store = PackageStore::new();
    store.set_admin(Identity::new("admin"));
    let id = store.next_package_id();
    store.put_package(id, sample_package(PackageStatus::Created, 50));
    let mut escrow = AidEscrow::restore(store).unwrap();
    assert_eq!(escrow.get_package_count(), Ok(1));
    assert!(escrow.events().is_empty());
    assert_eq!(escrow.claim_package(&Identity::new("recipient"), 0, 50), Ok(()));
    assert_eq!(
        escrow.create_package(
            &Identity::new("admin"),
            Identity::new("r"),
            1,
            Identity::new("t"),
            0,
            60
        ),
        Ok(1)
    );
}

#[test]
fn restore_refuses_a_broken_store() {
    let mut gap = PackageStore::new();
    gap.set_admin(Identity::new("admin"));
    gap.next_package_id();
    assert!(AidEscrow::restore(gap).is_none());

    let mut no_admin = PackageStore::new();
    let id = no_admin.next_package_id();
    no_admin.put_package(id, sample_package(PackageStatus::Created, 0));
    assert!(AidEscrow::restore(no_admin).is_none());

    let mut invalid = PackageStore::new();
    invalid.set_admin(Identity::new("admin"));
    let id = invalid.next_package_id();
    invalid.put_package(id, sample_package(PackageStatus::Expired, 0));
    assert!(AidEscrow::restore(invalid).is_none());

    assert!(AidEscrow::restore(PackageStore::new()).is_some());
}

#[test]
fn claim_after_cancel_is_refused() {
    let (mut escrow, admin) = initialized();
    let r = Identity::new("recipient");
    let id = escrow
        .create_package(&admin, r.clone(), 40, Identity::new("token"), 100, 10)
        .unwrap();
    assert_eq!(escrow.cancel_package(&admin, id, 20), Ok(()));
    let record = escrow.get_package(id).unwrap().unwrap();
    let events_before = escrow.events().len();

    // before the deadline, by the recipient and by others
    assert_eq!(escrow.claim_package(&r, id, 30), Err(Error::NotAuthorized));
    assert_eq!(escrow.claim_package(&admin, id, 30), Err(Error::NotAuthorized));
    // past the deadline
    assert_eq!(escrow.claim_package(&r, id, 111), Err(Error::NotAuthorized));

    assert_eq!(escrow.get_package(id).unwrap().unwrap(), record);
    assert_eq!(record.status, PackageStatus::Cancelled);
    assert_eq!(escrow.events().len(), events_before);
    assert_eq!(escrow.claim_signer(id, 30), None);
}

#[test]
fn claim_after_expiry_is_refused_and_announced_again() {
    let (mut escrow, admin) = initialized();
    let r = Identity::new("recipient");
    let t = Identity::new("token");
    let id = escrow.create_package(&admin, r.clone(), 40, t.clone(), 100, 10).unwrap();
    assert_eq!(escrow.claim_package(&r, id, 111), Err(Error::PackageExpired));
    let record = escrow.get_package(id).unwrap().unwrap();
    let events_before = escrow.events().len();

    assert_eq!(escrow.claim_package(&r, id, 112), Err(Error::PackageExpired));
    assert_eq!(escrow.claim_package(&admin, id, 5000), Err(Error::PackageExpired));
    // a clock that went back does not reopen the package
    assert_eq!(escrow.claim_package(&r, id, 50), Err(Error::PackageExpired));

    assert_eq!(escrow.get_package(id).unwrap().unwrap(), record);
    assert_eq!(record.status, PackageStatus::Expired);
    assert_eq!(escrow.events().len(), events_before + 3);
    assert_eq!(
        escrow.events()[events_before],
        Event::PackageExpired {
            package_id: id,
            recipient: r.clone(),
            amount: 40,
            token: t,
            timestamp: 112,
        }
    );
    assert_eq!(escrow.claim_signer(id, 50), None);
    assert_eq!(escrow.claim_settlement(&r, id, 50), None);
}

#[test]
fn cancelling_twice_announces_twice_and_refunds_once() {
    let (mut escrow, admin) = initialized();
    let r = Identity::new("recipient");
    let t = Identity::new("token");
    let id = escrow.create_package(&admin, r.clone(), 40, t.clone(), 100, 10).unwrap();

    let mut refunds = 0;
    for now in [20u64, 21, 500] {
        let owed = escrow.cancel_settlement(&admin, id);
        if owed.is_some() {
            refunds += 1;
        }
        let events_before = escrow.events().len();
        assert_eq!(escrow.cancel_package_settled(&admin, id, now, true), Ok(()));
        assert_eq!(escrow.events().len(), events_before + 1);
        assert_eq!(
            escrow.events()[events_before],
            Event::PackageCancelled {
                package_id: id,
                recipient: r.clone(),
                amount: 40,
                token: t.clone(),
                actor: admin.clone(),
                timestamp: now,
            }
        );
        assert_eq!(status_of(&escrow, id), PackageStatus::Cancelled);
    }
    assert_eq!(refunds, 1);
}

#[test]
fn every_package_is_settled_at_most_once() {
    let (mut escrow, admin) = initialized();
    let r = Identity::new("recipient");
    let t = Identity::new("token");
    for _ in 0..4 {
        escrow.create_package(&admin, r.clone(), 5, t.clone(), 100, 10).unwrap();
    }
    let mut moved = [0u32; 4];
    // 0: claimed, then cancel and claim again; 1: cancelled, then claim and cancel again;
    // 2: expired, then claimed again and cancelled twice; 3: left alone
    let calls: [(bool, u64, u64); 10] = [
        (true, 0, 20),
        (false, 0, 21),
        (true, 0, 22),
        (false, 1, 23),
        (true, 1, 24),
        (false, 1, 25),
        (true, 2, 200),
        (true, 2, 201),
        (false, 2, 202),
        (false, 2, 203),
    ];
    for (is_claim, id, now) in calls {
        if is_claim {
            if escrow.claim_settlement(&r, id, now).is_some() {
                moved[id as usize] += 1;
            }
            let _ = escrow.claim_package_settled(&r, id, now, true);
        } else {
            if escrow.cancel_settlement(&admin, id).is_some() {
                moved[id as usize] += 1;
            }
            let _ = escrow.cancel_package_settled(&admin, id, now, true);
        }
    }
    assert_eq!(moved, [1, 1, 1, 0]);
    assert_eq!(status_of(&escrow, 0), PackageStatus::Claimed);
    assert_eq!(status_of(&escrow, 1), PackageStatus::Cancelled);
    assert_eq!(status_of(&escrow, 2), PackageStatus::Cancelled);
    assert_eq!(status_of(&escrow, 3), PackageStatus::Created);
}

#[test]
fn payload_lists_the_values_in_order() {
    let a = Identity::new("admin");
    let r = Identity::new("recipient");
    let t = Identity::new("token");
    assert_eq!(
        Event::ContractInitialized { admin: a.clone(), timestamp: 4 }.payload(),
        vec![Field::Party(a.clone()), Field::Number(4)]
    );
    assert_eq!(
        Event::PackageCreated {
            package_id: 3,
            recipient: r.clone(),
            amount: 12,
            token: t.clone(),
            creator: a.clone(),
            created_at: 7,
            expires_at: 9,
        }
        .payload(),
        vec![
            Field::Number(3),
            Field::Party(r.clone()),
            Field::Amount(12),
            Field::Party(t.clone()),
            Field::Party(a.clone()),
            Field::Number(7),
            Field::Number(9),
        ]
    );
    let five = vec![
        Field::Number(3),
        Field::Party(r.clone()),
        Field::Amount(12),
        Field::Party(t.clone()),
        Field::Number(8),
    ];
    assert_eq!(
        Event::PackageClaimed {
            package_id: 3,
            recipient: r.clone(),
            amount: 12,
            token: t.clone(),
            timestamp: 8,
        }
        .payload(),
        five
    );
    assert_eq!(
        Event::PackageExpired {
            package_id: 3,
            recipient: r.clone(),
            amount: 12,
            token: t.clone(),
            timestamp: 8,
        }
        .payload(),
        five
    );
    assert_eq!(
        Event::PackageCancelled {
            package_id: 3,
            recipient: r.clone(),
            amount: 12,
            token: t.clone(),
            actor: a.clone(),
            timestamp: 8,
        }
        .payload(),
        vec![
            Field::Number(3),
            Field::Party(r),
            Field::Amount(12),
            Field::Party(t),
            Field::Party(a),
            Field::Number(8),
        ]
    );
}

#[test]
fn topics_are_the_name_and_the_identifier() {
    let a = Identity::new("admin");
    assert_eq!(
        Event::ContractInitialized { admin: a.clone(), timestamp: 4 }.topics(),
        vec![Field::Name("contract_initialized".to_string())]
    );
    assert_eq!(
        Event::PackageExpired {
            package_id: 6,
            recipient: a.clone(),
            amount: 1,
            token: a,
            timestamp: 8,
        }
        .topics(),
        vec![Field::Name("package_expired".to_string()), Field::Number(6)]
    );
}

#[test]
fn metadata_keys_must_differ() {
    let mut p = sample_package(PackageStatus::Created, 0);
    p.metadata.push(MetadataEntry { key: "region".to_string(), value: "north".to_string() });
    p.metadata.push(MetadataEntry { key: "batch".to_string(), value: "north".to_string() });
    assert!(p.is_valid());
    p.metadata.push(MetadataEntry { key: "region".to_string(), value: "south".to_string() });
    assert!(!p.is_valid());

    let mut store = PackageStore::new();
    store.set_admin(Identity::new("admin"));
    let id = store.next_package_id();
    store.put_package(id, p);
    assert!(AidEscrow::restore(store).is_none());
}
