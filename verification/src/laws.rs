use vstd::prelude::*;
use crate::error::Error;
use crate::event::EventView;
use crate::model::{EscrowView, Operation};
use crate::package::PackageStatus;

verus! {

/// Every call keeps the escrow's invariant.
pub proof fn law_step_keeps_invariant(s: EscrowView, op: Operation)
    requires
        s.wf(),
    ensures
        s.step(op).wf(),
{
}

/// Every sequence of calls keeps the escrow's invariant.
pub proof fn law_run_keeps_invariant(s: EscrowView, ops: Seq<Operation>)
    requires
        s.wf(),
    ensures
        s.run(ops).wf(),
    decreases ops.len(),
{
    if ops.len() > 0 {
        law_run_keeps_invariant(s, ops.drop_last());
        law_step_keeps_invariant(s.run(ops.drop_last()), ops.last());
    }
}

/// The counter never decreases, and it grows by one exactly when a package
/// is created.
pub proof fn law_counter_counts_creations(s: EscrowView, op: Operation)
    requires
        s.wf(),
    ensures
        s.step(op).count == s.count + if op is Create && s.accepts(op) {
            1nat
        } else {
            0nat
        },
{
}

/// A created package gets an identifier that no package had before, and
/// every earlier package keeps its identifier and its record.
pub proof fn law_identifiers_are_unique(
    s: EscrowView,
    caller: Seq<char>,
    recipient: Seq<char>,
    amount: int,
    token: Seq<char>,
    expires_in: nat,
    now: nat,
)
    requires
        s.wf(),
        s.create_result(caller, amount).is_ok(),
    ensures
        ({
            let id = s.create_result(caller, amount).unwrap();
            let t = s.create(caller, recipient, amount, token, expires_in, now);
            &&& !s.packages.contains_key(id)
            &&& t.packages.contains_key(id)
            &&& t.packages[id] == EscrowView::new_package(recipient, amount, token, expires_in, now)
            &&& forall|other: nat| #[trigger]
                s.packages.contains_key(other) ==> t.packages.contains_key(other)
                    && t.packages[other] == s.packages[other]
        }),
{
}

/// The creations `ops`, each made by `admin` with a positive amount.
pub open spec fn creations_by(admin: Seq<char>, ops: Seq<Operation>) -> bool {
    forall|i: int|
        0 <= i < ops.len() ==> (#[trigger] ops[i] matches Operation::Create { caller, amount, .. }
            && caller == admin && amount > 0)
}

/// After initialization, any number of creations by the administrator
/// return the identifiers 0, 1, 2, ... in the order of the calls: the call
/// at position `i` is accepted and returns `i`.
pub proof fn law_identifiers_count_from_zero(
    admin: Seq<char>,
    now: nat,
    ops: Seq<Operation>,
    i: int,
)
    requires
        creations_by(admin, ops),
        0 <= i < ops.len(),
    ensures
        ({
            let before = EscrowView::empty().initialize(admin, now).run(ops.take(i));
            &&& ops[i] matches Operation::Create { caller, amount, .. }
            &&& before.create_result(caller, amount) == Ok::<nat, Error>(i as nat)
        }),
{
    let start = EscrowView::empty().initialize(admin, now);
    lemma_creations_advance_counter(start, admin, ops.take(i));
}

/// A run of creations by the administrator advances the counter by their
/// number and leaves the administrator in place.
pub proof fn lemma_creations_advance_counter(s: EscrowView, admin: Seq<char>, ops: Seq<Operation>)
    requires
        s.admin == Some(admin),
        creations_by(admin, ops),
    ensures
        s.run(ops).count == s.count + ops.len(),
        s.run(ops).admin == Some(admin),
    decreases ops.len(),
{
    if ops.len() > 0 {
        let front = ops.drop_last();
        assert forall|j: int| 0 <= j < front.len() implies (#[trigger] front[j] matches Operation::Create {
            caller,
            amount,
            ..
        } && caller == admin && amount > 0) by {
            assert(front[j] == ops[j]);
        }
        lemma_creations_advance_counter(s, admin, front);
        assert(ops.last() == ops[ops.len() - 1]);
    }
}

/// A creation with an amount that is not positive is refused and changes
/// nothing: neither the counter, nor a record, nor the log. The error is
/// `InvalidAmount` where the caller is the administrator; any other caller
/// is turned away as `NotAuthorized` before the amount is looked at.
pub proof fn law_nonpositive_amount_is_refused(
    s: EscrowView,
    caller: Seq<char>,
    recipient: Seq<char>,
    amount: int,
    token: Seq<char>,
    expires_in: nat,
    now: nat,
)
    requires
        amount <= 0,
    ensures
        s.create_result(caller, amount).is_err(),
        s.is_admin(caller) ==> s.create_result(caller, amount) == Err::<nat, Error>(
            Error::InvalidAmount,
        ),
        s.create(caller, recipient, amount, token, expires_in, now) == s,
{
}

/// No call removes a package or changes anything of it but its status.
pub proof fn law_terms_are_immutable(s: EscrowView, op: Operation, id: nat)
    requires
        s.wf(),
        s.packages.contains_key(id),
    ensures
        s.step(op).packages.contains_key(id),
        s.packages[id].same_terms(s.step(op).packages[id]),
{
}

/// No call moves a package back to `Created`.
pub proof fn law_status_never_returns_to_created(s: EscrowView, op: Operation, id: nat)
    requires
        s.wf(),
        s.packages.contains_key(id),
        s.packages[id].status != PackageStatus::Created,
    ensures
        s.step(op).packages[id].status != PackageStatus::Created,
{
}

/// A claimed package stays as it is, whatever is called afterwards.
pub proof fn law_claimed_is_final(s: EscrowView, op: Operation, id: nat)
    requires
        s.wf(),
        s.status_of(id) == Some(PackageStatus::Claimed),
    ensures
        s.step(op).packages.contains_key(id),
        s.step(op).packages[id] == s.packages[id],
{
}

/// A package that has left `Created` keeps its whole record under every
/// call but one: the administrator's cancellation of an expired package,
/// with its refund carried out, which makes it `Cancelled`.
pub proof fn law_terminal_status_is_kept(s: EscrowView, op: Operation, id: nat)
    requires
        s.wf(),
        s.packages.contains_key(id),
        s.packages[id].status != PackageStatus::Created,
    ensures
        ({
            let relabelled = op matches Operation::Cancel { caller, id: target, transferred, .. }
                && target == id && transferred && s.is_admin(caller) && s.packages[id].status
                == PackageStatus::Expired;
            &&& relabelled ==> s.step(op).packages[id].status == PackageStatus::Cancelled
            &&& !relabelled ==> s.step(op).packages[id] == s.packages[id]
        }),
{
}

/// Only a package that is still `Created` can be claimed. A claim of one
/// that has left `Created` fails, whoever makes it and whenever, owes no
/// movement of value and leaves every record as it is:
/// `PackageAlreadyClaimed` for a claimed package, `PackageExpired` for an
/// expired one, `NotAuthorized` for a cancelled one. Only the claim of an
/// expired package publishes: it repeats `PackageExpired`.
pub proof fn law_claim_needs_created(s: EscrowView, caller: Seq<char>, id: nat, now: nat)
    requires
        s.packages.contains_key(id),
        s.packages[id].status != PackageStatus::Created,
    ensures
        s.claim_result(caller, id, now) == Err::<(), Error>(
            match s.packages[id].status {
                PackageStatus::Claimed => Error::PackageAlreadyClaimed,
                PackageStatus::Expired => Error::PackageExpired,
                _ => Error::NotAuthorized,
            },
        ),
        s.claim_owes(caller, id, now).is_none(),
        s.claim(caller, id, now).packages == s.packages,
        s.claim(caller, id, now).count == s.count,
        s.claim(caller, id, now).admin == s.admin,
        s.packages[id].status != PackageStatus::Expired ==> s.claim(caller, id, now) == s,
        s.packages[id].status == PackageStatus::Expired ==> s.claim(caller, id, now).events
            == s.events.push(
            EventView::PackageExpired {
                package_id: id,
                recipient: s.packages[id].recipient,
                amount: s.packages[id].amount,
                token: s.packages[id].token,
                timestamp: now,
            },
        ),
{
    assert(s.packages.insert(id, s.packages[id]) =~= s.packages);
}

/// A successful claim leaves the package `Claimed`, and every later claim
/// of it, by whomever and whenever, fails with `PackageAlreadyClaimed` and
/// changes nothing.
pub proof fn law_claim_happens_once(
    s: EscrowView,
    caller: Seq<char>,
    id: nat,
    now: nat,
    again: Seq<char>,
    later: nat,
)
    requires
        s.claim_result(caller, id, now).is_ok(),
    ensures
        ({
            let t = s.claim(caller, id, now);
            &&& t.status_of(id) == Some(PackageStatus::Claimed)
            &&& t.claim_result(again, id, later) == Err::<(), Error>(Error::PackageAlreadyClaimed)
            &&& t.claim(again, id, later) == t
        }),
{
}

/// The deadline is inclusive, and it decides before the caller does. A
/// claim of a `Created` package after the deadline fails with
/// `PackageExpired`, whoever makes it, and leaves the package `Expired`. A
/// claim by the recipient at the deadline or before it succeeds.
pub proof fn law_deadline_decides_first(s: EscrowView, caller: Seq<char>, id: nat, now: nat)
    requires
        s.packages.contains_key(id),
        s.packages[id].status == PackageStatus::Created,
    ensures
        s.packages[id].expires_at != 0 && now > s.packages[id].expires_at ==> {
            &&& s.claim_result(caller, id, now) == Err::<(), Error>(Error::PackageExpired)
            &&& s.claim(caller, id, now).status_of(id) == Some(PackageStatus::Expired)
        },
        (s.packages[id].expires_at == 0 || now <= s.packages[id].expires_at) && caller
            == s.packages[id].recipient ==> {
            &&& s.claim_result(caller, id, now).is_ok()
            &&& s.claim(caller, id, now).status_of(id) == Some(PackageStatus::Claimed)
        },
{
}

/// Cancelling a claimed package fails and changes nothing. The error is
/// `PackageAlreadyClaimed` where the caller is the administrator; any other
/// caller is turned away as `NotAuthorized` before the package is looked at.
pub proof fn law_cancel_spares_claimed(s: EscrowView, caller: Seq<char>, id: nat, now: nat)
    requires
        s.status_of(id) == Some(PackageStatus::Claimed),
    ensures
        s.cancel_result(caller, id).is_err(),
        s.is_admin(caller) ==> s.cancel_result(caller, id) == Err::<(), Error>(
            Error::PackageAlreadyClaimed,
        ),
        s.cancel(caller, id, now) == s,
{
}

/// The administrator's cancellation of a package that has not been
/// claimed succeeds, whether the package is created, expired or cancelled
/// already. It leaves that record as it was but for the status
/// `Cancelled`, keeps every other record, the counter and the
/// administrator, and appends one `PackageCancelled` to the log.
pub proof fn law_admin_cancels_unclaimed(s: EscrowView, caller: Seq<char>, id: nat, now: nat)
    requires
        s.is_admin(caller),
        s.packages.contains_key(id),
        s.packages[id].status != PackageStatus::Claimed,
    ensures
        s.cancel_result(caller, id).is_ok(),
        ({
            let t = s.cancel(caller, id, now);
            &&& t.packages == s.packages.insert(id, s.packages[id].with_status(PackageStatus::Cancelled))
            &&& t.count == s.count
            &&& t.admin == s.admin
            &&& t.events == s.events.push(
                EventView::PackageCancelled {
                    package_id: id,
                    recipient: s.packages[id].recipient,
                    amount: s.packages[id].amount,
                    token: s.packages[id].token,
                    actor: caller,
                    timestamp: now,
                },
            )
        }),
{
}

/// An identifier that has not been handed out has no package.
pub proof fn law_unused_identifier_is_empty(s: EscrowView, id: nat)
    requires
        s.wf(),
        id >= s.count,
    ensures
        s.status_of(id).is_none(),
        !s.packages.contains_key(id),
{
}

/// A deposit goes back once. The cancellation of a package that is
/// cancelled already publishes `PackageCancelled` again and owes nothing:
/// what a cancellation owes goes by the status before the call.
pub proof fn law_refund_is_owed_once(s: EscrowView, caller: Seq<char>, id: nat, now: nat)
    requires
        s.status_of(id) == Some(PackageStatus::Cancelled),
    ensures
        s.cancel_owes(caller, id).is_none(),
        s.cancel(caller, id, now).packages == s.packages,
        s.cancel(caller, id, now).cancel_owes(caller, id).is_none(),
{
    assert(s.packages.insert(id, s.packages[id]) =~= s.packages);
}

/// Value leaves the escrow only with a successful claim, to the recipient,
/// and with the administrator's cancellation of a created or expired
/// package, to the administrator; in both cases it is the package's whole
/// amount of its asset.
pub proof fn law_settlement_is_the_deposit(s: EscrowView, caller: Seq<char>, id: nat, now: nat)
    ensures
        s.claim_owes(caller, id, now).is_some() <==> s.claim_result(caller, id, now).is_ok(),
        s.claim_owes(caller, id, now) matches Some(t) ==> {
            &&& t.to == s.packages[id].recipient
            &&& t.to == caller
            &&& t.amount == s.packages[id].amount
            &&& t.token == s.packages[id].token
        },
        s.cancel_owes(caller, id).is_some() <==> s.cancel_result(caller, id).is_ok() && (
        s.packages[id].status == PackageStatus::Created || s.packages[id].status
            == PackageStatus::Expired),
        s.cancel_owes(caller, id) matches Some(t) ==> {
            &&& s.is_admin(t.to)
            &&& t.amount == s.packages[id].amount
            &&& t.token == s.packages[id].token
        },
{
}

/// The movement of value and the transition happen both or neither: where
/// a claim or a cancellation owes a movement that the host could not carry
/// out, the call fails, the status is not advanced and nothing is
/// published. Where the host carried it out, or none is owed, the call is
/// the plain claim or cancellation.
pub proof fn law_failed_transfer_changes_nothing(
    s: EscrowView,
    caller: Seq<char>,
    id: nat,
    now: nat,
    transferred: bool,
)
    ensures
        s.claim_owes(caller, id, now).is_some() && !transferred ==> {
            &&& s.claim_settled_result(caller, id, now, transferred).is_err()
            &&& s.claim_settled(caller, id, now, transferred) == s
        },
        s.cancel_owes(caller, id).is_some() && !transferred ==> {
            &&& s.cancel_settled_result(caller, id, transferred).is_err()
            &&& s.cancel_settled(caller, id, now, transferred) == s
        },
        s.claim_owes(caller, id, now).is_none() || transferred ==> {
            &&& s.claim_settled_result(caller, id, now, transferred) == s.claim_result(
                caller,
                id,
                now,
            )
            &&& s.claim_settled(caller, id, now, transferred) == s.claim(caller, id, now)
        },
        s.cancel_owes(caller, id).is_none() || transferred ==> {
            &&& s.cancel_settled_result(caller, id, transferred) == s.cancel_result(caller, id)
            &&& s.cancel_settled(caller, id, now, transferred) == s.cancel(caller, id, now)
        },
{
}

/// Whether the call `op` publishes: it succeeds, or it is a claim that
/// finds its package expired.
pub open spec fn takes_effect(s: EscrowView, op: Operation) -> bool {
    s.accepts(op) || (op matches Operation::Claim { id, now, .. } && s.claim_finds_expired(id, now))
}

/// The log only grows, by one notification for each call that succeeds and
/// for each claim that finds its package expired. Every other call leaves
/// the whole state as it is.
pub proof fn law_log_is_append_only(s: EscrowView, op: Operation)
    ensures
        s.events.is_prefix_of(s.step(op).events),
        s.step(op).events.len() == s.events.len() + if takes_effect(s, op) {
            1nat
        } else {
            0nat
        },
        !takes_effect(s, op) ==> s.step(op) == s,
{
}

/// How many of the calls `ops`, made in order from the state `s`, come
/// with a movement of the value of the package `id`.
pub open spec fn settlements_of(s: EscrowView, ops: Seq<Operation>, id: nat) -> nat
    decreases ops.len(),
{
    if ops.len() == 0 {
        0
    } else {
        settlements_of(s, ops.drop_last(), id) + if s.run(ops.drop_last()).settles(ops.last())
            matches Some(moved) && moved.0 == id {
            1nat
        } else {
            0nat
        }
    }
}

/// Whether the value of the package `id` has left the escrow: the package
/// is claimed or cancelled.
pub open spec fn settled(s: EscrowView, id: nat) -> bool {
    s.status_of(id) == Some(PackageStatus::Claimed) || s.status_of(id) == Some(
        PackageStatus::Cancelled,
    )
}

/// A call comes with a movement of a package's value exactly when it makes
/// that package claimed or cancelled, and a package that is claimed or
/// cancelled stays so.
pub proof fn law_step_settles_once(s: EscrowView, op: Operation, id: nat)
    requires
        s.wf(),
    ensures
        settled(s, id) ==> settled(s.step(op), id),
        (s.settles(op) matches Some(moved) && moved.0 == id) <==> settled(s.step(op), id)
            && !settled(s, id),
{
}

/// Over any sequence of calls, the value of a package moves once if the
/// package becomes claimed or cancelled in the course of it, and not at
/// all otherwise.
pub proof fn law_run_settles_once(s: EscrowView, ops: Seq<Operation>, id: nat)
    requires
        s.wf(),
    ensures
        settled(s, id) ==> settled(s.run(ops), id),
        settlements_of(s, ops, id) == if settled(s.run(ops), id) && !settled(s, id) {
            1nat
        } else {
            0nat
        },
    decreases ops.len(),
{
    if ops.len() > 0 {
        law_run_settles_once(s, ops.drop_last(), id);
        law_run_keeps_invariant(s, ops.drop_last());
        law_step_settles_once(s.run(ops.drop_last()), ops.last(), id);
    }
}

/// Whatever is called on an escrow from its beginning, the value of one
/// package never moves twice: it has moved once for a package that is
/// claimed or cancelled, and not at all for any other.
pub proof fn law_one_settlement_per_package(ops: Seq<Operation>, id: nat)
    ensures
        settlements_of(EscrowView::empty(), ops, id) == if settled(
            EscrowView::empty().run(ops),
            id,
        ) {
            1nat
        } else {
            0nat
        },
{
    law_run_settles_once(EscrowView::empty(), ops, id);
}

} // verus!
