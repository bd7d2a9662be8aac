//! Global guarantees of the escrow engine.
//!
//! Each law is stated over the transition functions that the
//! executable operations are proved to implement, so it holds of every
//! sequence of operations the engine can ever run.

use vstd::prelude::*;

use crate::address::{address_spec, nonce_spec};
use crate::escrow::{
    signer_count, Deposit, Escrow, EscrowError, EscrowState, MarkShipped, Refund, Release,
    TransferIn, TransferOut,
};
use crate::store::{
    table_at, table_contains, table_deposit, table_index, table_mark_shipped, table_refund,
    table_release, table_wf, EscrowTable, StoreError, lemma_table_index_unique,
};

verus! {

/// Any one operation on an existing record.
pub enum EscrowOp {
    Ship(MarkShipped),
    Release(Release),
    Refund(Refund),
}

/// The record after one operation, whether or not it succeeded.
pub open spec fn step(e: Escrow, op: EscrowOp) -> Escrow {
    match op {
        EscrowOp::Ship(m) => e.mark_shipped_spec(m).0,
        EscrowOp::Release(r) => e.release_spec(r).0,
        EscrowOp::Refund(r) => e.refund_spec(r).0,
    }
}

/// The record after a whole sequence of operations.
pub open spec fn run(e: Escrow, ops: Seq<EscrowOp>) -> Escrow
    decreases ops.len(),
{
    if ops.len() == 0 {
        e
    } else {
        run(step(e, ops[0]), ops.subrange(1, ops.len() as int))
    }
}

/// Deposit funds exactly: a deposit of a positive amount at a free
/// address creates a `Deposited` record holding exactly that amount
/// and owes exactly that funding movement from the buyer; a deposit of
/// zero fails `InvalidAmount` and creates no record.
pub proof fn lemma_deposit_funds_exactly(
    t: EscrowTable,
    req: Deposit,
    listing_id: [u8; 32],
    amount: u64,
)
    requires
        table_wf(t),
    ensures
        ({
            let (t2, r) = table_deposit(t, req, listing_id, amount);
            let a = address_spec(
                listing_id@,
                req.buyer,
                req.seller,
                req.arbiter,
                nonce_spec(listing_id@, req.buyer, req.seller, req.arbiter),
            );
            &&& (amount > 0 && !table_contains(t, a)) ==> {
                &&& r == Ok::<TransferIn, StoreError>(TransferIn { from: req.buyer, amount })
                &&& table_contains(t2, a)
                &&& table_at(t2, a).amount_held == amount
                &&& table_at(t2, a).state is Deposited
                &&& table_at(t2, a).buyer == req.buyer
                &&& table_at(t2, a).seller == req.seller
                &&& table_at(t2, a).arbiter == req.arbiter
            }
            &&& (amount == 0 && !table_contains(t, a)) ==> {
                &&& r == Err::<TransferIn, StoreError>(StoreError::Escrow(EscrowError::InvalidAmount))
                &&& t2 == t
            }
        }),
{
    let a = address_spec(
        listing_id@,
        req.buyer,
        req.seller,
        req.arbiter,
        nonce_spec(listing_id@, req.buyer, req.seller, req.arbiter),
    );
    if amount > 0 && !table_contains(t, a) {
        let (t2, r) = table_deposit(t, req, listing_id, amount);
        lemma_table_index_unique(t2, a, t.len() as int);
    }
}

/// No double creation: once a deposit for a tuple has succeeded, any
/// further deposit of the identical (listing, buyer, seller, arbiter)
/// tuple fails on the address collision and changes nothing, whatever
/// amount it names.
pub proof fn lemma_no_double_creation(
    t: EscrowTable,
    req: Deposit,
    listing_id: [u8; 32],
    amount1: u64,
    amount2: u64,
)
    requires
        table_deposit(t, req, listing_id, amount1).1 is Ok,
    ensures
        ({
            let t2 = table_deposit(t, req, listing_id, amount1).0;
            table_deposit(t2, req, listing_id, amount2) == (
                t2,
                Err::<TransferIn, StoreError>(StoreError::AddressInUse),
            )
        }),
{
    let a = address_spec(
        listing_id@,
        req.buyer,
        req.seller,
        req.arbiter,
        nonce_spec(listing_id@, req.buyer, req.seller, req.arbiter),
    );
    let t2 = table_deposit(t, req, listing_id, amount1).0;
    assert(t2[t.len() as int].0 == a);
    assert(table_contains(t2, a));
}

/// Quorum necessity: on an active record with matching identities, a
/// settlement authorized by zero or one party fails `NeedTwoSigners`
/// and changes nothing; one authorized by any two or by all three
/// parties succeeds and owes the full held amount — to the seller on
/// release, to the buyer on refund.
pub proof fn lemma_quorum_necessity(e: Escrow, rel: Release, refd: Refund)
    requires
        e.is_active(),
        e.parties_match(rel.buyer, rel.seller, rel.arbiter),
        e.parties_match(refd.buyer, refd.seller, refd.arbiter),
    ensures
        signer_count(rel.buyer_authorized, rel.seller_authorized, rel.arbiter_authorized) < 2
            ==> e.release_spec(rel) == (
            e,
            Err::<TransferOut, EscrowError>(EscrowError::NeedTwoSigners),
        ),
        signer_count(rel.buyer_authorized, rel.seller_authorized, rel.arbiter_authorized) >= 2
            ==> e.release_spec(rel) == (
            Escrow { amount_held: 0, state: EscrowState::Completed, ..e },
            Ok::<TransferOut, EscrowError>(TransferOut { to: e.seller, amount: e.amount_held }),
        ),
        signer_count(refd.buyer_authorized, refd.seller_authorized, refd.arbiter_authorized) < 2
            ==> e.refund_spec(refd) == (
            e,
            Err::<TransferOut, EscrowError>(EscrowError::NeedTwoSigners),
        ),
        signer_count(refd.buyer_authorized, refd.seller_authorized, refd.arbiter_authorized) >= 2
            ==> e.refund_spec(refd) == (
            Escrow { amount_held: 0, state: EscrowState::Refunded, ..e },
            Ok::<TransferOut, EscrowError>(TransferOut { to: e.buyer, amount: e.amount_held }),
        ),
{
}

/// Terminal idempotence and no reentry: on a settled record every
/// release, refund or shipment attempt fails and changes nothing, and
/// a well-formed settled record holds no value, so funds can never
/// move twice.
pub proof fn lemma_terminal_no_reentry(e: Escrow, rel: Release, refd: Refund, m: MarkShipped)
    requires
        e.is_terminal(),
    ensures
        e.release_spec(rel) == (e, Err::<TransferOut, EscrowError>(EscrowError::InvalidState)),
        e.refund_spec(refd) == (e, Err::<TransferOut, EscrowError>(EscrowError::InvalidState)),
        e.mark_shipped_spec(m).0 == e,
        e.mark_shipped_spec(m).1 is Err,
        e.wf() ==> e.amount_held == 0,
{
}

/// A settled record stays exactly as it is under every further
/// sequence of operations.
pub proof fn lemma_terminal_persists(e: Escrow, ops: Seq<EscrowOp>)
    requires
        e.is_terminal(),
    ensures
        run(e, ops) == e,
    decreases ops.len(),
{
    if ops.len() > 0 {
        assert(step(e, ops[0]) == e);
        lemma_terminal_persists(step(e, ops[0]), ops.subrange(1, ops.len() as int));
    }
}

/// Mutual exclusivity of outcomes, one side: once a release has
/// succeeded, no refund ever succeeds on that record, however many
/// operations come between.
pub proof fn lemma_exclusive_outcomes_after_release(
    e: Escrow,
    rel: Release,
    ops: Seq<EscrowOp>,
    refd: Refund,
    rel2: Release,
)
    requires
        e.release_spec(rel).1 is Ok,
    ensures
        ({
            let e1 = e.release_spec(rel).0;
            &&& run(e1, ops).refund_spec(refd).1 == Err::<TransferOut, EscrowError>(
                EscrowError::InvalidState,
            )
            &&& run(e1, ops).release_spec(rel2).1 == Err::<TransferOut, EscrowError>(
                EscrowError::InvalidState,
            )
        }),
{
    let e1 = e.release_spec(rel).0;
    lemma_terminal_persists(e1, ops);
}

/// Mutual exclusivity of outcomes, the other side: once a refund has
/// succeeded, no release ever succeeds on that record.
pub proof fn lemma_exclusive_outcomes_after_refund(
    e: Escrow,
    refd: Refund,
    ops: Seq<EscrowOp>,
    rel: Release,
    refd2: Refund,
)
    requires
        e.refund_spec(refd).1 is Ok,
    ensures
        ({
            let e1 = e.refund_spec(refd).0;
            &&& run(e1, ops).release_spec(rel).1 == Err::<TransferOut, EscrowError>(
                EscrowError::InvalidState,
            )
            &&& run(e1, ops).refund_spec(refd2).1 == Err::<TransferOut, EscrowError>(
                EscrowError::InvalidState,
            )
        }),
{
    let e1 = e.refund_spec(refd).0;
    lemma_terminal_persists(e1, ops);
}

/// State is monotonic along the lifecycle graph: no operation ever
/// re-enters a state already left, and the terminal states absorb.
pub proof fn lemma_state_monotone(e: Escrow, op: EscrowOp)
    ensures
        step(e, op).state is Deposited ==> e.state is Deposited,
        step(e, op).state is Shipped ==> (e.state is Deposited || e.state is Shipped),
        e.is_terminal() ==> step(e, op) == e,
{
}

/// Record isolation: a deposit leaves every existing record exactly as
/// it was, and a shipment or settlement of one record leaves every
/// record at any other address exactly as it was.
pub proof fn lemma_record_isolation(
    t: EscrowTable,
    req: Deposit,
    listing_id: [u8; 32],
    amount: u64,
    a: Seq<u8>,
    m: MarkShipped,
    rel: Release,
    refd: Refund,
    b: Seq<u8>,
)
    requires
        table_wf(t),
        b != a,
        table_contains(t, b),
    ensures
        table_contains(table_deposit(t, req, listing_id, amount).0, b),
        table_at(table_deposit(t, req, listing_id, amount).0, b) == table_at(t, b),
        table_contains(table_mark_shipped(t, a, m).0, b),
        table_at(table_mark_shipped(t, a, m).0, b) == table_at(t, b),
        table_contains(table_release(t, a, rel).0, b),
        table_at(table_release(t, a, rel).0, b) == table_at(t, b),
        table_contains(table_refund(t, a, refd).0, b),
        table_at(table_refund(t, a, refd).0, b) == table_at(t, b),
{
    let j = table_index(t, b);
    lemma_table_index_unique(t, b, j);
    let t_dep = table_deposit(t, req, listing_id, amount).0;
    if t_dep != t {
        assert(t_dep[j].0 == b);
        assert(forall|p: int, q: int|
            0 <= p < q < t_dep.len() ==> (#[trigger] t_dep[p]).0 != (#[trigger] t_dep[q]).0);
        lemma_table_index_unique(t_dep, b, j);
    }
    if table_contains(t, a) {
        let i = table_index(t, a);
        lemma_table_index_unique(t, a, i);
        assert(i != j);
        let t_ship = table_mark_shipped(t, a, m).0;
        if t_ship != t {
            lemma_table_index_unique(t_ship, b, j);
        }
        let t_rel = table_release(t, a, rel).0;
        if t_rel != t {
            lemma_table_index_unique(t_rel, b, j);
        }
        let t_ref = table_refund(t, a, refd).0;
        if t_ref != t {
            lemma_table_index_unique(t_ref, b, j);
        }
    }
}

/// Shipment independence: marking shipped succeeds exactly when the
/// caller is the seller and the record is `Deposited`; it only moves
/// the state to `Shipped`; and both `Deposited` and `Shipped` records
/// can still be settled either way by a quorum.
pub proof fn lemma_shipment_independence(e: Escrow, m: MarkShipped, rel: Release, refd: Refund)
    ensures
        e.mark_shipped_spec(m).1 is Ok <==> (m.seller == e.seller && e.state is Deposited),
        e.mark_shipped_spec(m).1 is Ok ==> e.mark_shipped_spec(m).0 == (Escrow {
            state: EscrowState::Shipped,
            ..e
        }),
        e.mark_shipped_spec(m).1 is Err ==> e.mark_shipped_spec(m).0 == e,
        (e.mark_shipped_spec(m).1 is Ok && e.parties_match(rel.buyer, rel.seller, rel.arbiter)
            && signer_count(rel.buyer_authorized, rel.seller_authorized, rel.arbiter_authorized)
            >= 2) ==> e.mark_shipped_spec(m).0.release_spec(rel).1 == (Ok::<
            TransferOut,
            EscrowError,
        >(TransferOut { to: e.seller, amount: e.amount_held })),
        (e.mark_shipped_spec(m).1 is Ok && e.parties_match(refd.buyer, refd.seller, refd.arbiter)
            && signer_count(
            refd.buyer_authorized,
            refd.seller_authorized,
            refd.arbiter_authorized,
        ) >= 2) ==> e.mark_shipped_spec(m).0.refund_spec(refd).1 == (Ok::<
            TransferOut,
            EscrowError,
        >(TransferOut { to: e.buyer, amount: e.amount_held })),
{
}

} // verus!
