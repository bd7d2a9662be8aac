//! The escrow record store.
//!
//! Records are kept under their derived storage addresses, at most one
//! record per address. Each operation resolves the address, guards the
//! lifecycle state and the quorum through the record's own transition
//! functions, and commits the new state together with the fund
//! movement it entails — or fails with no effect at all.
//!
//! The store's contracts are stated over an abstract table, a sequence
//! of (address bytes, record) pairs, through total transition
//! functions; the global guarantees in [`crate::laws`] are proved from
//! those same functions.

use vstd::pervasive::VecAdditionalExecFns;
use vstd::prelude::*;

use crate::address::{address_spec, derive_address, nonce_spec, EscrowAddress};
use crate::escrow::{
    CustodyAuthority, Deposit, Escrow, EscrowError, MarkShipped, Refund, Release, TransferIn,
    TransferOut,
};

verus! {

/// A rejected store operation.
#[derive(Clone, Copy, Debug, PartialEq, Eq, Structural)]
pub enum StoreError {
    /// A deposit derived an address that already holds a record.
    AddressInUse,
    /// No record lives at the given address.
    UnknownAddress,
    /// The record refused the operation.
    Escrow(EscrowError),
}

/// The abstract contents of a store: (address bytes, record) pairs.
pub type EscrowTable = Seq<(Seq<u8>, Escrow)>;

/// Some record in the table lives at address `a`.
pub open spec fn table_contains(t: EscrowTable, a: Seq<u8>) -> bool {
    exists|i: int| 0 <= i < t.len() && (#[trigger] t[i]).0 == a
}

/// The position of the record at address `a`.
pub open spec fn table_index(t: EscrowTable, a: Seq<u8>) -> int {
    choose|i: int| 0 <= i < t.len() && (#[trigger] t[i]).0 == a
}

/// The record at address `a`.
pub open spec fn table_at(t: EscrowTable, a: Seq<u8>) -> Escrow {
    t[table_index(t, a)].1
}

/// Well-formedness of a table: addresses are pairwise distinct, every
/// record is well formed, and every record lives exactly at the
/// address derived from its own identifying tuple and stored nonce.
pub open spec fn table_wf(t: EscrowTable) -> bool {
    &&& forall|i: int, j: int| 0 <= i < j < t.len() ==> (#[trigger] t[i]).0 != (#[trigger] t[j]).0
    &&& forall|i: int|
        0 <= i < t.len() ==> {
            let e = (#[trigger] t[i]).1;
            &&& e.wf()
            &&& t[i].0 == e.derived_address()
            &&& e.derivation_nonce == nonce_spec(e.listing_id@, e.buyer, e.seller, e.arbiter)
        }
}

/// In a well-formed table the position of an address is unique, so any
/// index holding the address is the index of the record at it.
pub proof fn lemma_table_index_unique(t: EscrowTable, a: Seq<u8>, i: int)
    requires
        forall|p: int, q: int| 0 <= p < q < t.len() ==> (#[trigger] t[p]).0 != (#[trigger] t[q]).0,
        0 <= i < t.len(),
        t[i].0 == a,
    ensures
        table_contains(t, a),
        table_index(t, a) == i,
        table_at(t, a) == t[i].1,
{
    assert(table_contains(t, a));
    let j = table_index(t, a);
    if j < i {
        assert(t[j].0 != t[i].0);
    } else if i < j {
        assert(t[i].0 != t[j].0);
    }
}

/// Transition function of `deposit` on the table: derive the address;
/// fail if it is occupied; otherwise create the record through
/// [`Escrow::new_spec`] and owe the funding movement from the buyer.
pub open spec fn table_deposit(
    t: EscrowTable,
    req: Deposit,
    listing_id: [u8; 32],
    amount: u64,
) -> (EscrowTable, Result<TransferIn, StoreError>) {
    let nonce = nonce_spec(listing_id@, req.buyer, req.seller, req.arbiter);
    let a = address_spec(listing_id@, req.buyer, req.seller, req.arbiter, nonce);
    if table_contains(t, a) {
        (t, Err(StoreError::AddressInUse))
    } else {
        match Escrow::new_spec(req, listing_id, nonce, amount) {
            Ok(e) => (t.push((a, e)), Ok(TransferIn { from: req.buyer, amount })),
            Err(err) => (t, Err(StoreError::Escrow(err))),
        }
    }
}

/// Transition function of `mark_shipped` on the table.
pub open spec fn table_mark_shipped(t: EscrowTable, a: Seq<u8>, req: MarkShipped) -> (
    EscrowTable,
    Result<(), StoreError>,
) {
    if !table_contains(t, a) {
        (t, Err(StoreError::UnknownAddress))
    } else {
        let i = table_index(t, a);
        let (e2, r) = t[i].1.mark_shipped_spec(req);
        match r {
            Ok(u) => (t.update(i, (a, e2)), Ok(u)),
            Err(err) => (t, Err(StoreError::Escrow(err))),
        }
    }
}

/// Transition function of `release` on the table.
pub open spec fn table_release(t: EscrowTable, a: Seq<u8>, req: Release) -> (
    EscrowTable,
    Result<TransferOut, StoreError>,
) {
    if !table_contains(t, a) {
        (t, Err(StoreError::UnknownAddress))
    } else {
        let i = table_index(t, a);
        let (e2, r) = t[i].1.release_spec(req);
        match r {
            Ok(out) => (t.update(i, (a, e2)), Ok(out)),
            Err(err) => (t, Err(StoreError::Escrow(err))),
        }
    }
}

/// Transition function of `refund` on the table.
pub open spec fn table_refund(t: EscrowTable, a: Seq<u8>, req: Refund) -> (
    EscrowTable,
    Result<TransferOut, StoreError>,
) {
    if !table_contains(t, a) {
        (t, Err(StoreError::UnknownAddress))
    } else {
        let i = table_index(t, a);
        let (e2, r) = t[i].1.refund_spec(req);
        match r {
            Ok(out) => (t.update(i, (a, e2)), Ok(out)),
            Err(err) => (t, Err(StoreError::Escrow(err))),
        }
    }
}

/// The escrow record store: one record per derived address.
pub struct EscrowStore {
    records: Vec<(EscrowAddress, Escrow)>,
}

impl View for EscrowStore {
    type V = EscrowTable;

    closed spec fn view(&self) -> EscrowTable {
        self.records@.map_values(|p: (EscrowAddress, Escrow)| (p.0@, p.1))
    }
}

impl EscrowStore {
    /// Well-formedness of the store: its table is well formed.
    pub open spec fn wf(self) -> bool {
        table_wf(self@)
    }

    /// An empty store.
    pub fn new() -> (r: EscrowStore)
        ensures
            r.wf(),
            r@ == Seq::<(Seq<u8>, Escrow)>::empty(),
    {
        let r = EscrowStore { records: Vec::new() };
        proof {
            assert(r@ =~= Seq::<(Seq<u8>, Escrow)>::empty());
        }
        r
    }

    /// Find the position of the record at an address, if any.
    fn find_index(&self, address: &EscrowAddress) -> (r: Option<usize>)
        ensures
            match r {
                Some(i) => 0 <= i < self@.len() && self@[i as int].0 == address@,
                None => !table_contains(self@, address@),
            },
    {
        let mut i: usize = 0;
        while i < self.records.len()
            invariant
                0 <= i <= self.records.len(),
                self@.len() == self.records@.len(),
                forall|k: int| 0 <= k < i ==> (#[trigger] self@[k]).0 != address@,
                forall|k: int|
                    0 <= k < self@.len() ==> (#[trigger] self@[k]) == (
                    self.records@[k].0@,
                    self.records@[k].1,
                ),
            decreases self.records.len() - i,
        {
            if crate::address::address_equal(&self.records[i].0, address) {
                return Some(i);
            }
            i += 1;
        }
        None
    }

    /// Look up the record at an address.
    pub fn get(&self, address: &EscrowAddress) -> (r: Option<Escrow>)
        requires
            self.wf(),
        ensures
            match r {
                Some(e) => table_contains(self@, address@) && e == table_at(self@, address@),
                None => !table_contains(self@, address@),
            },
    {
        match self.find_index(address) {
            None => None,
            Some(i) => {
                proof {
                    lemma_table_index_unique(self@, address@, i as int);
                }
                let (_, e) = self.records[i];
                Some(e)
            },
        }
    }

    /// Create and fund an escrow record for the given tuple: derive
    /// the address, fail `AddressInUse` if it already holds a record,
    /// fail on a zero amount, and otherwise commit the new `Deposited`
    /// record together with the owed funding movement from the buyer.
    pub fn deposit(&mut self, req: &Deposit, listing_id: &[u8; 32], amount: u64) -> (r: Result<
        (EscrowAddress, TransferIn),
        StoreError,
    >)
        requires
            old(self).wf(),
        ensures
            final(self).wf(),
            final(self)@ == table_deposit(old(self)@, *req, *listing_id, amount).0,
            r matches Ok((addr, tin)) ==> {
                &&& table_deposit(old(self)@, *req, *listing_id, amount).1 == Ok::<
                    TransferIn,
                    StoreError,
                >(tin)
                &&& addr@ == address_spec(
                    listing_id@,
                    req.buyer,
                    req.seller,
                    req.arbiter,
                    nonce_spec(listing_id@, req.buyer, req.seller, req.arbiter),
                )
                &&& table_contains(final(self)@, addr@)
                &&& table_at(final(self)@, addr@) == (Escrow {
                    buyer: req.buyer,
                    seller: req.seller,
                    arbiter: req.arbiter,
                    listing_id: *listing_id,
                    amount_held: amount,
                    derivation_nonce: nonce_spec(listing_id@, req.buyer, req.seller, req.arbiter),
                    state: crate::escrow::EscrowState::Deposited,
                })
            },
            r matches Err(e) ==> table_deposit(old(self)@, *req, *listing_id, amount).1 == Err::<
                TransferIn,
                StoreError,
            >(e),
    {
        let (addr, nonce) = derive_address(listing_id, &req.buyer, &req.seller, &req.arbiter);
        match self.find_index(&addr) {
            Some(i) => {
                proof {
                    lemma_table_index_unique(self@, addr@, i as int);
                }
                Err(StoreError::AddressInUse)
            },
            None => {
                match Escrow::new(req, listing_id, nonce, amount) {
                    Err(e) => Err(StoreError::Escrow(e)),
                    Ok(record) => {
                        self.records.push((addr, record));
                        proof {
                            assert(self@ =~= old(self)@.push((addr@, record)));
                            assert(self@[old(self)@.len() as int].1.derived_address() == addr@);
                            lemma_table_index_unique(self@, addr@, old(self)@.len() as int);
                        }
                        Ok((addr, TransferIn { from: req.buyer, amount }))
                    },
                }
            },
        }
    }

    /// Mark the record at an address shipped. Seller only; legal only
    /// while `Deposited`.
    pub fn mark_shipped(&mut self, address: &EscrowAddress, req: &MarkShipped) -> (r: Result<
        (),
        StoreError,
    >)
        requires
            old(self).wf(),
        ensures
            final(self).wf(),
            final(self)@ == table_mark_shipped(old(self)@, address@, *req).0,
            r matches Ok(u) ==> {
                &&& table_mark_shipped(old(self)@, address@, *req).1 == Ok::<(), StoreError>(u)
                &&& table_contains(final(self)@, address@)
                &&& table_at(final(self)@, address@) == (Escrow {
                    state: crate::escrow::EscrowState::Shipped,
                    ..table_at(old(self)@, address@)
                })
            },
            r matches Err(e) ==> table_mark_shipped(old(self)@, address@, *req).1 == Err::<
                (),
                StoreError,
            >(e),
    {
        match self.find_index(address) {
            None => Err(StoreError::UnknownAddress),
            Some(i) => {
                proof {
                    lemma_table_index_unique(self@, address@, i as int);
                }
                let (a0, e0) = self.records[i];
                let mut record = e0;
                match record.mark_shipped(req) {
                    Err(e) => Err(StoreError::Escrow(e)),
                    Ok(()) => {
                        self.records.set(i, (a0, record));
                        proof {
                            assert(self@ =~= old(self)@.update(i as int, (address@, record)));
                            lemma_table_index_unique(self@, address@, i as int);
                        }
                        Ok(())
                    },
                }
            },
        }
    }

    /// Settle the record at an address in the seller's favor: with an
    /// active state, matching identities and a 2-of-3 quorum, the full
    /// held amount is owed to the seller, authorized by the record's
    /// own custody authority, atomically with the transition to
    /// `Completed`.
    pub fn release(&mut self, address: &EscrowAddress, req: &Release) -> (r: Result<
        (TransferOut, CustodyAuthority),
        StoreError,
    >)
        requires
            old(self).wf(),
        ensures
            final(self).wf(),
            final(self)@ == table_release(old(self)@, address@, *req).0,
            r matches Ok((out, c)) ==> {
                &&& table_release(old(self)@, address@, *req).1 == Ok::<TransferOut, StoreError>(
                    out,
                )
                &&& out == (TransferOut {
                    to: table_at(old(self)@, address@).seller,
                    amount: table_at(old(self)@, address@).amount_held,
                })
                &&& c.address@ == address@
                &&& c.nonce == table_at(old(self)@, address@).derivation_nonce
                &&& table_contains(final(self)@, address@)
                &&& table_at(final(self)@, address@) == (Escrow {
                    amount_held: 0,
                    state: crate::escrow::EscrowState::Completed,
                    ..table_at(old(self)@, address@)
                })
            },
            r matches Err(e) ==> table_release(old(self)@, address@, *req).1 == Err::<
                TransferOut,
                StoreError,
            >(e),
    {
        match self.find_index(address) {
            None => Err(StoreError::UnknownAddress),
            Some(i) => {
                proof {
                    lemma_table_index_unique(self@, address@, i as int);
                }
                let (a0, e0) = self.records[i];
                let mut record = e0;
                match record.release(req) {
                    Err(e) => Err(StoreError::Escrow(e)),
                    Ok(out) => {
                        let authority = e0.authorize_transfer();
                        self.records.set(i, (a0, record));
                        proof {
                            assert(self@ =~= old(self)@.update(i as int, (address@, record)));
                            lemma_table_index_unique(self@, address@, i as int);
                        }
                        Ok((out, authority))
                    },
                }
            },
        }
    }

    /// Settle the record at an address in the buyer's favor: identical
    /// preconditions to `release`, but the full held amount is owed to
    /// the buyer, atomically with the transition to `Refunded`.
    pub fn refund(&mut self, address: &EscrowAddress, req: &Refund) -> (r: Result<
        (TransferOut, CustodyAuthority),
        StoreError,
    >)
        requires
            old(self).wf(),
        ensures
            final(self).wf(),
            final(self)@ == table_refund(old(self)@, address@, *req).0,
            r matches Ok((out, c)) ==> {
                &&& table_refund(old(self)@, address@, *req).1 == Ok::<TransferOut, StoreError>(out)
                &&& out == (TransferOut {
                    to: table_at(old(self)@, address@).buyer,
                    amount: table_at(old(self)@, address@).amount_held,
                })
                &&& c.address@ == address@
                &&& c.nonce == table_at(old(self)@, address@).derivation_nonce
                &&& table_contains(final(self)@, address@)
                &&& table_at(final(self)@, address@) == (Escrow {
                    amount_held: 0,
                    state: crate::escrow::EscrowState::Refunded,
                    ..table_at(old(self)@, address@)
                })
            },
            r matches Err(e) ==> table_refund(old(self)@, address@, *req).1 == Err::<
                TransferOut,
                StoreError,
            >(e),
    {
        match self.find_index(address) {
            None => Err(StoreError::UnknownAddress),
            Some(i) => {
                proof {
                    lemma_table_index_unique(self@, address@, i as int);
                }
                let (a0, e0) = self.records[i];
                let mut record = e0;
                match record.refund(req) {
                    Err(e) => Err(StoreError::Escrow(e)),
                    Ok(out) => {
                        let authority = e0.authorize_transfer();
                        self.records.set(i, (a0, record));
                        proof {
                            assert(self@ =~= old(self)@.update(i as int, (address@, record)));
                            lemma_table_index_unique(self@, address@, i as int);
                        }
                        Ok((out, authority))
                    },
                }
            },
        }
    }
}

} // verus!
