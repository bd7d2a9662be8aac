//! The escrow record and its lifecycle state machine.
//!
//! One record holds one unit of value in trust for a buyer, a seller
//! and an arbiter. It is created and funded by a deposit, optionally
//! marked shipped by the seller, and settled exactly once: released to
//! the seller or refunded to the buyer, each requiring authorization by
//! at least two of the three parties. The terminal states are
//! absorbing, so value leaves custody at most once.
//!
//! Every operation is specified by a total transition function over the
//! record; the executable methods are proved to implement it exactly,
//! and the global guarantees in [`crate::laws`] are proved from the
//! same transition functions.

use vstd::prelude::*;

use crate::address::{address_for_nonce, address_spec, EscrowAddress};
use crate::identity::AccountId;

verus! {

/// The lifecycle state of one escrow record.
///
/// `Deposited` and `Shipped` are the active states: the record holds
/// the deposited value. `Completed` and `Refunded` are terminal: the
/// value has left custody, exactly once, to the seller or the buyer.
#[derive(Clone, Copy, Debug, PartialEq, Eq, Structural)]
pub enum EscrowState {
    Deposited,
    Shipped,
    Completed,
    Refunded,
}

/// A rejected operation. Every failure aborts the whole operation and
/// leaves the record unchanged.
#[derive(Clone, Copy, Debug, PartialEq, Eq, Structural)]
pub enum EscrowError {
    /// A deposit named a zero amount.
    InvalidAmount,
    /// The operation is not legal in the record's current state.
    InvalidState,
    /// The named identities do not exactly match the three stored on
    /// the record.
    InvalidSigner,
    /// Fewer than two of the three parties authorized the operation.
    NeedTwoSigners,
}

/// The request that creates and funds a record: the three parties of
/// the new escrow. Only the buyer authorizes it; the host verifies the
/// buyer's authorization before the request reaches the engine.
#[derive(Clone, Copy, Debug)]
pub struct Deposit {
    pub buyer: AccountId,
    pub seller: AccountId,
    pub arbiter: AccountId,
}

/// A release request: the three named identities and, per party,
/// whether that party authorized this specific request.
#[derive(Clone, Copy, Debug)]
pub struct Release {
    pub buyer: AccountId,
    pub seller: AccountId,
    pub arbiter: AccountId,
    pub buyer_authorized: bool,
    pub seller_authorized: bool,
    pub arbiter_authorized: bool,
}

/// A refund request: the three named identities and, per party,
/// whether that party authorized this specific request.
#[derive(Clone, Copy, Debug)]
pub struct Refund {
    pub buyer: AccountId,
    pub seller: AccountId,
    pub arbiter: AccountId,
    pub buyer_authorized: bool,
    pub seller_authorized: bool,
    pub arbiter_authorized: bool,
}

/// A shipment attestation: the identity of the caller, who must be the
/// record's seller. The host verifies the caller's authorization; no
/// quorum is needed because no custody changes.
#[derive(Clone, Copy, Debug)]
pub struct MarkShipped {
    pub seller: AccountId,
}

/// An outbound movement of value owed on settlement: the full held
/// amount, to the seller on release or to the buyer on refund.
#[derive(Clone, Copy, Debug)]
pub struct TransferOut {
    pub to: AccountId,
    pub amount: u64,
}

/// An inbound movement of value owed on deposit: the declared amount,
/// from the buyer into the new record's custody.
#[derive(Clone, Copy, Debug)]
pub struct TransferIn {
    pub from: AccountId,
    pub amount: u64,
}

/// The credential that authorizes a transfer out of custody: the
/// record's own re-derived address and its stored derivation nonce,
/// not any party's private authorization.
#[derive(Clone, Copy, Debug)]
pub struct CustodyAuthority {
    pub address: EscrowAddress,
    pub nonce: u8,
}

/// One escrow record: the persistent state of one custodial holding.
#[derive(Clone, Copy, Debug)]
pub struct Escrow {
    /// The depositing party; receives the value back on refund.
    pub buyer: AccountId,
    /// The receiving party; receives the value on release.
    pub seller: AccountId,
    /// The tie-breaking party.
    pub arbiter: AccountId,
    /// Opaque 32-byte identifier supplied at creation; part of the
    /// address derivation input, never interpreted.
    pub listing_id: [u8; 32],
    /// The value held in custody, in the smallest currency unit.
    pub amount_held: u64,
    /// The nonce byte fixed by the address derivation at creation.
    pub derivation_nonce: u8,
    /// The lifecycle state.
    pub state: EscrowState,
}

/// How many of the three parties authorized a request.
pub open spec fn signer_count(buyer: bool, seller: bool, arbiter: bool) -> int {
    (if buyer {
        1int
    } else {
        0int
    }) + (if seller {
        1int
    } else {
        0int
    }) + (if arbiter {
        1int
    } else {
        0int
    })
}

/// Count the parties that authorized a request.
pub fn count_signers(buyer: bool, seller: bool, arbiter: bool) -> (n: u8)
    ensures
        n == signer_count(buyer, seller, arbiter),
{
    let mut n: u8 = 0;
    if buyer {
        n += 1;
    }
    if seller {
        n += 1;
    }
    if arbiter {
        n += 1;
    }
    n
}

impl Escrow {
    /// The record still holds value and can be settled.
    pub open spec fn is_active(self) -> bool {
        self.state is Deposited || self.state is Shipped
    }

    /// The record has been settled; no further transition is legal.
    pub open spec fn is_terminal(self) -> bool {
        self.state is Completed || self.state is Refunded
    }

    /// Well-formedness: the record holds value exactly while it is
    /// active; settled records hold nothing.
    pub open spec fn wf(self) -> bool {
        &&& self.is_active() ==> self.amount_held > 0
        &&& self.is_terminal() ==> self.amount_held == 0
    }

    /// The three named identities exactly equal the three stored on
    /// the record.
    pub open spec fn parties_match(
        self,
        buyer: AccountId,
        seller: AccountId,
        arbiter: AccountId,
    ) -> bool {
        self.buyer == buyer && self.seller == seller && self.arbiter == arbiter
    }

    /// The storage address this record was created under.
    pub open spec fn derived_address(self) -> Seq<u8> {
        address_spec(
            self.listing_id@,
            self.buyer,
            self.seller,
            self.arbiter,
            self.derivation_nonce,
        )
    }

    /// Transition function of record creation: a deposit of `amount`
    /// creates a funded `Deposited` record, or is rejected as
    /// `InvalidAmount` when the amount is zero.
    pub open spec fn new_spec(
        req: Deposit,
        listing_id: [u8; 32],
        nonce: u8,
        amount: u64,
    ) -> Result<Escrow, EscrowError> {
        if amount == 0 {
            Err(EscrowError::InvalidAmount)
        } else {
            Ok(
                Escrow {
                    buyer: req.buyer,
                    seller: req.seller,
                    arbiter: req.arbiter,
                    listing_id: listing_id,
                    amount_held: amount,
                    derivation_nonce: nonce,
                    state: EscrowState::Deposited,
                },
            )
        }
    }

    /// Transition function of `mark_shipped`: the caller must be the
    /// seller, and the record must be `Deposited`; the record moves to
    /// `Shipped` and nothing else changes.
    pub open spec fn mark_shipped_spec(self, req: MarkShipped) -> (Escrow, Result<
        (),
        EscrowError,
    >) {
        if self.seller != req.seller {
            (self, Err(EscrowError::InvalidSigner))
        } else if !(self.state is Deposited) {
            (self, Err(EscrowError::InvalidState))
        } else {
            (Escrow { state: EscrowState::Shipped, ..self }, Ok(()))
        }
    }

    /// Transition function of `release`: from an active record, with
    /// matching identities and a quorum of at least two authorizing
    /// parties, the full held amount is owed to the seller and the
    /// record becomes `Completed` and empty.
    pub open spec fn release_spec(self, req: Release) -> (Escrow, Result<
        TransferOut,
        EscrowError,
    >) {
        if !self.is_active() {
            (self, Err(EscrowError::InvalidState))
        } else if !self.parties_match(req.buyer, req.seller, req.arbiter) {
            (self, Err(EscrowError::InvalidSigner))
        } else if signer_count(req.buyer_authorized, req.seller_authorized, req.arbiter_authorized)
            < 2 {
            (self, Err(EscrowError::NeedTwoSigners))
        } else {
            (
                Escrow { amount_held: 0, state: EscrowState::Completed, ..self },
                Ok(TransferOut { to: self.seller, amount: self.amount_held }),
            )
        }
    }

    /// Transition function of `refund`: identical preconditions to
    /// `release`, but the full held amount is owed to the buyer and
    /// the record becomes `Refunded` and empty.
    pub open spec fn refund_spec(self, req: Refund) -> (Escrow, Result<
        TransferOut,
        EscrowError,
    >) {
        if !self.is_active() {
            (self, Err(EscrowError::InvalidState))
        } else if !self.parties_match(req.buyer, req.seller, req.arbiter) {
            (self, Err(EscrowError::InvalidSigner))
        } else if signer_count(req.buyer_authorized, req.seller_authorized, req.arbiter_authorized)
            < 2 {
            (self, Err(EscrowError::NeedTwoSigners))
        } else {
            (
                Escrow { amount_held: 0, state: EscrowState::Refunded, ..self },
                Ok(TransferOut { to: self.buyer, amount: self.amount_held }),
            )
        }
    }

    /// Create a funded record, rejecting a zero amount.
    pub fn new(req: &Deposit, listing_id: &[u8; 32], nonce: u8, amount: u64) -> (r: Result<
        Escrow,
        EscrowError,
    >)
        ensures
            r == Self::new_spec(*req, *listing_id, nonce, amount),
            r matches Ok(e) ==> e.wf() && e.state is Deposited && e.amount_held == amount,
    {
        if amount == 0 {
            return Err(EscrowError::InvalidAmount);
        }
        Ok(
            Escrow {
                buyer: req.buyer,
                seller: req.seller,
                arbiter: req.arbiter,
                listing_id: *listing_id,
                amount_held: amount,
                derivation_nonce: nonce,
                state: EscrowState::Deposited,
            },
        )
    }

    /// Mark the record shipped. Seller only; legal only while
    /// `Deposited`; no custody change.
    pub fn mark_shipped(&mut self, req: &MarkShipped) -> (r: Result<(), EscrowError>)
        ensures
            (*final(self), r) == old(self).mark_shipped_spec(*req),
            old(self).wf() ==> final(self).wf(),
    {
        if !self.seller.matches(&req.seller) {
            return Err(EscrowError::InvalidSigner);
        }
        if !matches!(self.state, EscrowState::Deposited) {
            return Err(EscrowError::InvalidState);
        }
        self.state = EscrowState::Shipped;
        Ok(())
    }

    /// Check state, identity match and quorum for a settlement, in
    /// that order.
    fn check_settlement(
        &self,
        buyer: &AccountId,
        seller: &AccountId,
        arbiter: &AccountId,
        buyer_authorized: bool,
        seller_authorized: bool,
        arbiter_authorized: bool,
    ) -> (r: Result<(), EscrowError>)
        ensures
            r == (if !self.is_active() {
                Err::<(), EscrowError>(EscrowError::InvalidState)
            } else if !self.parties_match(*buyer, *seller, *arbiter) {
                Err::<(), EscrowError>(EscrowError::InvalidSigner)
            } else if signer_count(buyer_authorized, seller_authorized, arbiter_authorized) < 2 {
                Err::<(), EscrowError>(EscrowError::NeedTwoSigners)
            } else {
                Ok::<(), EscrowError>(())
            }),
    {
        let active = matches!(self.state, EscrowState::Deposited | EscrowState::Shipped);
        if !active {
            return Err(EscrowError::InvalidState);
        }
        if !(self.buyer.matches(buyer) && self.seller.matches(seller) && self.arbiter.matches(
            arbiter,
        )) {
            return Err(EscrowError::InvalidSigner);
        }
        if count_signers(buyer_authorized, seller_authorized, arbiter_authorized) < 2 {
            return Err(EscrowError::NeedTwoSigners);
        }
        Ok(())
    }

    /// Release the full held amount to the seller. Requires an active
    /// state, matching identities and a 2-of-3 quorum; the returned
    /// transfer is owed atomically with the transition to `Completed`.
    pub fn release(&mut self, req: &Release) -> (r: Result<TransferOut, EscrowError>)
        ensures
            r matches Ok(t) ==> (*final(self), Ok::<TransferOut, EscrowError>(t)) == old(
                self,
            ).release_spec(*req),
            r matches Err(e) ==> (*final(self), Err::<TransferOut, EscrowError>(e)) == old(
                self,
            ).release_spec(*req),
            old(self).wf() ==> final(self).wf(),
    {
        match self.check_settlement(
            &req.buyer,
            &req.seller,
            &req.arbiter,
            req.buyer_authorized,
            req.seller_authorized,
            req.arbiter_authorized,
        ) {
            Err(e) => Err(e),
            Ok(()) => {
                let out = TransferOut { to: self.seller, amount: self.amount_held };
                self.amount_held = 0;
                self.state = EscrowState::Completed;
                Ok(out)
            },
        }
    }

    /// Refund the full held amount to the buyer. Requires an active
    /// state, matching identities and a 2-of-3 quorum; the returned
    /// transfer is owed atomically with the transition to `Refunded`.
    pub fn refund(&mut self, req: &Refund) -> (r: Result<TransferOut, EscrowError>)
        ensures
            r matches Ok(t) ==> (*final(self), Ok::<TransferOut, EscrowError>(t)) == old(
                self,
            ).refund_spec(*req),
            r matches Err(e) ==> (*final(self), Err::<TransferOut, EscrowError>(e)) == old(
                self,
            ).refund_spec(*req),
            old(self).wf() ==> final(self).wf(),
    {
        match self.check_settlement(
            &req.buyer,
            &req.seller,
            &req.arbiter,
            req.buyer_authorized,
            req.seller_authorized,
            req.arbiter_authorized,
        ) {
            Err(e) => Err(e),
            Ok(()) => {
                let out = TransferOut { to: self.buyer, amount: self.amount_held };
                self.amount_held = 0;
                self.state = EscrowState::Refunded;
                Ok(out)
            },
        }
    }

    /// The capability that authorizes a transfer out of this record's
    /// custody: its own re-derived address, keyed by the stored nonce.
    /// No party's private authorization takes part.
    pub fn authorize_transfer(&self) -> (c: CustodyAuthority)
        ensures
            c.address@ == self.derived_address(),
            c.nonce == self.derivation_nonce,
    {
        let address = address_for_nonce(
            &self.listing_id,
            &self.buyer,
            &self.seller,
            &self.arbiter,
            self.derivation_nonce,
        );
        CustodyAuthority { address, nonce: self.derivation_nonce }
    }
}

} // verus!
