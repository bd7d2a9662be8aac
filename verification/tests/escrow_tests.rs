use fsbd_escrow::address::{address_equal, address_for_nonce, derive_address};
use fsbd_escrow::escrow::{
    count_signers, Deposit, Escrow, EscrowError, EscrowState, MarkShipped, Refund, Release,
};
use fsbd_escrow::identity::AccountId;
use fsbd_escrow::store::{EscrowStore, StoreError};

fn id(n: u8) -> AccountId {
    AccountId { bytes: [n; 32] }
}

fn buyer() -> AccountId {
    id(1)
}

fn seller() -> AccountId {
    id(2)
}

fn arbiter() -> AccountId {
    id(3)
}

fn listing() -> [u8; 32] {
    [9u8; 32]
}

fn deposit_req() -> Deposit {
    Deposit { buyer: buyer(), seller: seller(), arbiter: arbiter() }
}

fn release_req(b: bool, s: bool, a: bool) -> Release {
    Release {
        buyer: buyer(),
        seller: seller(),
        arbiter: arbiter(),
        buyer_authorized: b,
        seller_authorized: s,
        arbiter_authorized: a,
    }
}

fn refund_req(b: bool, s: bool, a: bool) -> Refund {
    Refund {
        buyer: buyer(),
        seller: seller(),
        arbiter: arbiter(),
        buyer_authorized: b,
        seller_authorized: s,
        arbiter_authorized: a,
    }
}

fn fresh_record(amount: u64) -> Escrow {
    Escrow::new(&deposit_req(), &listing(), 7, amount).unwrap()
}

#[test]
fn deposit_funds_exactly() {
    let mut store = EscrowStore::new();
    let (addr, funding) = store.deposit(&deposit_req(), &listing(), 1000).unwrap();
    assert_eq!(funding.amount, 1000);
    assert_eq!(funding.from.bytes, buyer().bytes);
    let record = store.get(&addr).unwrap();
    assert_eq!(record.amount_held, 1000);
    assert_eq!(record.state, EscrowState::Deposited);
    assert_eq!(record.buyer.bytes, buyer().bytes);
    assert_eq!(record.seller.bytes, seller().bytes);
    assert_eq!(record.arbiter.bytes, arbiter().bytes);
    assert_eq!(record.listing_id, listing());
}

#[test]
fn deposit_zero_amount_fails_and_creates_no_record() {
    let mut store = EscrowStore::new();
    let r = store.deposit(&deposit_req(), &listing(), 0);
    assert_eq!(r.unwrap_err(), StoreError::Escrow(EscrowError::InvalidAmount));
    let (addr, _) = derive_address(&listing(), &buyer(), &seller(), &arbiter());
    assert!(store.get(&addr).is_none());
}

#[test]
fn no_double_creation_for_identical_tuple() {
    let mut store = EscrowStore::new();
    store.deposit(&deposit_req(), &listing(), 1000).unwrap();
    let second = store.deposit(&deposit_req(), &listing(), 500);
    assert_eq!(second.unwrap_err(), StoreError::AddressInUse);
}

#[test]
fn different_tuple_gets_its_own_record() {
    let mut store = EscrowStore::new();
    store.deposit(&deposit_req(), &listing(), 1000).unwrap();
    let other_listing = [10u8; 32];
    let (addr2, _) = store.deposit(&deposit_req(), &other_listing, 700).unwrap();
    assert_eq!(store.get(&addr2).unwrap().amount_held, 700);
}

#[test]
fn quorum_counting() {
    assert_eq!(count_signers(false, false, false), 0);
    assert_eq!(count_signers(true, false, false), 1);
    assert_eq!(count_signers(true, false, true), 2);
    assert_eq!(count_signers(true, true, true), 3);
}

#[test]
fn release_quorum_necessity_every_subset() {
    let subsets = [
        (false, false, false),
        (true, false, false),
        (false, true, false),
        (false, false, true),
        (true, true, false),
        (true, false, true),
        (false, true, true),
        (true, true, true),
    ];
    for &(b, s, a) in subsets.iter() {
        let mut record = fresh_record(1000);
        let r = record.release(&release_req(b, s, a));
        let count = count_signers(b, s, a);
        if count < 2 {
            assert_eq!(r.unwrap_err(), EscrowError::NeedTwoSigners);
            assert_eq!(record.state, EscrowState::Deposited);
            assert_eq!(record.amount_held, 1000);
        } else {
            let out = r.unwrap();
            assert_eq!(out.to.bytes, seller().bytes);
            assert_eq!(out.amount, 1000);
            assert_eq!(record.state, EscrowState::Completed);
            assert_eq!(record.amount_held, 0);
        }
    }
}

#[test]
fn refund_quorum_necessity_every_subset() {
    let subsets = [
        (false, false, false),
        (true, false, false),
        (false, true, false),
        (false, false, true),
        (true, true, false),
        (true, false, true),
        (false, true, true),
        (true, true, true),
    ];
    for &(b, s, a) in subsets.iter() {
        let mut record = fresh_record(1000);
        let r = record.refund(&refund_req(b, s, a));
        let count = count_signers(b, s, a);
        if count < 2 {
            assert_eq!(r.unwrap_err(), EscrowError::NeedTwoSigners);
            assert_eq!(record.state, EscrowState::Deposited);
            assert_eq!(record.amount_held, 1000);
        } else {
            let out = r.unwrap();
            assert_eq!(out.to.bytes, buyer().bytes);
            assert_eq!(out.amount, 1000);
            assert_eq!(record.state, EscrowState::Refunded);
            assert_eq!(record.amount_held, 0);
        }
    }
}

#[test]
fn mismatched_identities_are_rejected() {
    let mut record = fresh_record(1000);
    let mut req = release_req(true, true, false);
    req.buyer = id(42);
    assert_eq!(record.release(&req).unwrap_err(), EscrowError::InvalidSigner);
    assert_eq!(record.state, EscrowState::Deposited);
    assert_eq!(record.amount_held, 1000);

    let mut refd = refund_req(true, false, true);
    refd.arbiter = id(42);
    assert_eq!(record.refund(&refd).unwrap_err(), EscrowError::InvalidSigner);
    assert_eq!(record.state, EscrowState::Deposited);
}

#[test]
fn terminal_states_admit_no_reentry() {
    let mut record = fresh_record(1000);
    record.release(&release_req(true, true, false)).unwrap();
    assert_eq!(
        record.release(&release_req(true, true, true)).unwrap_err(),
        EscrowError::InvalidState
    );
    assert_eq!(
        record.refund(&refund_req(true, true, true)).unwrap_err(),
        EscrowError::InvalidState
    );
    assert_eq!(
        record.mark_shipped(&MarkShipped { seller: seller() }).unwrap_err(),
        EscrowError::InvalidState
    );
    assert_eq!(record.state, EscrowState::Completed);
    assert_eq!(record.amount_held, 0);

    let mut refunded = fresh_record(1000);
    refunded.refund(&refund_req(true, false, true)).unwrap();
    assert_eq!(
        refunded.release(&release_req(true, true, true)).unwrap_err(),
        EscrowError::InvalidState
    );
    assert_eq!(refunded.state, EscrowState::Refunded);
    assert_eq!(refunded.amount_held, 0);
}

#[test]
fn mark_shipped_only_from_deposited_by_the_seller() {
    let mut record = fresh_record(1000);
    assert_eq!(
        record.mark_shipped(&MarkShipped { seller: id(42) }).unwrap_err(),
        EscrowError::InvalidSigner
    );
    assert_eq!(record.state, EscrowState::Deposited);

    record.mark_shipped(&MarkShipped { seller: seller() }).unwrap();
    assert_eq!(record.state, EscrowState::Shipped);
    assert_eq!(record.amount_held, 1000);

    assert_eq!(
        record.mark_shipped(&MarkShipped { seller: seller() }).unwrap_err(),
        EscrowError::InvalidState
    );
    assert_eq!(record.state, EscrowState::Shipped);
}

#[test]
fn shipped_records_can_still_be_settled_either_way() {
    let mut released = fresh_record(1000);
    released.mark_shipped(&MarkShipped { seller: seller() }).unwrap();
    let out = released.release(&release_req(false, true, true)).unwrap();
    assert_eq!(out.to.bytes, seller().bytes);
    assert_eq!(out.amount, 1000);
    assert_eq!(released.state, EscrowState::Completed);

    let mut refunded = fresh_record(1000);
    refunded.mark_shipped(&MarkShipped { seller: seller() }).unwrap();
    let out = refunded.refund(&refund_req(true, false, true)).unwrap();
    assert_eq!(out.to.bytes, buyer().bytes);
    assert_eq!(out.amount, 1000);
    assert_eq!(refunded.state, EscrowState::Refunded);
}

#[test]
fn scenario_deposit_then_release_to_seller() {
    let mut store = EscrowStore::new();
    let (addr, funding) = store.deposit(&deposit_req(), &listing(), 1000).unwrap();
    assert_eq!(funding.amount, 1000);
    let record = store.get(&addr).unwrap();
    assert_eq!(record.state, EscrowState::Deposited);
    assert_eq!(record.amount_held, 1000);

    let (out, authority) = store.release(&addr, &release_req(true, true, false)).unwrap();
    assert_eq!(out.to.bytes, seller().bytes);
    assert_eq!(out.amount, 1000);
    assert!(address_equal(&authority.address, &addr));
    let record = store.get(&addr).unwrap();
    assert_eq!(record.state, EscrowState::Completed);
    assert_eq!(record.amount_held, 0);

    let second = store.release(&addr, &release_req(true, true, true));
    assert_eq!(second.unwrap_err(), StoreError::Escrow(EscrowError::InvalidState));
}

#[test]
fn scenario_shipped_then_refund_needs_quorum() {
    let mut store = EscrowStore::new();
    let (addr, _) = store.deposit(&deposit_req(), &listing(), 500).unwrap();
    store.mark_shipped(&addr, &MarkShipped { seller: seller() }).unwrap();
    assert_eq!(store.get(&addr).unwrap().state, EscrowState::Shipped);

    let lone_arbiter = store.refund(&addr, &refund_req(false, false, true));
    assert_eq!(lone_arbiter.unwrap_err(), StoreError::Escrow(EscrowError::NeedTwoSigners));
    let record = store.get(&addr).unwrap();
    assert_eq!(record.state, EscrowState::Shipped);
    assert_eq!(record.amount_held, 500);

    let (out, _) = store.refund(&addr, &refund_req(true, false, true)).unwrap();
    assert_eq!(out.to.bytes, buyer().bytes);
    assert_eq!(out.amount, 500);
    let record = store.get(&addr).unwrap();
    assert_eq!(record.state, EscrowState::Refunded);
    assert_eq!(record.amount_held, 0);
}

#[test]
fn operations_on_an_unknown_address_fail() {
    let mut store = EscrowStore::new();
    let (addr, _) = derive_address(&listing(), &buyer(), &seller(), &arbiter());
    assert!(store.get(&addr).is_none());
    assert_eq!(
        store.mark_shipped(&addr, &MarkShipped { seller: seller() }).unwrap_err(),
        StoreError::UnknownAddress
    );
    assert_eq!(
        store.release(&addr, &release_req(true, true, true)).unwrap_err(),
        StoreError::UnknownAddress
    );
    assert_eq!(
        store.refund(&addr, &refund_req(true, true, true)).unwrap_err(),
        StoreError::UnknownAddress
    );
}

#[test]
fn address_derivation_is_deterministic() {
    let (a1, n1) = derive_address(&listing(), &buyer(), &seller(), &arbiter());
    let (a2, n2) = derive_address(&listing(), &buyer(), &seller(), &arbiter());
    assert!(address_equal(&a1, &a2));
    assert_eq!(n1, n2);

    let re_derived = address_for_nonce(&listing(), &buyer(), &seller(), &arbiter(), n1);
    assert!(address_equal(&a1, &re_derived));
}

#[test]
fn address_derivation_separates_tuples() {
    let (a1, _) = derive_address(&listing(), &buyer(), &seller(), &arbiter());
    let (a2, _) = derive_address(&[10u8; 32], &buyer(), &seller(), &arbiter());
    assert!(!address_equal(&a1, &a2));
    let (a3, _) = derive_address(&listing(), &seller(), &buyer(), &arbiter());
    assert!(!address_equal(&a1, &a3));
}

#[test]
fn custody_authority_reproduces_the_record_address() {
    let mut store = EscrowStore::new();
    let (addr, _) = store.deposit(&deposit_req(), &listing(), 1000).unwrap();
    let record = store.get(&addr).unwrap();
    let capability = record.authorize_transfer();
    assert!(address_equal(&capability.address, &addr));
    assert_eq!(capability.nonce, record.derivation_nonce);
}

#[test]
fn identity_matching_is_exact() {
    assert!(buyer().matches(&id(1)));
    assert!(!buyer().matches(&seller()));
    let mut almost = [1u8; 32];
    almost[31] = 0;
    assert!(!buyer().matches(&AccountId { bytes: almost }));
}
