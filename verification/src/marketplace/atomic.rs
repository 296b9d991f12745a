use vstd::prelude::*;
use crate::context::AccountId;
use crate::types::{Listing, ListingType};
use super::storage::{AtomicState, MarketError, MarketView, Marketplace};

verus! {

broadcast use vstd::std_specs::hash::group_hash_axioms;

/// A dynamically typed argument of an atomic step.
#[derive(Clone, Copy, Debug, PartialEq, Eq, Structural)]
pub enum Val {
    Void,
    Bool(bool),
    U32(u32),
    U64(u64),
    I128(i128),
    Address(AccountId),
}

/// `v` read as a `u64`; anything else reads as 0.
pub open spec fn val_u64(v: Val) -> u64 {
    match v {
        Val::U64(x) => x,
        _ => 0,
    }
}

/// `v` read as an `i128`; anything else reads as 0.
pub open spec fn val_i128(v: Val) -> i128 {
    match v {
        Val::I128(x) => x,
        _ => 0,
    }
}

/// Reads `v` as a `u64`, as `val_u64` says.
pub fn to_u64(v: Val) -> (x: u64)
    ensures
        x == val_u64(v),
{
    match v {
        Val::U64(x) => x,
        _ => 0,
    }
}

/// Reads `v` as an `i128`, as `val_i128` says.
pub fn to_i128(v: Val) -> (x: i128)
    ensures
        x == val_i128(v),
{
    match v {
        Val::I128(x) => x,
        _ => 0,
    }
}

/// Reads `v` as an address; anything else is an invalid argument.
pub fn to_address(v: Val) -> (r: Result<AccountId, MarketError>)
    ensures
        v matches Val::Address(a) ==> r == Ok::<AccountId, MarketError>(a),
        !(v is Address) ==> r == Err::<AccountId, MarketError>(MarketError::InvalidArgument),
{
    match v {
        Val::Address(a) => Ok(a),
        _ => Err(MarketError::InvalidArgument),
    }
}

/// The step functions the marketplace can prepare and commit.
#[derive(Clone, Copy, Debug, PartialEq, Eq, Structural)]
pub enum AtomicOp {
    ValidateListing,
    TransferToEscrow,
    CompleteSale,
    ValidateLeaseListing,
    CreateLeaseRecord,
    Unknown,
}

/// The rollback functions the marketplace knows.
#[derive(Clone, Copy, Debug, PartialEq, Eq, Structural)]
pub enum RollbackOp {
    UnlockListing,
    RefundFromEscrow,
    RevertSale,
    UnlockLeaseListing,
    DeleteLeaseRecord,
    Unknown,
}

/// The step function called `name`.
pub open spec fn op_named(name: Seq<char>) -> AtomicOp {
    if name == "validate_listing"@ {
        AtomicOp::ValidateListing
    } else if name == "transfer_to_escrow"@ {
        AtomicOp::TransferToEscrow
    } else if name == "complete_sale"@ {
        AtomicOp::CompleteSale
    } else if name == "validate_lease_listing"@ {
        AtomicOp::ValidateLeaseListing
    } else if name == "create_lease_record"@ {
        AtomicOp::CreateLeaseRecord
    } else {
        AtomicOp::Unknown
    }
}

/// The rollback function called `name`.
pub open spec fn rollback_named(name: Seq<char>) -> RollbackOp {
    if name == "unlock_listing"@ {
        RollbackOp::UnlockListing
    } else if name == "refund_from_escrow"@ {
        RollbackOp::RefundFromEscrow
    } else if name == "revert_sale"@ {
        RollbackOp::RevertSale
    } else if name == "unlock_lease_listing"@ {
        RollbackOp::UnlockLeaseListing
    } else if name == "delete_lease_record"@ {
        RollbackOp::DeleteLeaseRecord
    } else {
        RollbackOp::Unknown
    }
}

/// Whether `name` is the text `lit`.
fn is_named(name: &String, lit: &str) -> (b: bool)
    ensures
        b == (name@ == lit@),
{
    let s = lit.to_owned();
    *name == s
}

/// Looks up the step function called `name`.
pub fn parse_op(name: &String) -> (op: AtomicOp)
    ensures
        op == op_named(name@),
{
    if is_named(name, "validate_listing") {
        AtomicOp::ValidateListing
    } else if is_named(name, "transfer_to_escrow") {
        AtomicOp::TransferToEscrow
    } else if is_named(name, "complete_sale") {
        AtomicOp::CompleteSale
    } else if is_named(name, "validate_lease_listing") {
        AtomicOp::ValidateLeaseListing
    } else if is_named(name, "create_lease_record") {
        AtomicOp::CreateLeaseRecord
    } else {
        AtomicOp::Unknown
    }
}

/// Looks up the rollback function called `name`.
pub fn parse_rollback(name: &String) -> (op: RollbackOp)
    ensures
        op == rollback_named(name@),
{
    if is_named(name, "unlock_listing") {
        RollbackOp::UnlockListing
    } else if is_named(name, "refund_from_escrow") {
        RollbackOp::RefundFromEscrow
    } else if is_named(name, "revert_sale") {
        RollbackOp::RevertSale
    } else if is_named(name, "unlock_lease_listing") {
        RollbackOp::UnlockLeaseListing
    } else if is_named(name, "delete_lease_record") {
        RollbackOp::DeleteLeaseRecord
    } else {
        RollbackOp::Unknown
    }
}

/// Key of step `step` of transaction `tx` among the prepared steps.
pub open spec fn step_key(tx: u64, step: u32) -> (u128, u128) {
    (tx as u128, step as u128)
}

/// Key of the escrow of `buyer` in transaction `tx`.
pub open spec fn escrow_key(buyer: AccountId, tx: u64) -> (u128, u128) {
    (buyer.id as u128, tx as u128)
}

impl MarketView {
    /// This view with `listing_id` locked by `tx` and step `state` recorded.
    pub open spec fn with_lock_and_state(self, listing_id: u64, tx: u64, state: AtomicState) -> MarketView {
        MarketView {
            locked_listings: self.locked_listings.insert(listing_id, tx),
            atomic_states: self.atomic_states.insert(step_key(tx, state.step_id), state),
            ..self
        }
    }

    /// This view with step `state` of `tx` recorded.
    pub open spec fn with_state(self, tx: u64, state: AtomicState) -> MarketView {
        MarketView {
            atomic_states: self.atomic_states.insert(step_key(tx, state.step_id), state),
            ..self
        }
    }

    /// This view with the lock of `listing_id` and step `step` of `tx` removed.
    pub open spec fn without_lock_and_state(self, listing_id: u64, tx: u64, step: u32) -> MarketView {
        MarketView {
            locked_listings: self.locked_listings.remove(listing_id),
            atomic_states: self.atomic_states.remove(step_key(tx, step)),
            ..self
        }
    }

    /// Outcome of preparing a listing validation: the listing must be active,
    /// unlocked, of the given agent and price; it is then locked by `tx`.
    pub open spec fn prepared_validate_listing(self, tx: u64, step: u32, args: Seq<Val>) -> (
        bool,
        MarketView,
    ) {
        if args.len() < 3 {
            (false, self)
        } else {
            let listing_id = val_u64(args[0]);
            let agent_id = val_u64(args[1]);
            let price = val_i128(args[2]);
            if listing_id == 0 || agent_id == 0 || price <= 0 {
                (false, self)
            } else if self.locked_listings.contains_key(listing_id) {
                (false, self)
            } else if !self.listings.contains_key(listing_id) {
                (false, self)
            } else {
                let l = self.listings[listing_id];
                if !l.active || l.agent_id != agent_id || l.price != price {
                    (false, self)
                } else {
                    (
                        true,
                        self.with_lock_and_state(
                            listing_id,
                            tx,
                            AtomicState {
                                transaction_id: tx,
                                step_id: step,
                                locked_listing_id: Some(listing_id),
                                escrowed_amount: None,
                                original_listing_state: Some(l),
                            },
                        ),
                    )
                }
            }
        }
    }

    /// Outcome of preparing a lease-listing validation: the listing must be an
    /// active, unlocked lease listing of the given agent; it is then locked by `tx`.
    pub open spec fn prepared_validate_lease_listing(self, tx: u64, step: u32, args: Seq<Val>) -> (
        bool,
        MarketView,
    ) {
        if args.len() < 2 {
            (false, self)
        } else {
            let listing_id = val_u64(args[0]);
            let agent_id = val_u64(args[1]);
            if listing_id == 0 || agent_id == 0 {
                (false, self)
            } else if self.locked_listings.contains_key(listing_id) {
                (false, self)
            } else if !self.listings.contains_key(listing_id) {
                (false, self)
            } else {
                let l = self.listings[listing_id];
                if !l.active || l.agent_id != agent_id || l.listing_type != ListingType::Lease {
                    (false, self)
                } else {
                    (
                        true,
                        self.with_lock_and_state(
                            listing_id,
                            tx,
                            AtomicState {
                                transaction_id: tx,
                                step_id: step,
                                locked_listing_id: Some(listing_id),
                                escrowed_amount: None,
                                original_listing_state: Some(l),
                            },
                        ),
                    )
                }
            }
        }
    }

    /// Outcome of preparing an escrow transfer (`Err` when the parties are not addresses).
    pub open spec fn prepared_escrow(self, tx: u64, step: u32, args: Seq<Val>) -> Result<
        (bool, MarketView),
        MarketError,
    > {
        if args.len() < 3 {
            Ok((false, self))
        } else if !(args[0] is Address) || !(args[1] is Address) {
            Err(MarketError::InvalidArgument)
        } else if val_i128(args[2]) <= 0 {
            Ok((false, self))
        } else {
            Ok(
                (
                    true,
                    self.with_state(
                        tx,
                        AtomicState {
                            transaction_id: tx,
                            step_id: step,
                            locked_listing_id: None,
                            escrowed_amount: Some(val_i128(args[2])),
                            original_listing_state: None,
                        },
                    ),
                ),
            )
        }
    }

    /// Outcome of preparing a sale completion: the listing must be locked by `tx`.
    pub open spec fn prepared_complete_sale(self, tx: u64, step: u32, args: Seq<Val>) -> Result<
        (bool, MarketView),
        MarketError,
    > {
        if args.len() < 3 {
            Ok((false, self))
        } else if !(args[1] is Address) {
            Err(MarketError::InvalidArgument)
        } else {
            let listing_id = val_u64(args[0]);
            let price = val_i128(args[2]);
            if listing_id == 0 || price <= 0 {
                Ok((false, self))
            } else if !(self.locked_listings.contains_key(listing_id)
                && self.locked_listings[listing_id] == tx) {
                Ok((false, self))
            } else {
                Ok(
                    (
                        true,
                        self.with_state(
                            tx,
                            AtomicState {
                                transaction_id: tx,
                                step_id: step,
                                locked_listing_id: Some(listing_id),
                                escrowed_amount: Some(price),
                                original_listing_state: None,
                            },
                        ),
                    ),
                )
            }
        }
    }

    /// Outcome of preparing a lease record.
    pub open spec fn prepared_lease_record(self, tx: u64, step: u32, args: Seq<Val>) -> Result<
        (bool, MarketView),
        MarketError,
    > {
        if args.len() < 6 {
            Ok((false, self))
        } else if !(args[1] is Address) || !(args[2] is Address) {
            Err(MarketError::InvalidArgument)
        } else {
            let listing_id = val_u64(args[0]);
            let lease_price = val_i128(args[3]);
            let duration = val_u64(args[4]);
            let deposit = val_i128(args[5]);
            if listing_id == 0 || lease_price <= 0 || duration == 0 || deposit < 0 {
                Ok((false, self))
            } else if lease_price + deposit > i128::MAX {
                Err(MarketError::Overflow)
            } else {
                Ok(
                    (
                        true,
                        self.with_state(
                            tx,
                            AtomicState {
                                transaction_id: tx,
                                step_id: step,
                                locked_listing_id: Some(listing_id),
                                escrowed_amount: Some((lease_price + deposit) as i128),
                                original_listing_state: None,
                            },
                        ),
                    ),
                )
            }
        }
    }

    /// Outcome of preparing step `step` of `tx` running `op`.
    pub open spec fn prepared(self, tx: u64, step: u32, op: AtomicOp, args: Seq<Val>) -> Result<
        (bool, MarketView),
        MarketError,
    > {
        match op {
            AtomicOp::ValidateListing => Ok(self.prepared_validate_listing(tx, step, args)),
            AtomicOp::TransferToEscrow => self.prepared_escrow(tx, step, args),
            AtomicOp::CompleteSale => self.prepared_complete_sale(tx, step, args),
            AtomicOp::ValidateLeaseListing => Ok(self.prepared_validate_lease_listing(tx, step, args)),
            AtomicOp::CreateLeaseRecord => self.prepared_lease_record(tx, step, args),
            AtomicOp::Unknown => Ok((false, self)),
        }
    }

    /// Outcome of committing step `step` of `tx` running `op`.
    pub open spec fn committed(self, tx: u64, op: AtomicOp, args: Seq<Val>) -> Result<
        (bool, MarketView),
        MarketError,
    > {
        match op {
            AtomicOp::ValidateListing | AtomicOp::ValidateLeaseListing => Ok((true, self)),
            AtomicOp::TransferToEscrow => if args.len() < 3 || !(args[0] is Address) {
                Err(MarketError::InvalidArgument)
            } else {
                Ok(
                    (
                        true,
                        MarketView {
                            escrow_balances: self.escrow_balances.insert(
                                escrow_key(args[0]->Address_0, tx),
                                val_i128(args[2]),
                            ),
                            ..self
                        },
                    ),
                )
            },
            AtomicOp::CompleteSale => if args.len() < 3 || !(args[1] is Address) {
                Err(MarketError::InvalidArgument)
            } else if !self.listings.contains_key(val_u64(args[0])) {
                Err(MarketError::ListingNotFound)
            } else {
                let listing_id = val_u64(args[0]);
                Ok(
                    (
                        true,
                        MarketView {
                            listings: self.listings.insert(
                                listing_id,
                                Listing { active: false, ..self.listings[listing_id] },
                            ),
                            escrow_balances: self.escrow_balances.remove(
                                escrow_key(args[1]->Address_0, tx),
                            ),
                            locked_listings: self.locked_listings.remove(listing_id),
                            ..self
                        },
                    ),
                )
            },
            AtomicOp::CreateLeaseRecord => if args.len() < 6 || !(args[1] is Address) || !(
            args[2] is Address) {
                Err(MarketError::InvalidArgument)
            } else {
                Ok(
                    (
                        true,
                        MarketView {
                            locked_listings: self.locked_listings.remove(val_u64(args[0])),
                            ..self
                        },
                    ),
                )
            },
            AtomicOp::Unknown => Ok((false, self)),
        }
    }

    /// Outcome of rolling back step `step` of `tx` with `op`.
    pub open spec fn rolled_back(self, tx: u64, step: u32, op: RollbackOp, args: Seq<Val>) -> Result<
        (bool, MarketView),
        MarketError,
    > {
        match op {
            RollbackOp::UnlockListing | RollbackOp::UnlockLeaseListing
            | RollbackOp::DeleteLeaseRecord => if args.len() < 1 || val_u64(args[0]) == 0 {
                Ok((false, self))
            } else {
                Ok((true, self.without_lock_and_state(val_u64(args[0]), tx, step)))
            },
            RollbackOp::RefundFromEscrow => if args.len() < 2 {
                Ok((false, self))
            } else if !(args[0] is Address) {
                Err(MarketError::InvalidArgument)
            } else if val_i128(args[1]) <= 0 {
                Ok((false, self))
            } else {
                Ok(
                    (
                        true,
                        MarketView {
                            escrow_balances: self.escrow_balances.remove(
                                escrow_key(args[0]->Address_0, tx),
                            ),
                            atomic_states: self.atomic_states.remove(step_key(tx, step)),
                            ..self
                        },
                    ),
                )
            },
            RollbackOp::RevertSale => if args.len() < 1 || val_u64(args[0]) == 0 {
                Ok((false, self))
            } else {
                let listing_id = val_u64(args[0]);
                let restored = if self.atomic_states.contains_key(step_key(tx, step))
                    && self.atomic_states[step_key(tx, step)].original_listing_state is Some {
                    MarketView {
                        listings: self.listings.insert(
                            listing_id,
                            self.atomic_states[step_key(
                                tx,
                                step,
                            )].original_listing_state.unwrap(),
                        ),
                        ..self
                    }
                } else {
                    self
                };
                Ok((true, restored.without_lock_and_state(listing_id, tx, step)))
            },
            RollbackOp::Unknown => Ok((false, self)),
        }
    }
}

/// The marketplace's side of two-phase atomic transactions: each step is
/// prepared (checked, with the listing it concerns locked), then committed or
/// rolled back.
pub struct MarketplaceAtomicSupport;

impl MarketplaceAtomicSupport {
    /// Records step `state` of `tx`.
    fn record_state(m: &mut Marketplace, tx: u64, state: AtomicState)
        ensures
            final(m)@ == old(m)@.with_state(tx, state),
    {
        m.atomic_states.insert(tx as u128, state.step_id as u128, state);
    }

    /// Prepare phase: validates step `step` of `tx` running the function named
    /// `function` and locks what it needs, without committing anything.
    pub fn prepare_step(
        m: &mut Marketplace,
        transaction_id: u64,
        step_id: u32,
        function: &String,
        args: &Vec<Val>,
    ) -> (r: Result<bool, MarketError>)
        ensures
            match old(m)@.prepared(transaction_id, step_id, op_named(function@), args@) {
                Ok((b, v)) => r == Ok::<bool, MarketError>(b) && final(m)@ == v,
                Err(e) => r == Err::<bool, MarketError>(e) && final(m)@ == old(m)@,
            },
    {
        match parse_op(function) {
            AtomicOp::ValidateListing => Ok(
                Self::prepare_validate_listing(m, transaction_id, step_id, args),
            ),
            AtomicOp::TransferToEscrow => Self::prepare_transfer_to_escrow(
                m,
                transaction_id,
                step_id,
                args,
            ),
            AtomicOp::CompleteSale => Self::prepare_complete_sale(m, transaction_id, step_id, args),
            AtomicOp::ValidateLeaseListing => Ok(
                Self::prepare_validate_lease_listing(m, transaction_id, step_id, args),
            ),
            AtomicOp::CreateLeaseRecord => Self::prepare_create_lease_record(
                m,
                transaction_id,
                step_id,
                args,
            ),
            AtomicOp::Unknown => Ok(false),
        }
    }

    /// Commit phase: carries out prepared step `step` of `tx`.
    pub fn commit_step(
        m: &mut Marketplace,
        transaction_id: u64,
        step_id: u32,
        function: &String,
        args: &Vec<Val>,
    ) -> (r: Result<bool, MarketError>)
        ensures
            match old(m)@.committed(transaction_id, op_named(function@), args@) {
                Ok((b, v)) => r == Ok::<bool, MarketError>(b) && final(m)@ == v,
                Err(e) => r == Err::<bool, MarketError>(e) && final(m)@ == old(m)@,
            },
    {
        match parse_op(function) {
            AtomicOp::ValidateListing => Self::commit_validate_listing(m, transaction_id, step_id, args),
            AtomicOp::TransferToEscrow => Self::commit_transfer_to_escrow(
                m,
                transaction_id,
                step_id,
                args,
            ),
            AtomicOp::CompleteSale => Self::commit_complete_sale(m, transaction_id, step_id, args),
            AtomicOp::ValidateLeaseListing => Self::commit_validate_lease_listing(
                m,
                transaction_id,
                step_id,
                args,
            ),
            AtomicOp::CreateLeaseRecord => Self::commit_create_lease_record(
                m,
                transaction_id,
                step_id,
                args,
            ),
            AtomicOp::Unknown => Ok(false),
        }
    }

    /// Rollback phase: undoes step `step` of `tx` with the rollback function
    /// named `rollback_function`.
    pub fn rollback_step(
        m: &mut Marketplace,
        transaction_id: u64,
        step_id: u32,
        rollback_function: &String,
        rollback_args: &Vec<Val>,
    ) -> (r: Result<bool, MarketError>)
        ensures
            match old(m)@.rolled_back(
                transaction_id,
                step_id,
                rollback_named(rollback_function@),
                rollback_args@,
            ) {
                Ok((b, v)) => r == Ok::<bool, MarketError>(b) && final(m)@ == v,
                Err(e) => r == Err::<bool, MarketError>(e) && final(m)@ == old(m)@,
            },
    {
        match parse_rollback(rollback_function) {
            RollbackOp::UnlockListing => Ok(
                Self::rollback_unlock_listing(m, transaction_id, step_id, rollback_args),
            ),
            RollbackOp::RefundFromEscrow => Self::rollback_refund_from_escrow(
                m,
                transaction_id,
                step_id,
                rollback_args,
            ),
            RollbackOp::RevertSale => Ok(
                Self::rollback_revert_sale(m, transaction_id, step_id, rollback_args),
            ),
            RollbackOp::UnlockLeaseListing => Ok(
                Self::rollback_unlock_lease_listing(m, transaction_id, step_id, rollback_args),
            ),
            RollbackOp::DeleteLeaseRecord => Ok(
                Self::rollback_delete_lease_record(m, transaction_id, step_id, rollback_args),
            ),
            RollbackOp::Unknown => Ok(false),
        }
    }

    /// Whether step `step` of `tx` is prepared.
    pub fn is_step_prepared(m: &Marketplace, transaction_id: u64, step_id: u32) -> (b: bool)
        ensures
            b == m@.atomic_states.contains_key(step_key(transaction_id, step_id)),
    {
        m.atomic_states.get(transaction_id as u128, step_id as u128).is_some()
    }

    /// Result of step `step` of `tx` for the steps that depend on it: success
    /// once it is prepared.
    pub fn get_step_result(m: &Marketplace, transaction_id: u64, step_id: u32) -> (r: Option<bool>)
        ensures
            m@.atomic_states.contains_key(step_key(transaction_id, step_id)) ==> r == Some(true),
            !m@.atomic_states.contains_key(step_key(transaction_id, step_id)) ==> r is None,
    {
        match m.atomic_states.get(transaction_id as u128, step_id as u128) {
            Some(_) => Some(true),
            None => None,
        }
    }

    /// Prepares a listing validation, as `prepared_validate_listing` says.
    fn prepare_validate_listing(m: &mut Marketplace, transaction_id: u64, step_id: u32, args: &Vec<Val>) -> (b:
        bool)
        ensures
            (b, final(m)@) == old(m)@.prepared_validate_listing(transaction_id, step_id, args@),
    {
        if args.len() < 3 {
            return false;
        }
        let listing_id = to_u64(args[0]);
        let agent_id = to_u64(args[1]);
        let expected_price = to_i128(args[2]);
        if listing_id == 0 || agent_id == 0 || expected_price <= 0 {
            return false;
        }
        if m.locked_listings.contains_key(&listing_id) {
            return false;
        }
        let listing = match m.listings.get(&listing_id) {
            None => return false,
            Some(l) => *l,
        };
        if !listing.active || listing.agent_id != agent_id || listing.price != expected_price {
            return false;
        }
        m.locked_listings.insert(listing_id, transaction_id);
        Self::record_state(
            m,
            transaction_id,
            AtomicState {
                transaction_id,
                step_id,
                locked_listing_id: Some(listing_id),
                escrowed_amount: None,
                original_listing_state: Some(listing),
            },
        );
        true
    }

    /// Prepares an escrow transfer, as `prepared_escrow` says.
    fn prepare_transfer_to_escrow(
        m: &mut Marketplace,
        transaction_id: u64,
        step_id: u32,
        args: &Vec<Val>,
    ) -> (r: Result<bool, MarketError>)
        ensures
            match old(m)@.prepared_escrow(transaction_id, step_id, args@) {
                Ok((b, v)) => r == Ok::<bool, MarketError>(b) && final(m)@ == v,
                Err(e) => r == Err::<bool, MarketError>(e) && final(m)@ == old(m)@,
            },
    {
        if args.len() < 3 {
            return Ok(false);
        }
        let _buyer = match to_address(args[0]) {
            Ok(a) => a,
            Err(e) => return Err(e),
        };
        let _seller = match to_address(args[1]) {
            Ok(a) => a,
            Err(e) => return Err(e),
        };
        let amount = to_i128(args[2]);
        if amount <= 0 {
            return Ok(false);
        }
        Self::record_state(
            m,
            transaction_id,
            AtomicState {
                transaction_id,
                step_id,
                locked_listing_id: None,
                escrowed_amount: Some(amount),
                original_listing_state: None,
            },
        );
        Ok(true)
    }

    /// Prepares a sale completion, as `prepared_complete_sale` says.
    fn prepare_complete_sale(m: &mut Marketplace, transaction_id: u64, step_id: u32, args: &Vec<Val>) -> (r:
        Result<bool, MarketError>)
        ensures
            match old(m)@.prepared_complete_sale(transaction_id, step_id, args@) {
                Ok((b, v)) => r == Ok::<bool, MarketError>(b) && final(m)@ == v,
                Err(e) => r == Err::<bool, MarketError>(e) && final(m)@ == old(m)@,
            },
    {
        if args.len() < 3 {
            return Ok(false);
        }
        let listing_id = to_u64(args[0]);
        let _buyer = match to_address(args[1]) {
            Ok(a) => a,
            Err(e) => return Err(e),
        };
        let price = to_i128(args[2]);
        if listing_id == 0 || price <= 0 {
            return Ok(false);
        }
        match m.locked_listings.get(&listing_id) {
            Some(t) => {
                if *t != transaction_id {
                    return Ok(false);
                }
            },
            None => return Ok(false),
        }
        Self::record_state(
            m,
            transaction_id,
            AtomicState {
                transaction_id,
                step_id,
                locked_listing_id: Some(listing_id),
                escrowed_amount: Some(price),
                original_listing_state: None,
            },
        );
        Ok(true)
    }

    /// Prepares a lease-listing validation, as `prepared_validate_lease_listing` says.
    fn prepare_validate_lease_listing(
        m: &mut Marketplace,
        transaction_id: u64,
        step_id: u32,
        args: &Vec<Val>,
    ) -> (b: bool)
        ensures
            (b, final(m)@) == old(m)@.prepared_validate_lease_listing(
                transaction_id,
                step_id,
                args@,
            ),
    {
        if args.len() < 2 {
            return false;
        }
        let listing_id = to_u64(args[0]);
        let agent_id = to_u64(args[1]);
        if listing_id == 0 || agent_id == 0 {
            return false;
        }
        if m.locked_listings.contains_key(&listing_id) {
            return false;
        }
        let listing = match m.listings.get(&listing_id) {
            None => return false,
            Some(l) => *l,
        };
        if !listing.active || listing.agent_id != agent_id || listing.listing_type
            != ListingType::Lease {
            return false;
        }
        m.locked_listings.insert(listing_id, transaction_id);
        Self::record_state(
            m,
            transaction_id,
            AtomicState {
                transaction_id,
                step_id,
                locked_listing_id: Some(listing_id),
                escrowed_amount: None,
                original_listing_state: Some(listing),
            },
        );
        true
    }

    /// Prepares a lease record, as `prepared_lease_record` says.
    fn prepare_create_lease_record(
        m: &mut Marketplace,
        transaction_id: u64,
        step_id: u32,
        args: &Vec<Val>,
    ) -> (r: Result<bool, MarketError>)
        ensures
            match old(m)@.prepared_lease_record(transaction_id, step_id, args@) {
                Ok((b, v)) => r == Ok::<bool, MarketError>(b) && final(m)@ == v,
                Err(e) => r == Err::<bool, MarketError>(e) && final(m)@ == old(m)@,
            },
    {
        if args.len() < 6 {
            return Ok(false);
        }
        let listing_id = to_u64(args[0]);
        let _lessee = match to_address(args[1]) {
            Ok(a) => a,
            Err(e) => return Err(e),
        };
        let _lessor = match to_address(args[2]) {
            Ok(a) => a,
            Err(e) => return Err(e),
        };
        let lease_price = to_i128(args[3]);
        let duration_seconds = to_u64(args[4]);
        let deposit_amount = to_i128(args[5]);
        if listing_id == 0 || lease_price <= 0 || duration_seconds == 0 || deposit_amount < 0 {
            return Ok(false);
        }
        let escrowed = match lease_price.checked_add(deposit_amount) {
            Some(x) => x,
            None => return Err(MarketError::Overflow),
        };
        Self::record_state(
            m,
            transaction_id,
            AtomicState {
                transaction_id,
                step_id,
                locked_listing_id: Some(listing_id),
                escrowed_amount: Some(escrowed),
                original_listing_state: None,
            },
        );
        Ok(true)
    }

    /// Commits a listing validation: nothing is left to do.
    fn commit_validate_listing(m: &mut Marketplace, transaction_id: u64, step_id: u32, args: &Vec<Val>) -> (r:
        Result<bool, MarketError>)
        ensures
            r == Ok::<bool, MarketError>(true),
            final(m)@ == old(m)@,
    {
        Ok(true)
    }

    /// Commits an escrow transfer: the amount is recorded as held for the buyer.
    fn commit_transfer_to_escrow(
        m: &mut Marketplace,
        transaction_id: u64,
        step_id: u32,
        args: &Vec<Val>,
    ) -> (r: Result<bool, MarketError>)
        ensures
            match old(m)@.committed(transaction_id, AtomicOp::TransferToEscrow, args@) {
                Ok((b, v)) => r == Ok::<bool, MarketError>(b) && final(m)@ == v,
                Err(e) => r == Err::<bool, MarketError>(e) && final(m)@ == old(m)@,
            },
    {
        if args.len() < 3 {
            return Err(MarketError::InvalidArgument);
        }
        let buyer = match to_address(args[0]) {
            Ok(a) => a,
            Err(e) => return Err(e),
        };
        let amount = to_i128(args[2]);
        m.escrow_balances.insert(buyer.id as u128, transaction_id as u128, amount);
        Ok(true)
    }

    /// Commits a sale: the listing becomes inactive, the escrow is released and
    /// the listing unlocked.
    fn commit_complete_sale(m: &mut Marketplace, transaction_id: u64, step_id: u32, args: &Vec<Val>) -> (r:
        Result<bool, MarketError>)
        ensures
            match old(m)@.committed(transaction_id, AtomicOp::CompleteSale, args@) {
                Ok((b, v)) => r == Ok::<bool, MarketError>(b) && final(m)@ == v,
                Err(e) => r == Err::<bool, MarketError>(e) && final(m)@ == old(m)@,
            },
    {
        if args.len() < 3 {
            return Err(MarketError::InvalidArgument);
        }
        let listing_id = to_u64(args[0]);
        let buyer = match to_address(args[1]) {
            Ok(a) => a,
            Err(e) => return Err(e),
        };
        let _price = to_i128(args[2]);
        let listing = match m.listings.get(&listing_id) {
            None => return Err(MarketError::ListingNotFound),
            Some(l) => *l,
        };
        m.listings.insert(listing_id, Listing { active: false, ..listing });
        let ghost before = m@;
        let _ = m.escrow_balances.remove(buyer.id as u128, transaction_id as u128);
        let _ = m.locked_listings.remove(&listing_id);
        assert(m@.locked_listings =~= before.locked_listings.remove(listing_id));
        Ok(true)
    }

    /// Commits a lease-listing validation: nothing is left to do.
    fn commit_validate_lease_listing(
        m: &mut Marketplace,
        transaction_id: u64,
        step_id: u32,
        args: &Vec<Val>,
    ) -> (r: Result<bool, MarketError>)
        ensures
            r == Ok::<bool, MarketError>(true),
            final(m)@ == old(m)@,
    {
        Ok(true)
    }

    /// Commits a lease record: the listing is unlocked.
    fn commit_create_lease_record(
        m: &mut Marketplace,
        transaction_id: u64,
        step_id: u32,
        args: &Vec<Val>,
    ) -> (r: Result<bool, MarketError>)
        ensures
            match old(m)@.committed(transaction_id, AtomicOp::CreateLeaseRecord, args@) {
                Ok((b, v)) => r == Ok::<bool, MarketError>(b) && final(m)@ == v,
                Err(e) => r == Err::<bool, MarketError>(e) && final(m)@ == old(m)@,
            },
    {
        if args.len() < 6 {
            return Err(MarketError::InvalidArgument);
        }
        let listing_id = to_u64(args[0]);
        let _lessee = match to_address(args[1]) {
            Ok(a) => a,
            Err(e) => return Err(e),
        };
        let _lessor = match to_address(args[2]) {
            Ok(a) => a,
            Err(e) => return Err(e),
        };
        let _ = m.locked_listings.remove(&listing_id);
        assert(m@.locked_listings =~= old(m)@.locked_listings.remove(listing_id));
        Ok(true)
    }

    /// Removes the lock of `listing_id` and step `step` of `tx`.
    fn unlock(m: &mut Marketplace, listing_id: u64, transaction_id: u64, step_id: u32)
        ensures
            final(m)@ == old(m)@.without_lock_and_state(listing_id, transaction_id, step_id),
    {
        let _ = m.locked_listings.remove(&listing_id);
        let _ = m.atomic_states.remove(transaction_id as u128, step_id as u128);
        assert(m@.locked_listings =~= old(m)@.locked_listings.remove(listing_id));
    }

    /// Rolls back a listing lock: the listing is unlocked and the step forgotten.
    fn rollback_unlock_listing(m: &mut Marketplace, transaction_id: u64, step_id: u32, args: &Vec<Val>) -> (b:
        bool)
        ensures
            old(m)@.rolled_back(transaction_id, step_id, RollbackOp::UnlockListing, args@) == Ok::<
                (bool, MarketView),
                MarketError,
            >((b, final(m)@)),
    {
        if args.len() < 1 {
            return false;
        }
        let listing_id = to_u64(args[0]);
        if listing_id == 0 {
            return false;
        }
        Self::unlock(m, listing_id, transaction_id, step_id);
        true
    }

    /// Rolls back an escrow: the held amount is released and the step forgotten.
    fn rollback_refund_from_escrow(
        m: &mut Marketplace,
        transaction_id: u64,
        step_id: u32,
        args: &Vec<Val>,
    ) -> (r: Result<bool, MarketError>)
        ensures
            match old(m)@.rolled_back(transaction_id, step_id, RollbackOp::RefundFromEscrow, args@) {
                Ok((b, v)) => r == Ok::<bool, MarketError>(b) && final(m)@ == v,
                Err(e) => r == Err::<bool, MarketError>(e) && final(m)@ == old(m)@,
            },
    {
        if args.len() < 2 {
            return Ok(false);
        }
        let buyer = match to_address(args[0]) {
            Ok(a) => a,
            Err(e) => return Err(e),
        };
        let amount = to_i128(args[1]);
        if amount <= 0 {
            return Ok(false);
        }
        let _ = m.escrow_balances.remove(buyer.id as u128, transaction_id as u128);
        let _ = m.atomic_states.remove(transaction_id as u128, step_id as u128);
        Ok(true)
    }

    /// Rolls back a sale: the listing as it was when prepared is restored, then
    /// unlocked, and the step forgotten.
    fn rollback_revert_sale(m: &mut Marketplace, transaction_id: u64, step_id: u32, args: &Vec<Val>) -> (b:
        bool)
        ensures
            old(m)@.rolled_back(transaction_id, step_id, RollbackOp::RevertSale, args@) == Ok::<
                (bool, MarketView),
                MarketError,
            >((b, final(m)@)),
    {
        if args.len() < 1 {
            return false;
        }
        let listing_id = to_u64(args[0]);
        if listing_id == 0 {
            return false;
        }
        let original = match m.atomic_states.get(transaction_id as u128, step_id as u128) {
            Some(state) => state.original_listing_state,
            None => None,
        };
        if let Some(listing) = original {
            m.listings.insert(listing_id, listing);
        }
        Self::unlock(m, listing_id, transaction_id, step_id);
        true
    }

    /// Rolls back a lease-listing lock, as `rollback_unlock_listing` does.
    fn rollback_unlock_lease_listing(
        m: &mut Marketplace,
        transaction_id: u64,
        step_id: u32,
        args: &Vec<Val>,
    ) -> (b: bool)
        ensures
            old(m)@.rolled_back(transaction_id, step_id, RollbackOp::UnlockLeaseListing, args@)
                == Ok::<(bool, MarketView), MarketError>((b, final(m)@)),
    {
        Self::rollback_unlock_listing(m, transaction_id, step_id, args)
    }

    /// Rolls back a lease record: the listing is unlocked and the step forgotten.
    fn rollback_delete_lease_record(
        m: &mut Marketplace,
        transaction_id: u64,
        step_id: u32,
        args: &Vec<Val>,
    ) -> (b: bool)
        ensures
            old(m)@.rolled_back(transaction_id, step_id, RollbackOp::DeleteLeaseRecord, args@)
                == Ok::<(bool, MarketView), MarketError>((b, final(m)@)),
    {
        if args.len() < 1 {
            return false;
        }
        let listing_id = to_u64(args[0]);
        if listing_id == 0 {
            return false;
        }
        Self::unlock(m, listing_id, transaction_id, step_id);
        true
    }
}

/// A listing locked by one transaction cannot be taken by another: preparing
/// a validation of a locked listing fails and changes nothing.
pub proof fn locked_listing_not_prepared_again(v: MarketView, tx: u64, step: u32, args: Seq<Val>)
    requires
        args.len() >= 3,
        v.locked_listings.contains_key(val_u64(args[0])),
    ensures
        v.prepared_validate_listing(tx, step, args) == (false, v),
{
}

/// Rolling back undoes a prepared listing validation: unlocking the listing
/// after a successful prepare returns the storage to what it was before,
/// provided the step had no state recorded yet.
pub proof fn rollback_undoes_validation(v: MarketView, tx: u64, step: u32, args: Seq<Val>)
    requires
        !v.atomic_states.contains_key(step_key(tx, step)),
        v.prepared_validate_listing(tx, step, args).0,
    ensures
        v.prepared_validate_listing(tx, step, args).1.rolled_back(
            tx,
            step,
            RollbackOp::UnlockListing,
            args,
        ) == Ok::<(bool, MarketView), MarketError>((true, v)),
{
    let after = v.prepared_validate_listing(tx, step, args).1;
    let listing_id = val_u64(args[0]);
    let back = after.without_lock_and_state(listing_id, tx, step);
    assert(back.locked_listings =~= v.locked_listings);
    assert(back.atomic_states =~= v.atomic_states);
    assert(back == v);
}

} // verus!
