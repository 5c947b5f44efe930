//! The escrow ledger: one record per job, and the operations that create,
//! verify, release and cancel them.
//!
//! The ledger never moves funds itself. For each operation that needs a
//! transfer there are two functions. The first, `transfer_for_..`, decides
//! from the ledger and the request which transfer the value transfer service
//! is to carry out, or why the request is refused. The caller has the service
//! carry it out and hands what the service answered to the second, which
//! commits the change that this answer calls for. A request that is refused
//! asks for no transfer and changes nothing.

use crate::geofence::{calculate_distance, planar_distance};
use crate::identity::{AccountAddress, ContractAddress, Identity};
use crate::record::{
    deposit, payout, Endpoint, EscrowDetails, EscrowError, EscrowStatus, Transfer, TransferFailed,
};
use std::collections::HashMap;
use vstd::prelude::*;

verus! {

broadcast use vstd::std_specs::hash::group_hash_axioms;

/// The ledger: the escrow records by job, the owner of the deployment, and
/// the token contract through which value is transferred.
#[derive(Debug)]
pub struct EscrowState {
    pub escrows: HashMap<u64, EscrowDetails>,
    pub owner: AccountAddress,
    pub plt_token: ContractAddress,
}

/// The ledger as a mathematical value.
pub struct Ledger {
    pub escrows: Map<u64, EscrowDetails>,
    pub owner: AccountAddress,
    pub plt_token: ContractAddress,
}

impl View for EscrowState {
    type V = Ledger;

    open spec fn view(&self) -> Ledger {
        Ledger { escrows: self.escrows@, owner: self.owner, plt_token: self.plt_token }
    }
}

impl Clone for EscrowState {
    fn clone(&self) -> (copy: EscrowState)
        ensures
            copy@ == self@,
    {
        EscrowState {
            escrows: self.escrows.clone(),
            owner: self.owner,
            plt_token: self.plt_token,
        }
    }
}

/// The record that a successful creation stores.
pub open spec fn new_record(
    business: Identity,
    created_at: u64,
    worker: Identity,
    amount: u64,
    location_lat: i64,
    location_lng: i64,
    radius: u64,
) -> EscrowDetails {
    EscrowDetails {
        business,
        worker,
        amount,
        location_lat,
        location_lng,
        radius,
        status: EscrowStatus::Created,
        created_at,
    }
}

/// Whether a claimed position lies within the geofence of `record`.
pub open spec fn within_geofence(record: EscrowDetails, lat: i64, lng: i64) -> bool {
    planar_distance(record.location_lat as int, record.location_lng as int, lat as int, lng as int)
        <= record.radius
}

/// Why a creation for `job_id` is refused, if it is.
pub open spec fn create_rejection(escrows: Map<u64, EscrowDetails>, job_id: u64) -> Option<
    EscrowError,
> {
    if escrows.contains_key(job_id) {
        Some(EscrowError::DuplicateJob)
    } else {
        None
    }
}

/// Why a verification of `job_id` at the claimed position is refused, if it is.
pub open spec fn release_rejection(
    escrows: Map<u64, EscrowDetails>,
    job_id: u64,
    lat: i64,
    lng: i64,
) -> Option<EscrowError> {
    if !escrows.contains_key(job_id) {
        Some(EscrowError::NotFound)
    } else if escrows[job_id].status != EscrowStatus::Created {
        Some(EscrowError::InvalidState)
    } else if !within_geofence(escrows[job_id], lat, lng) {
        Some(EscrowError::OutOfRange)
    } else {
        None
    }
}

/// Why a retry of the payout of `job_id` is refused, if it is.
pub open spec fn retry_rejection(escrows: Map<u64, EscrowDetails>, job_id: u64) -> Option<
    EscrowError,
> {
    if !escrows.contains_key(job_id) {
        Some(EscrowError::NotFound)
    } else if escrows[job_id].status != EscrowStatus::Verified {
        Some(EscrowError::InvalidState)
    } else {
        None
    }
}

/// Why a cancellation of `job_id` by `sender` is refused, if it is.
pub open spec fn cancel_rejection(
    escrows: Map<u64, EscrowDetails>,
    sender: Identity,
    job_id: u64,
) -> Option<EscrowError> {
    if !escrows.contains_key(job_id) {
        Some(EscrowError::NotFound)
    } else if sender != escrows[job_id].business {
        Some(EscrowError::Unauthorized)
    } else if escrows[job_id].status != EscrowStatus::Created {
        Some(EscrowError::InvalidState)
    } else {
        None
    }
}

/// The payout that releases the escrow of `job_id` to its worker.
pub open spec fn release_payout(escrows: Map<u64, EscrowDetails>, job_id: u64) -> Transfer {
    payout(escrows[job_id].worker, escrows[job_id].amount)
}

/// The payout that returns the escrow of `job_id` to its business.
pub open spec fn refund(escrows: Map<u64, EscrowDetails>, job_id: u64) -> Transfer {
    payout(escrows[job_id].business, escrows[job_id].amount)
}

/// What the decision on a request is: the refusal, or the transfer to carry out.
pub open spec fn decision(rejection: Option<EscrowError>, transfer: Transfer) -> Result<
    Transfer,
    EscrowError,
> {
    match rejection {
        Some(error) => Err(error),
        None => Ok(transfer),
    }
}

/// What an operation answers: the refusal if there is one, else the failure of
/// the transfer if it failed, else success.
pub open spec fn answer(
    rejection: Option<EscrowError>,
    transfer: Result<(), TransferFailed>,
) -> Result<(), EscrowError> {
    match rejection {
        Some(error) => Err(error),
        None => match transfer {
            Ok(_) => Ok(()),
            Err(_) => Err(EscrowError::TransferFailed),
        },
    }
}

/// The records after a creation: `record` is stored under `job_id` if the
/// request was accepted and the deposit arrived, and nothing changes otherwise.
pub open spec fn after_create(
    escrows: Map<u64, EscrowDetails>,
    job_id: u64,
    record: EscrowDetails,
    transferred: bool,
) -> Map<u64, EscrowDetails> {
    if create_rejection(escrows, job_id) is None && transferred {
        escrows.insert(job_id, record)
    } else {
        escrows
    }
}

/// The records after a verification: an accepted request leaves the record
/// `Released` if the payout arrived and `Verified` if it did not.
pub open spec fn after_release(
    escrows: Map<u64, EscrowDetails>,
    job_id: u64,
    lat: i64,
    lng: i64,
    transferred: bool,
) -> Map<u64, EscrowDetails> {
    if release_rejection(escrows, job_id, lat, lng) is None {
        escrows.insert(
            job_id,
            escrows[job_id].with_status(
                if transferred {
                    EscrowStatus::Released
                } else {
                    EscrowStatus::Verified
                },
            ),
        )
    } else {
        escrows
    }
}

/// The records after a retried payout: the record is `Released` if the request
/// was accepted and the payout arrived, and nothing changes otherwise.
pub open spec fn after_retry(
    escrows: Map<u64, EscrowDetails>,
    job_id: u64,
    transferred: bool,
) -> Map<u64, EscrowDetails> {
    if retry_rejection(escrows, job_id) is None && transferred {
        escrows.insert(job_id, escrows[job_id].with_status(EscrowStatus::Released))
    } else {
        escrows
    }
}

/// The records after a cancellation: the record is `Cancelled` if the request
/// was accepted and the refund arrived, and nothing changes otherwise.
pub open spec fn after_cancel(
    escrows: Map<u64, EscrowDetails>,
    sender: Identity,
    job_id: u64,
    transferred: bool,
) -> Map<u64, EscrowDetails> {
    if cancel_rejection(escrows, sender, job_id) is None && transferred {
        escrows.insert(job_id, escrows[job_id].with_status(EscrowStatus::Cancelled))
    } else {
        escrows
    }
}

/// An empty ledger for a deployment owned by `owner` that transfers value
/// through `plt_token`.
pub fn init(owner: AccountAddress, plt_token: ContractAddress) -> (state: EscrowState)
    ensures
        state@ == (Ledger { escrows: Map::empty(), owner, plt_token }),
{
    EscrowState { escrows: HashMap::new(), owner, plt_token }
}

/// The record of `job_id`, or `NotFound`.
pub fn get_escrow(state: &EscrowState, job_id: u64) -> (found: Result<EscrowDetails, EscrowError>)
    ensures
        found == if state@.escrows.contains_key(job_id) {
            Ok::<EscrowDetails, EscrowError>(state@.escrows[job_id])
        } else {
            Err(EscrowError::NotFound)
        },
{
    match state.escrows.get(&job_id) {
        Some(record) => Ok(*record),
        None => Err(EscrowError::NotFound),
    }
}

/// Decides on a request of `sender` to put `amount` in escrow for `job_id`:
/// the deposit to carry out, or `DuplicateJob`.
pub fn transfer_for_create(
    state: &EscrowState,
    sender: Identity,
    job_id: u64,
    amount: u64,
) -> (decided: Result<Transfer, EscrowError>)
    ensures
        decided == decision(create_rejection(state@.escrows, job_id), deposit(sender, amount)),
{
    if state.escrows.contains_key(&job_id) {
        return Err(EscrowError::DuplicateJob);
    }
    Ok(Transfer { from: Endpoint::Holder(sender), to: Endpoint::Custody, amount })
}

/// Creates the escrow of `job_id`, given what the value transfer service
/// answered to the deposit.
///
/// The record is entered with `sender` as its business, in status `Created`.
/// If the deposit failed the entry is rolled back: the ledger is as before,
/// and the job can be created again.
pub fn create_escrow(
    state: &mut EscrowState,
    sender: Identity,
    slot_time: u64,
    job_id: u64,
    worker: Identity,
    amount: u64,
    location_lat: i64,
    location_lng: i64,
    radius: u64,
    transfer: Result<(), TransferFailed>,
) -> (answered: Result<(), EscrowError>)
    ensures
        answered == answer(create_rejection(old(state)@.escrows, job_id), transfer),
        final(state)@ == (Ledger {
            escrows: after_create(
                old(state)@.escrows,
                job_id,
                new_record(sender, slot_time, worker, amount, location_lat, location_lng, radius),
                transfer is Ok,
            ),
            ..old(state)@
        }),
{
    if state.escrows.contains_key(&job_id) {
        return Err(EscrowError::DuplicateJob);
    }
    let escrow = EscrowDetails {
        business: sender,
        worker,
        amount,
        location_lat,
        location_lng,
        radius,
        status: EscrowStatus::Created,
        created_at: slot_time,
    };
    state.escrows.insert(job_id, escrow);
    if transfer.is_err() {
        state.escrows.remove(&job_id);
        assert(state.escrows@ =~= old(state).escrows@);
        return Err(EscrowError::TransferFailed);
    }
    Ok(())
}

/// The record that a claim for `job_id` at `(worker_lat, worker_lng)` is
/// about, or why the claim is refused.
fn vet_claim(state: &EscrowState, job_id: u64, worker_lat: i64, worker_lng: i64) -> (vetted: Result<
    EscrowDetails,
    EscrowError,
>)
    ensures
        vetted == match release_rejection(state@.escrows, job_id, worker_lat, worker_lng) {
            Some(error) => Err::<EscrowDetails, EscrowError>(error),
            None => Ok(state@.escrows[job_id]),
        },
{
    let escrow = match state.escrows.get(&job_id) {
        Some(record) => *record,
        None => {
            return Err(EscrowError::NotFound);
        },
    };
    if escrow.status != EscrowStatus::Created {
        return Err(EscrowError::InvalidState);
    }
    let distance: u128 = calculate_distance(
        escrow.location_lat,
        escrow.location_lng,
        worker_lat,
        worker_lng,
    );
    if distance > escrow.radius as u128 {
        return Err(EscrowError::OutOfRange);
    }
    Ok(escrow)
}

/// The record whose payout a retry for `job_id` is about, or why the retry is
/// refused.
fn vet_retry(state: &EscrowState, job_id: u64) -> (vetted: Result<EscrowDetails, EscrowError>)
    ensures
        vetted == match retry_rejection(state@.escrows, job_id) {
            Some(error) => Err::<EscrowDetails, EscrowError>(error),
            None => Ok(state@.escrows[job_id]),
        },
{
    let escrow = match state.escrows.get(&job_id) {
        Some(record) => *record,
        None => {
            return Err(EscrowError::NotFound);
        },
    };
    if escrow.status != EscrowStatus::Verified {
        return Err(EscrowError::InvalidState);
    }
    Ok(escrow)
}

/// The record that a cancellation of `job_id` by `sender` is about, or why the
/// cancellation is refused.
fn vet_cancel(state: &EscrowState, sender: Identity, job_id: u64) -> (vetted: Result<
    EscrowDetails,
    EscrowError,
>)
    ensures
        vetted == match cancel_rejection(state@.escrows, sender, job_id) {
            Some(error) => Err::<EscrowDetails, EscrowError>(error),
            None => Ok(state@.escrows[job_id]),
        },
{
    let escrow = match state.escrows.get(&job_id) {
        Some(record) => *record,
        None => {
            return Err(EscrowError::NotFound);
        },
    };
    if sender != escrow.business {
        return Err(EscrowError::Unauthorized);
    }
    if escrow.status != EscrowStatus::Created {
        return Err(EscrowError::InvalidState);
    }
    Ok(escrow)
}

/// Decides on a claim that the worker of `job_id` is at
/// `(worker_lat, worker_lng)`: the payout to carry out, or why the claim is
/// refused. Anyone may submit a claim; presence within the geofence is what
/// authorises the payout.
pub fn transfer_for_release(
    state: &EscrowState,
    job_id: u64,
    worker_lat: i64,
    worker_lng: i64,
) -> (decided: Result<Transfer, EscrowError>)
    ensures
        decided == decision(
            release_rejection(state@.escrows, job_id, worker_lat, worker_lng),
            release_payout(state@.escrows, job_id),
        ),
{
    let escrow = match vet_claim(state, job_id, worker_lat, worker_lng) {
        Ok(record) => record,
        Err(error) => {
            return Err(error);
        },
    };
    Ok(
        Transfer {
            from: Endpoint::Custody,
            to: Endpoint::Holder(escrow.worker),
            amount: escrow.amount,
        },
    )
}

/// Verifies the claimed position for `job_id` and releases the payment, given
/// what the value transfer service answered to the payout.
///
/// An accepted claim marks the record `Verified`, and `Released` once the
/// payout has arrived. If the payout failed the record stays `Verified`: the
/// funds remain in custody and the payout can be retried.
pub fn verify_and_release(
    state: &mut EscrowState,
    job_id: u64,
    worker_lat: i64,
    worker_lng: i64,
    transfer: Result<(), TransferFailed>,
) -> (answered: Result<(), EscrowError>)
    ensures
        answered == answer(
            release_rejection(old(state)@.escrows, job_id, worker_lat, worker_lng),
            transfer,
        ),
        final(state)@ == (Ledger {
            escrows: after_release(
                old(state)@.escrows,
                job_id,
                worker_lat,
                worker_lng,
                transfer is Ok,
            ),
            ..old(state)@
        }),
{
    let escrow = match vet_claim(state, job_id, worker_lat, worker_lng) {
        Ok(record) => record,
        Err(error) => {
            return Err(error);
        },
    };
    state.escrows.insert(job_id, EscrowDetails { status: EscrowStatus::Verified, ..escrow });
    if transfer.is_err() {
        return Err(EscrowError::TransferFailed);
    }
    state.escrows.insert(job_id, EscrowDetails { status: EscrowStatus::Released, ..escrow });
    assert(state.escrows@ =~= after_release(
        old(state).escrows@,
        job_id,
        worker_lat,
        worker_lng,
        true,
    ));
    Ok(())
}

/// Decides on a retry of the payout of `job_id`: the payout to carry out, or
/// why the retry is refused. Only a `Verified` record has a payout to retry.
pub fn transfer_for_retry(state: &EscrowState, job_id: u64) -> (decided: Result<
    Transfer,
    EscrowError,
>)
    ensures
        decided == decision(
            retry_rejection(state@.escrows, job_id),
            release_payout(state@.escrows, job_id),
        ),
{
    let escrow = match vet_retry(state, job_id) {
        Ok(record) => record,
        Err(error) => {
            return Err(error);
        },
    };
    Ok(
        Transfer {
            from: Endpoint::Custody,
            to: Endpoint::Holder(escrow.worker),
            amount: escrow.amount,
        },
    )
}

/// Retries the payout of a `Verified` record, given what the value transfer
/// service answered. The position is not checked again.
pub fn retry_release(
    state: &mut EscrowState,
    job_id: u64,
    transfer: Result<(), TransferFailed>,
) -> (answered: Result<(), EscrowError>)
    ensures
        answered == answer(retry_rejection(old(state)@.escrows, job_id), transfer),
        final(state)@ == (Ledger {
            escrows: after_retry(old(state)@.escrows, job_id, transfer is Ok),
            ..old(state)@
        }),
{
    let escrow = match vet_retry(state, job_id) {
        Ok(record) => record,
        Err(error) => {
            return Err(error);
        },
    };
    if transfer.is_err() {
        return Err(EscrowError::TransferFailed);
    }
    state.escrows.insert(job_id, EscrowDetails { status: EscrowStatus::Released, ..escrow });
    Ok(())
}

/// Decides on a request of `sender` to cancel the escrow of `job_id`: the
/// refund to carry out, or why the request is refused.
pub fn transfer_for_cancel(
    state: &EscrowState,
    sender: Identity,
    job_id: u64,
) -> (decided: Result<Transfer, EscrowError>)
    ensures
        decided == decision(
            cancel_rejection(state@.escrows, sender, job_id),
            refund(state@.escrows, job_id),
        ),
{
    let escrow = match vet_cancel(state, sender, job_id) {
        Ok(record) => record,
        Err(error) => {
            return Err(error);
        },
    };
    Ok(
        Transfer {
            from: Endpoint::Custody,
            to: Endpoint::Holder(escrow.business),
            amount: escrow.amount,
        },
    )
}

/// Cancels the escrow of `job_id` at the request of `sender`, given what the
/// value transfer service answered to the refund.
///
/// Only the business that created the escrow may cancel it, and only while it
/// is `Created`. If the refund failed the record stays `Created`, and the
/// cancellation can be repeated.
pub fn cancel_escrow(
    state: &mut EscrowState,
    sender: Identity,
    job_id: u64,
    transfer: Result<(), TransferFailed>,
) -> (answered: Result<(), EscrowError>)
    ensures
        answered == answer(cancel_rejection(old(state)@.escrows, sender, job_id), transfer),
        final(state)@ == (Ledger {
            escrows: after_cancel(old(state)@.escrows, sender, job_id, transfer is Ok),
            ..old(state)@
        }),
{
    let escrow = match vet_cancel(state, sender, job_id) {
        Ok(record) => record,
        Err(error) => {
            return Err(error);
        },
    };
    if transfer.is_err() {
        return Err(EscrowError::TransferFailed);
    }
    state.escrows.insert(job_id, EscrowDetails { status: EscrowStatus::Cancelled, ..escrow });
    Ok(())
}

} // verus!
