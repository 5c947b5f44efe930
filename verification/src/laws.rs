//! What holds of the ledger over whole sequences of requests.
//!
//! A request and what the value transfer service answered to its transfer make
//! an event; a history is a sequence of events, each applied to the ledger
//! that the one before left. The laws below are stated over the functions in
//! which the operations of the ledger state their own results.

use crate::geofence::{lemma_int_sqrt_within, squared_distance};
use crate::identity::Identity;
use crate::ledger::{
    after_cancel, after_create, after_release, after_retry, answer, cancel_rejection,
    create_rejection, decision, new_record, refund, release_payout, release_rejection,
    retry_rejection, within_geofence,
};
use crate::record::{deposit, EscrowDetails, EscrowError, EscrowStatus, Transfer, TransferFailed};
use vstd::prelude::*;

verus! {

/// A request to the ledger.
pub enum Request {
    Create {
        sender: Identity,
        slot_time: u64,
        job_id: u64,
        worker: Identity,
        amount: u64,
        location_lat: i64,
        location_lng: i64,
        radius: u64,
    },
    VerifyAndRelease { job_id: u64, worker_lat: i64, worker_lng: i64 },
    RetryRelease { job_id: u64 },
    Cancel { sender: Identity, job_id: u64 },
}

/// A request together with whether the transfer that it asked for arrived.
/// For a request that is refused no transfer is asked for, and `transferred`
/// says nothing.
pub struct Event {
    pub request: Request,
    pub transferred: bool,
}

/// Why `request` is refused, if it is.
pub open spec fn rejection(escrows: Map<u64, EscrowDetails>, request: Request) -> Option<
    EscrowError,
> {
    match request {
        Request::Create { job_id, .. } => create_rejection(escrows, job_id),
        Request::VerifyAndRelease { job_id, worker_lat, worker_lng } => release_rejection(
            escrows,
            job_id,
            worker_lat,
            worker_lng,
        ),
        Request::RetryRelease { job_id } => retry_rejection(escrows, job_id),
        Request::Cancel { sender, job_id } => cancel_rejection(escrows, sender, job_id),
    }
}

/// The transfer that `request` asks for when it is accepted.
pub open spec fn requested_transfer(escrows: Map<u64, EscrowDetails>, request: Request) -> Transfer {
    match request {
        Request::Create { sender, amount, .. } => deposit(sender, amount),
        Request::VerifyAndRelease { job_id, .. } => release_payout(escrows, job_id),
        Request::RetryRelease { job_id } => release_payout(escrows, job_id),
        Request::Cancel { job_id, .. } => refund(escrows, job_id),
    }
}

/// The records after `event`.
pub open spec fn step(escrows: Map<u64, EscrowDetails>, event: Event) -> Map<u64, EscrowDetails> {
    match event.request {
        Request::Create {
            sender,
            slot_time,
            job_id,
            worker,
            amount,
            location_lat,
            location_lng,
            radius,
        } => after_create(
            escrows,
            job_id,
            new_record(sender, slot_time, worker, amount, location_lat, location_lng, radius),
            event.transferred,
        ),
        Request::VerifyAndRelease { job_id, worker_lat, worker_lng } => after_release(
            escrows,
            job_id,
            worker_lat,
            worker_lng,
            event.transferred,
        ),
        Request::RetryRelease { job_id } => after_retry(escrows, job_id, event.transferred),
        Request::Cancel { sender, job_id } => after_cancel(
            escrows,
            sender,
            job_id,
            event.transferred,
        ),
    }
}

/// The records after every event of `history`, in order.
pub open spec fn run(escrows: Map<u64, EscrowDetails>, history: Seq<Event>) -> Map<
    u64,
    EscrowDetails,
>
    decreases history.len(),
{
    if history.len() == 0 {
        escrows
    } else {
        run(step(escrows, history[0]), history.drop_first())
    }
}

/// Whether the transfer of `event` took effect: the request was accepted and
/// the transfer arrived.
pub open spec fn settled(escrows: Map<u64, EscrowDetails>, event: Event) -> bool {
    rejection(escrows, event.request) is None && event.transferred
}

/// What `event` moved from the business into custody for `job_id`.
pub open spec fn deposited(escrows: Map<u64, EscrowDetails>, event: Event, job_id: u64) -> nat {
    match event.request {
        Request::Create { job_id: job, .. } if job == job_id && settled(escrows, event) => {
            requested_transfer(escrows, event.request).amount as nat
        },
        _ => 0,
    }
}

/// What `event` paid out of custody to the worker of `job_id`.
pub open spec fn paid_to_worker(escrows: Map<u64, EscrowDetails>, event: Event, job_id: u64) -> nat {
    match event.request {
        Request::VerifyAndRelease { job_id: job, .. } if job == job_id && settled(
            escrows,
            event,
        ) => requested_transfer(escrows, event.request).amount as nat,
        Request::RetryRelease { job_id: job } if job == job_id && settled(escrows, event) => {
            requested_transfer(escrows, event.request).amount as nat
        },
        _ => 0,
    }
}

/// What `event` returned from custody to the business of `job_id`.
pub open spec fn refunded_to_business(
    escrows: Map<u64, EscrowDetails>,
    event: Event,
    job_id: u64,
) -> nat {
    match event.request {
        Request::Cancel { job_id: job, .. } if job == job_id && settled(escrows, event) => {
            requested_transfer(escrows, event.request).amount as nat
        },
        _ => 0,
    }
}

/// The sum of the deposits for `job_id` over `history`.
pub open spec fn total_deposited(
    escrows: Map<u64, EscrowDetails>,
    history: Seq<Event>,
    job_id: u64,
) -> nat
    decreases history.len(),
{
    if history.len() == 0 {
        0
    } else {
        deposited(escrows, history[0], job_id) + total_deposited(
            step(escrows, history[0]),
            history.drop_first(),
            job_id,
        )
    }
}

/// The sum of the payouts to the worker of `job_id` over `history`.
pub open spec fn total_paid_to_worker(
    escrows: Map<u64, EscrowDetails>,
    history: Seq<Event>,
    job_id: u64,
) -> nat
    decreases history.len(),
{
    if history.len() == 0 {
        0
    } else {
        paid_to_worker(escrows, history[0], job_id) + total_paid_to_worker(
            step(escrows, history[0]),
            history.drop_first(),
            job_id,
        )
    }
}

/// The sum of the refunds to the business of `job_id` over `history`.
pub open spec fn total_refunded_to_business(
    escrows: Map<u64, EscrowDetails>,
    history: Seq<Event>,
    job_id: u64,
) -> nat
    decreases history.len(),
{
    if history.len() == 0 {
        0
    } else {
        refunded_to_business(escrows, history[0], job_id) + total_refunded_to_business(
            step(escrows, history[0]),
            history.drop_first(),
            job_id,
        )
    }
}

/// Whether a record in status `before` can come to be in status `after`:
/// along `Created`, `Verified`, `Released`, or from `Created` to `Cancelled`.
pub open spec fn may_become(before: EscrowStatus, after: EscrowStatus) -> bool {
    ||| before == after
    ||| before == EscrowStatus::Created
    ||| before == EscrowStatus::Verified && after == EscrowStatus::Released
}

/// Whether `after` is the record `before` at a later time: the same escrow,
/// in a status that its earlier status can come to.
pub open spec fn later_record(before: EscrowDetails, after: EscrowDetails) -> bool {
    &&& after == before.with_status(after.status)
    &&& may_become(before.status, after.status)
}

/// The job that `request` is about.
pub open spec fn job_of(request: Request) -> u64 {
    match request {
        Request::Create { job_id, .. } => job_id,
        Request::VerifyAndRelease { job_id, .. } => job_id,
        Request::RetryRelease { job_id } => job_id,
        Request::Cancel { job_id, .. } => job_id,
    }
}

/// Jobs are independent. What a request is answered, and which transfer it
/// asks for, depends on the record of its own job alone; and it leaves the
/// record of every other job as it was.
pub proof fn law_jobs_are_independent(
    escrows: Map<u64, EscrowDetails>,
    others: Map<u64, EscrowDetails>,
    event: Event,
    job_id: u64,
)
    requires
        escrows.contains_key(job_of(event.request)) == others.contains_key(job_of(event.request)),
        escrows.contains_key(job_of(event.request)) ==> escrows[job_of(event.request)]
            == others[job_of(event.request)],
        job_id != job_of(event.request),
    ensures
        rejection(escrows, event.request) == rejection(others, event.request),
        rejection(escrows, event.request) is None ==> requested_transfer(escrows, event.request)
            == requested_transfer(others, event.request),
        step(escrows, event).contains_key(job_id) == escrows.contains_key(job_id),
        escrows.contains_key(job_id) ==> step(escrows, event)[job_id] == escrows[job_id],
{
}

/// The geofence boundary. A claimed position is within the geofence exactly
/// when its squared distance from the job site lies below the square of the
/// radius plus one: a position at distance `radius` is within, one at distance
/// `radius + 1` is not.
pub proof fn law_geofence_boundary(record: EscrowDetails, lat: i64, lng: i64)
    ensures
        within_geofence(record, lat, lng) <==> squared_distance(
            record.location_lat as int,
            record.location_lng as int,
            lat as int,
            lng as int,
        ) < (record.radius + 1) * (record.radius + 1),
{
    lemma_int_sqrt_within(
        squared_distance(
            record.location_lat as int,
            record.location_lng as int,
            lat as int,
            lng as int,
        ),
        record.radius as nat,
    );
}

/// All or nothing. A request that is refused changes nothing. A request whose
/// transfer fails changes nothing either, with one exception: an accepted
/// claim leaves the mark `Verified` on its record, and nothing else.
pub proof fn law_all_or_nothing(escrows: Map<u64, EscrowDetails>, event: Event)
    ensures
        rejection(escrows, event.request) is Some ==> step(escrows, event) == escrows,
        !event.transferred && !(event.request is VerifyAndRelease) ==> step(escrows, event)
            == escrows,
        !event.transferred && event.request is VerifyAndRelease && rejection(
            escrows,
            event.request,
        ) is None ==> step(escrows, event) == escrows.insert(
            job_of(event.request),
            escrows[job_of(event.request)].with_status(EscrowStatus::Verified),
        ),
{
}

/// Status only moves forward. One event keeps every record that is there,
/// changes nothing of it but the status, and moves the status only along
/// `Created`, `Verified`, `Released` or from `Created` to `Cancelled`; a
/// record that it adds is `Created`.
pub proof fn law_status_moves_forward(escrows: Map<u64, EscrowDetails>, event: Event, job_id: u64)
    ensures
        escrows.contains_key(job_id) ==> step(escrows, event).contains_key(job_id) && later_record(
            escrows[job_id],
            step(escrows, event)[job_id],
        ),
        !escrows.contains_key(job_id) && step(escrows, event).contains_key(job_id) ==> step(
            escrows,
            event,
        )[job_id].status == EscrowStatus::Created,
{
}

/// Status only moves forward over a whole history, and a record in a final
/// status never changes again.
pub proof fn law_history_moves_forward(
    escrows: Map<u64, EscrowDetails>,
    history: Seq<Event>,
    job_id: u64,
)
    requires
        escrows.contains_key(job_id),
    ensures
        run(escrows, history).contains_key(job_id),
        later_record(escrows[job_id], run(escrows, history)[job_id]),
        !escrows[job_id].is_open() ==> run(escrows, history)[job_id] == escrows[job_id],
    decreases history.len(),
{
    if history.len() > 0 {
        law_status_moves_forward(escrows, history[0], job_id);
        law_history_moves_forward(step(escrows, history[0]), history.drop_first(), job_id);
    }
}

/// Exactly-once settlement. Over any history, the worker of a record is paid
/// its amount if the record came from an open status to `Released`, and
/// nothing otherwise; the business is refunded its amount if the record came
/// from an open status to `Cancelled`, and nothing otherwise; and nothing more
/// is deposited for it. So the payouts and refunds of a record together never
/// exceed its amount, and never go to both.
pub proof fn law_exactly_once_settlement(
    escrows: Map<u64, EscrowDetails>,
    history: Seq<Event>,
    job_id: u64,
)
    requires
        escrows.contains_key(job_id),
    ensures
        total_deposited(escrows, history, job_id) == 0,
        total_paid_to_worker(escrows, history, job_id) == if escrows[job_id].is_open() && run(
            escrows,
            history,
        )[job_id].status == EscrowStatus::Released {
            escrows[job_id].amount as nat
        } else {
            0
        },
        total_refunded_to_business(escrows, history, job_id) == if escrows[job_id].is_open() && run(
            escrows,
            history,
        )[job_id].status == EscrowStatus::Cancelled {
            escrows[job_id].amount as nat
        } else {
            0
        },
        total_paid_to_worker(escrows, history, job_id) + total_refunded_to_business(
            escrows,
            history,
            job_id,
        ) <= escrows[job_id].amount,
        total_paid_to_worker(escrows, history, job_id) == 0 || total_refunded_to_business(
            escrows,
            history,
            job_id,
        ) == 0,
    decreases history.len(),
{
    if history.len() > 0 {
        let next = step(escrows, history[0]);
        law_status_moves_forward(escrows, history[0], job_id);
        law_history_moves_forward(next, history.drop_first(), job_id);
        law_exactly_once_settlement(next, history.drop_first(), job_id);
    }
}

/// Settlement over a whole life. Over any history that starts before the
/// record of a job exists: if the record exists in the end, its amount was
/// deposited exactly once, the worker was paid that amount if the record is
/// `Released` and nothing otherwise, and the business was refunded that amount
/// if the record is `Cancelled` and nothing otherwise; if it does not exist,
/// nothing was moved for the job at all.
pub proof fn law_settlement_over_a_life(
    escrows: Map<u64, EscrowDetails>,
    history: Seq<Event>,
    job_id: u64,
)
    requires
        !escrows.contains_key(job_id),
    ensures
        ({
            let last = run(escrows, history);
            let amount = if last.contains_key(job_id) {
                last[job_id].amount as nat
            } else {
                0
            };
            &&& total_deposited(escrows, history, job_id) == amount
            &&& total_paid_to_worker(escrows, history, job_id) == if last.contains_key(job_id)
                && last[job_id].status == EscrowStatus::Released {
                amount
            } else {
                0
            }
            &&& total_refunded_to_business(escrows, history, job_id) == if last.contains_key(job_id)
                && last[job_id].status == EscrowStatus::Cancelled {
                amount
            } else {
                0
            }
        }),
    decreases history.len(),
{
    if history.len() > 0 {
        let next = step(escrows, history[0]);
        if next.contains_key(job_id) {
            law_history_moves_forward(next, history.drop_first(), job_id);
            law_exactly_once_settlement(next, history.drop_first(), job_id);
        } else {
            law_settlement_over_a_life(next, history.drop_first(), job_id);
        }
    }
}

/// Duplicate creation is refused and changes nothing. After a creation for
/// `job_id` that did not end in a failed deposit, a second creation for the
/// same job, whatever record it would store, is refused with `DuplicateJob`,
/// asks for no transfer, and leaves every record as the first left it.
pub proof fn law_duplicate_create_rejected(
    escrows: Map<u64, EscrowDetails>,
    job_id: u64,
    first: EscrowDetails,
    first_transfer: Result<(), TransferFailed>,
    second: EscrowDetails,
    second_transfer: Result<(), TransferFailed>,
)
    requires
        answer(create_rejection(escrows, job_id), first_transfer) != Err::<(), EscrowError>(
            EscrowError::TransferFailed,
        ),
    ensures
        ({
            let between = after_create(escrows, job_id, first, first_transfer is Ok);
            &&& decision(create_rejection(between, job_id), deposit(second.business, second.amount))
                == Err::<Transfer, EscrowError>(EscrowError::DuplicateJob)
            &&& answer(create_rejection(between, job_id), second_transfer) == Err::<
                (),
                EscrowError,
            >(EscrowError::DuplicateJob)
            &&& after_create(between, job_id, second, second_transfer is Ok) == between
        }),
{
}

/// Only the business may cancel. A cancellation by anyone else is refused with
/// `Unauthorized`, asks for no transfer, and leaves every record as it was.
pub proof fn law_cancel_needs_business(
    escrows: Map<u64, EscrowDetails>,
    sender: Identity,
    job_id: u64,
    transfer: Result<(), TransferFailed>,
)
    requires
        escrows.contains_key(job_id),
        sender != escrows[job_id].business,
    ensures
        decision(cancel_rejection(escrows, sender, job_id), refund(escrows, job_id)) == Err::<
            Transfer,
            EscrowError,
        >(EscrowError::Unauthorized),
        answer(cancel_rejection(escrows, sender, job_id), transfer) == Err::<(), EscrowError>(
            EscrowError::Unauthorized,
        ),
        after_cancel(escrows, sender, job_id, transfer is Ok) == escrows,
{
}

/// A failed payout can be retried. If the payout of an accepted claim fails,
/// the record is `Verified`; a retry whose payout arrives then leaves the
/// ledger exactly as if the first payout had arrived, whatever position was
/// claimed: the retry takes none.
pub proof fn law_failed_release_can_be_retried(
    escrows: Map<u64, EscrowDetails>,
    job_id: u64,
    worker_lat: i64,
    worker_lng: i64,
)
    requires
        release_rejection(escrows, job_id, worker_lat, worker_lng) is None,
    ensures
        ({
            let failed = after_release(escrows, job_id, worker_lat, worker_lng, false);
            let retried = after_retry(failed, job_id, true);
            &&& answer(
                release_rejection(escrows, job_id, worker_lat, worker_lng),
                Err(TransferFailed),
            ) == Err::<(), EscrowError>(EscrowError::TransferFailed)
            &&& failed[job_id].status == EscrowStatus::Verified
            &&& decision(retry_rejection(failed, job_id), release_payout(failed, job_id)) == Ok::<
                Transfer,
                EscrowError,
            >(release_payout(escrows, job_id))
            &&& answer(retry_rejection(failed, job_id), Ok(())) == Ok::<(), EscrowError>(())
            &&& retried[job_id].status == EscrowStatus::Released
            &&& retried == after_release(escrows, job_id, worker_lat, worker_lng, true)
        }),
{
    let failed = after_release(escrows, job_id, worker_lat, worker_lng, false);
    assert(after_retry(failed, job_id, true) =~= after_release(
        escrows,
        job_id,
        worker_lat,
        worker_lng,
        true,
    ));
}

} // verus!
