//! Escrow records, the transfers that move their funds, and the errors that
//! an operation can end with.

use crate::identity::Identity;
use vstd::prelude::*;

verus! {

/// Where a record stands in its life.
///
/// `Created` is the only initial status. `Verified` records that the worker's
/// presence was proven while the payout is still outstanding. `Released` and
/// `Cancelled` are final.
#[derive(Clone, Copy, Debug, PartialEq, Eq, Structural)]
pub enum EscrowStatus {
    Created,
    Verified,
    Released,
    Cancelled,
}

/// One payment held in custody for one job.
#[derive(Clone, Copy, Debug, PartialEq, Eq)]
pub struct EscrowDetails {
    /// The payer, who created the escrow.
    pub business: Identity,
    /// The intended payee.
    pub worker: Identity,
    /// The quantity of value held.
    pub amount: u64,
    /// Latitude of the job site.
    pub location_lat: i64,
    /// Longitude of the job site.
    pub location_lng: i64,
    /// Largest accepted distance between the job site and a claimed position.
    pub radius: u64,
    pub status: EscrowStatus,
    /// Time of creation, kept for audit.
    pub created_at: u64,
}

impl EscrowDetails {
    /// This record in another status.
    pub open spec fn with_status(self, status: EscrowStatus) -> EscrowDetails {
        EscrowDetails { status, ..self }
    }

    /// Whether the funds of this record are still in custody.
    pub open spec fn is_open(self) -> bool {
        self.status == EscrowStatus::Created || self.status == EscrowStatus::Verified
    }
}

/// Why an operation was refused or did not complete.
#[derive(Clone, Copy, Debug, PartialEq, Eq, Structural)]
pub enum EscrowError {
    /// A record for the job already exists.
    DuplicateJob,
    /// No record exists for the job.
    NotFound,
    /// The record is not in the status that the operation starts from.
    InvalidState,
    /// The caller is not the business that created the escrow.
    Unauthorized,
    /// The claimed position lies outside the geofence.
    OutOfRange,
    /// The value transfer service did not move the funds.
    TransferFailed,
}

/// One end of a transfer.
#[derive(Clone, Copy, Debug, PartialEq, Eq)]
pub enum Endpoint {
    /// The funds that the ledger holds in trust.
    Custody,
    /// An account or contract outside the ledger.
    Holder(Identity),
}

/// An instruction to the value transfer service.
#[derive(Clone, Copy, Debug, PartialEq, Eq)]
pub struct Transfer {
    pub from: Endpoint,
    pub to: Endpoint,
    pub amount: u64,
}

/// The value transfer service did not carry out an instruction; no funds moved.
#[derive(Clone, Copy, Debug, PartialEq, Eq, Structural)]
pub struct TransferFailed;

/// The transfer that brings `amount` from `payer` into custody.
pub open spec fn deposit(payer: Identity, amount: u64) -> Transfer {
    Transfer { from: Endpoint::Holder(payer), to: Endpoint::Custody, amount }
}

/// The transfer that pays `amount` out of custody to `payee`.
pub open spec fn payout(payee: Identity, amount: u64) -> Transfer {
    Transfer { from: Endpoint::Custody, to: Endpoint::Holder(payee), amount }
}

} // verus!
