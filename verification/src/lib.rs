//! Escrow ledger for location-verified payments.
//!
//! A payment is held in custody between a business and a worker until the
//! worker's claimed position lies within a geofence around the job site; it is
//! then released to the worker, or returned to the business if the job is
//! cancelled first.
//!
//! - [`identity`]: the accounts and contracts that pay and are paid.
//! - [`record`]: the escrow record, the transfer instruction and the errors.
//! - [`geofence`]: the distance between the job site and a claimed position.
//! - [`ledger`]: the ledger and its operations.
//! - [`laws`]: what holds of the ledger over any sequence of requests.
//!
//! The ledger does not move funds. For a request it names the transfer that
//! the value transfer service is to carry out (`transfer_for_create` and its
//! like), and then commits what the outcome of that transfer calls for
//! (`create_escrow` and its like).

pub mod geofence;
pub mod identity;
pub mod laws;
pub mod ledger;
pub mod record;

pub use geofence::calculate_distance;
pub use identity::{AccountAddress, ContractAddress, Identity};
pub use ledger::{
    cancel_escrow, create_escrow, get_escrow, init, retry_release, transfer_for_cancel,
    transfer_for_create, transfer_for_release, transfer_for_retry, verify_and_release, EscrowState,
};
pub use record::{Endpoint, EscrowDetails, EscrowError, EscrowStatus, Transfer, TransferFailed};
