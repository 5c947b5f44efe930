use plt_escrow::{
    cancel_escrow, create_escrow, get_escrow, init, retry_release, transfer_for_cancel,
    transfer_for_create, transfer_for_release, transfer_for_retry, verify_and_release,
    AccountAddress, ContractAddress, Endpoint, EscrowError, EscrowState, EscrowStatus, Identity,
    Transfer, TransferFailed,
};

/// A value transfer service that keeps count of what it moved, and fails when told to.
struct Service {
    carried_out: Vec<Transfer>,
}

impl Service {
    fn new() -> Service {
        Service { carried_out: Vec::new() }
    }

    fn transfer(&mut self, instruction: Transfer, works: bool) -> Result<(), TransferFailed> {
        if works {
            self.carried_out.push(instruction);
            Ok(())
        } else {
            Err(TransferFailed)
        }
    }

    fn credited_to(&self, holder: Identity) -> u64 {
        let mut sum = 0;
        for transfer in &self.carried_out {
            if transfer.from == Endpoint::Custody && transfer.to == Endpoint::Holder(holder) {
                sum += transfer.amount;
            }
        }
        sum
    }

    fn debited_from(&self, holder: Identity) -> u64 {
        let mut sum = 0;
        for transfer in &self.carried_out {
            if transfer.from == Endpoint::Holder(holder) && transfer.to == Endpoint::Custody {
                sum += transfer.amount;
            }
        }
        sum
    }
}

fn business() -> Identity {
    Identity::Account(AccountAddress { bytes: [1; 32] })
}

fn worker() -> Identity {
    Identity::Account(AccountAddress { bytes: [2; 32] })
}

fn fresh() -> EscrowState {
    init(AccountAddress { bytes: [9; 32] }, ContractAddress { index: 77, subindex: 0 })
}

fn create(state: &mut EscrowState, service: &mut Service, works: bool) -> Result<(), EscrowError> {
    let instruction = transfer_for_create(state, business(), 1, 100)?;
    let outcome = service.transfer(instruction, works);
    create_escrow(state, business(), 50, 1, worker(), 100, 0, 0, 5, outcome)
}

fn verify(
    state: &mut EscrowState,
    service: &mut Service,
    lat: i64,
    lng: i64,
    works: bool,
) -> Result<(), EscrowError> {
    let instruction = transfer_for_release(state, 1, lat, lng)?;
    let outcome = service.transfer(instruction, works);
    verify_and_release(state, 1, lat, lng, outcome)
}

fn retry(state: &mut EscrowState, service: &mut Service, works: bool) -> Result<(), EscrowError> {
    let instruction = transfer_for_retry(state, 1)?;
    let outcome = service.transfer(instruction, works);
    retry_release(state, 1, outcome)
}

fn cancel(
    state: &mut EscrowState,
    service: &mut Service,
    sender: Identity,
    works: bool,
) -> Result<(), EscrowError> {
    let instruction = transfer_for_cancel(state, sender, 1)?;
    let outcome = service.transfer(instruction, works);
    cancel_escrow(state, sender, 1, outcome)
}

/// Every request that the ledger knows, with both answers of the service.
fn pester(state: &mut EscrowState, service: &mut Service) {
    for works in [false, true] {
        let _ = create(state, service, works);
        let _ = verify(state, service, 3, 4, works);
        let _ = verify(state, service, 0, 6, works);
        let _ = retry(state, service, works);
        let _ = cancel(state, service, business(), works);
        let _ = cancel(state, service, worker(), works);
    }
}

#[test]
fn released_escrow_pays_the_worker_once_and_nothing_more() {
    let mut state = fresh();
    let mut service = Service::new();
    assert_eq!(create(&mut state, &mut service, true), Ok(()));
    assert_eq!(verify(&mut state, &mut service, 3, 4, true), Ok(()));
    pester(&mut state, &mut service);
    pester(&mut state, &mut service);
    assert_eq!(get_escrow(&state, 1).unwrap().status, EscrowStatus::Released);
    assert_eq!(service.debited_from(business()), 100);
    assert_eq!(service.credited_to(worker()), 100);
    assert_eq!(service.credited_to(business()), 0);
    assert_eq!(service.carried_out.len(), 2);
}

#[test]
fn cancelled_escrow_refunds_the_business_once_and_nothing_more() {
    let mut state = fresh();
    let mut service = Service::new();
    assert_eq!(create(&mut state, &mut service, true), Ok(()));
    assert_eq!(cancel(&mut state, &mut service, business(), true), Ok(()));
    pester(&mut state, &mut service);
    pester(&mut state, &mut service);
    assert_eq!(get_escrow(&state, 1).unwrap().status, EscrowStatus::Cancelled);
    assert_eq!(service.debited_from(business()), 100);
    assert_eq!(service.credited_to(business()), 100);
    assert_eq!(service.credited_to(worker()), 0);
    assert_eq!(service.carried_out.len(), 2);
}

#[test]
fn retried_payout_pays_the_worker_once() {
    let mut state = fresh();
    let mut service = Service::new();
    assert_eq!(create(&mut state, &mut service, true), Ok(()));
    assert_eq!(verify(&mut state, &mut service, 3, 4, false), Err(EscrowError::TransferFailed));
    assert_eq!(service.credited_to(worker()), 0);
    assert_eq!(cancel(&mut state, &mut service, business(), true), Err(EscrowError::InvalidState));
    assert_eq!(retry(&mut state, &mut service, false), Err(EscrowError::TransferFailed));
    assert_eq!(retry(&mut state, &mut service, true), Ok(()));
    pester(&mut state, &mut service);
    assert_eq!(service.credited_to(worker()), 100);
    assert_eq!(service.credited_to(business()), 0);
    assert_eq!(service.debited_from(business()), 100);
}

#[test]
fn refused_requests_ask_for_no_transfer() {
    let mut state = fresh();
    let mut service = Service::new();
    assert_eq!(verify(&mut state, &mut service, 3, 4, true), Err(EscrowError::NotFound));
    assert_eq!(retry(&mut state, &mut service, true), Err(EscrowError::NotFound));
    assert_eq!(cancel(&mut state, &mut service, business(), true), Err(EscrowError::NotFound));
    assert!(service.carried_out.is_empty());
    assert_eq!(create(&mut state, &mut service, true), Ok(()));
    assert_eq!(create(&mut state, &mut service, true), Err(EscrowError::DuplicateJob));
    assert_eq!(verify(&mut state, &mut service, 0, 6, true), Err(EscrowError::OutOfRange));
    assert_eq!(retry(&mut state, &mut service, true), Err(EscrowError::InvalidState));
    assert_eq!(cancel(&mut state, &mut service, worker(), true), Err(EscrowError::Unauthorized));
    assert_eq!(service.carried_out.len(), 1);
    assert_eq!(service.debited_from(business()), 100);
}

#[test]
fn failed_deposit_leaves_nothing_to_settle() {
    let mut state = fresh();
    let mut service = Service::new();
    assert_eq!(create(&mut state, &mut service, false), Err(EscrowError::TransferFailed));
    assert_eq!(verify(&mut state, &mut service, 3, 4, true), Err(EscrowError::NotFound));
    assert_eq!(cancel(&mut state, &mut service, business(), true), Err(EscrowError::NotFound));
    assert!(service.carried_out.is_empty());
    assert!(state.escrows.is_empty());
}

/// How far along a status is: a record never goes to a lower rank.
fn rank(status: EscrowStatus) -> u8 {
    match status {
        EscrowStatus::Created => 0,
        EscrowStatus::Verified => 1,
        EscrowStatus::Released => 2,
        EscrowStatus::Cancelled => 2,
    }
}

#[test]
fn status_never_moves_backward() {
    let mut state = fresh();
    let mut service = Service::new();
    assert_eq!(create(&mut state, &mut service, true), Ok(()));
    let mut seen = vec![get_escrow(&state, 1).unwrap().status];
    let steps: [(u8, bool); 9] = [
        (1, true),
        (2, true),
        (0, false),
        (2, false),
        (3, false),
        (1, false),
        (3, true),
        (0, true),
        (2, true),
    ];
    for (kind, works) in steps {
        let before = get_escrow(&state, 1).unwrap();
        let _ = match kind {
            0 => verify(&mut state, &mut service, 3, 4, works),
            1 => verify(&mut state, &mut service, 9, 9, works),
            2 => retry(&mut state, &mut service, works),
            _ => cancel(&mut state, &mut service, worker(), works),
        };
        let after = get_escrow(&state, 1).unwrap();
        assert!(rank(after.status) >= rank(before.status));
        assert_eq!(after.business, before.business);
        assert_eq!(after.worker, before.worker);
        assert_eq!(after.amount, before.amount);
        assert_eq!(after.created_at, before.created_at);
        if after.status != before.status {
            seen.push(after.status);
        }
    }
    assert_eq!(seen, vec![EscrowStatus::Created, EscrowStatus::Verified, EscrowStatus::Released]);
}
