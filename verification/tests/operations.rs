use tokenvesting::error::ErrorCode;
use tokenvesting::ledger::{
    ClaimTokens, CreateEmployeeAccount, CreateVestingAccount, VestingLedger,
};
use tokenvesting::pubkey::Pubkey;

fn pk(id: u64) -> Pubkey {
    Pubkey { id }
}

const ADMIN: u64 = 1;
const MINT: u64 = 2;
const TREASURY: u64 = 3;
const EMPLOYEE: u64 = 4;
const EMPLOYEE_TOKENS: u64 = 9;

/// A ledger with one schedule for "acme" and one grant:
/// start 0, end 1000, cliff 100, total 1000.
fn acme_ledger() -> (VestingLedger, Pubkey, Pubkey) {
    let mut ledger = VestingLedger::new();
    let schedule_ctx = CreateVestingAccount {
        signer: pk(ADMIN),
        mint: pk(MINT),
        treasury_token_account: pk(TREASURY),
        treasury_bump: 254,
        bump: 255,
    };
    ledger
        .create_vesting_account(schedule_ctx, "acme".to_string())
        .unwrap();
    let schedule = ledger.schedule_address(&"acme".to_string()).unwrap();
    let grant_ctx = CreateEmployeeAccount {
        owner: pk(ADMIN),
        beneficiary: pk(EMPLOYEE),
        vesting_account: schedule,
        bump: 253,
    };
    ledger
        .create_employee_account(grant_ctx, 0, 1000, 1000, 100)
        .unwrap();
    let grant = ledger.grant_address(pk(EMPLOYEE), schedule).unwrap();
    (ledger, schedule, grant)
}

fn claim_ctx(grant: Pubkey) -> ClaimTokens {
    ClaimTokens {
        beneficiary: pk(EMPLOYEE),
        employee_account: grant,
        mint: pk(MINT),
        treasury_token_account: pk(TREASURY),
        employee_token_account: pk(EMPLOYEE_TOKENS),
    }
}

#[test]
fn schedule_record_is_stored_as_given() {
    let (ledger, schedule, _) = acme_ledger();
    let account = ledger.get_vesting_account(schedule).unwrap();
    assert_eq!(account.owner, pk(ADMIN));
    assert_eq!(account.mint, pk(MINT));
    assert_eq!(account.treasury_token_account, pk(TREASURY));
    assert_eq!(account.company_name, "acme");
    assert_eq!(account.treasury_bump, 254);
    assert_eq!(account.bump, 255);
}

#[test]
fn grant_record_starts_with_zero_withdrawn() {
    let (ledger, schedule, grant) = acme_ledger();
    let account = ledger.get_employee_account(grant).unwrap();
    assert_eq!(account.beneficiary, pk(EMPLOYEE));
    assert_eq!(account.start_time, 0);
    assert_eq!(account.end_time, 1000);
    assert_eq!(account.cliff_time, 100);
    assert_eq!(account.vesting_account, schedule);
    assert_eq!(account.total_amount, 1000);
    assert_eq!(account.total_withdrawn, 0);
}

#[test]
fn duplicate_schedule_is_rejected() {
    let (mut ledger, _, _) = acme_ledger();
    let ctx = CreateVestingAccount {
        signer: pk(7),
        mint: pk(8),
        treasury_token_account: pk(9),
        treasury_bump: 1,
        bump: 2,
    };
    assert_eq!(
        ledger.create_vesting_account(ctx, "acme".to_string()),
        Err(ErrorCode::AlreadyExists)
    );
    // A different name is fine.
    assert_eq!(ledger.create_vesting_account(ctx, "zenith".to_string()), Ok(()));
}

#[test]
fn over_long_company_name_is_rejected() {
    let mut ledger = VestingLedger::new();
    let ctx = CreateVestingAccount {
        signer: pk(ADMIN),
        mint: pk(MINT),
        treasury_token_account: pk(TREASURY),
        treasury_bump: 254,
        bump: 255,
    };
    let name: String = std::iter::repeat('x').take(51).collect();
    assert_eq!(
        ledger.create_vesting_account(ctx, name),
        Err(ErrorCode::CompanyNameTooLong)
    );
    let name50: String = std::iter::repeat('x').take(50).collect();
    assert_eq!(ledger.create_vesting_account(ctx, name50), Ok(()));
}

#[test]
fn only_the_owner_creates_grants() {
    let (mut ledger, schedule, _) = acme_ledger();
    let ctx = CreateEmployeeAccount {
        owner: pk(42),
        beneficiary: pk(5),
        vesting_account: schedule,
        bump: 0,
    };
    assert_eq!(
        ledger.create_employee_account(ctx, 0, 10, 10, 0),
        Err(ErrorCode::Unauthorized)
    );
}

#[test]
fn grant_under_missing_schedule_is_rejected() {
    let (mut ledger, _, _) = acme_ledger();
    let ctx = CreateEmployeeAccount {
        owner: pk(ADMIN),
        beneficiary: pk(5),
        vesting_account: pk(77),
        bump: 0,
    };
    assert_eq!(
        ledger.create_employee_account(ctx, 0, 10, 10, 0),
        Err(ErrorCode::AccountNotFound)
    );
}

#[test]
fn double_grant_for_same_pair_is_rejected() {
    let (mut ledger, schedule, grant) = acme_ledger();
    let ctx = CreateEmployeeAccount {
        owner: pk(ADMIN),
        beneficiary: pk(EMPLOYEE),
        vesting_account: schedule,
        bump: 0,
    };
    // The old record stays exactly as it was: no silent overwrite.
    assert_eq!(
        ledger.create_employee_account(ctx, 5, 6, 7, 8),
        Err(ErrorCode::AlreadyExists)
    );
    let account = ledger.get_employee_account(grant).unwrap();
    assert_eq!(account.start_time, 0);
    assert_eq!(account.end_time, 1000);
    // Another beneficiary under the same schedule is fine.
    let other = CreateEmployeeAccount {
        owner: pk(ADMIN),
        beneficiary: pk(5),
        vesting_account: schedule,
        bump: 0,
    };
    assert_eq!(ledger.create_employee_account(other, 0, 10, 10, 0), Ok(()));
}

#[test]
fn degenerate_period_is_accepted_at_creation_and_rejected_at_claim() {
    let (mut ledger, schedule, _) = acme_ledger();
    let ctx = CreateEmployeeAccount {
        owner: pk(ADMIN),
        beneficiary: pk(5),
        vesting_account: schedule,
        bump: 0,
    };
    // start_time == end_time is not validated here ...
    assert_eq!(ledger.create_employee_account(ctx, 50, 50, 1000, 0), Ok(()));
    let grant = ledger.grant_address(pk(5), schedule).unwrap();
    let claim = ClaimTokens {
        beneficiary: pk(5),
        employee_account: grant,
        mint: pk(MINT),
        treasury_token_account: pk(TREASURY),
        employee_token_account: pk(11),
    };
    // ... but the first claim fails with InvalidVestingPeriod.
    assert_eq!(
        ledger.claim_tokens(claim, &"acme".to_string(), 60),
        Err(ErrorCode::InvalidVestingPeriod)
    );
}

#[test]
fn claim_before_cliff_is_too_early() {
    let (mut ledger, _, grant) = acme_ledger();
    assert_eq!(
        ledger.claim_tokens(claim_ctx(grant), &"acme".to_string(), 99),
        Err(ErrorCode::TooEarlyToClaim)
    );
    assert_eq!(
        ledger.claim_tokens(claim_ctx(grant), &"acme".to_string(), i64::MIN),
        Err(ErrorCode::TooEarlyToClaim)
    );
}

#[test]
fn worked_claim_sequence() {
    let (mut ledger, _, grant) = acme_ledger();
    let name = "acme".to_string();

    let first = ledger.claim_tokens(claim_ctx(grant), &name, 100).unwrap();
    assert_eq!(first.amount, 100);
    assert_eq!(first.from, pk(TREASURY));
    assert_eq!(first.to, pk(EMPLOYEE_TOKENS));
    assert_eq!(first.mint, pk(MINT));
    assert_eq!(first.company_name, "acme");
    assert_eq!(first.authority_bump, 254);
    assert_eq!(
        ledger.get_employee_account(grant).unwrap().total_withdrawn,
        100
    );

    let second = ledger.claim_tokens(claim_ctx(grant), &name, 500).unwrap();
    assert_eq!(second.amount, 400);
    assert_eq!(
        ledger.get_employee_account(grant).unwrap().total_withdrawn,
        500
    );

    let third = ledger.claim_tokens(claim_ctx(grant), &name, 1000).unwrap();
    assert_eq!(third.amount, 500);
    assert_eq!(
        ledger.get_employee_account(grant).unwrap().total_withdrawn,
        1000
    );

    assert_eq!(
        ledger.claim_tokens(claim_ctx(grant), &name, 1500),
        Err(ErrorCode::NothingToClaim)
    );
    assert_eq!(
        ledger.get_employee_account(grant).unwrap().total_withdrawn,
        1000
    );
}

#[test]
fn repeated_claim_at_same_time_pays_nothing() {
    let (mut ledger, _, grant) = acme_ledger();
    let name = "acme".to_string();
    let first = ledger.claim_tokens(claim_ctx(grant), &name, 500).unwrap();
    assert_eq!(first.amount, 500);
    assert_eq!(
        ledger.claim_tokens(claim_ctx(grant), &name, 500),
        Err(ErrorCode::NothingToClaim)
    );
    assert_eq!(
        ledger.get_employee_account(grant).unwrap().total_withdrawn,
        500
    );
}

#[test]
fn unauthorized_claims_are_rejected_before_arithmetic() {
    let (mut ledger, _, grant) = acme_ledger();
    let name = "acme".to_string();

    // A different signer, at a time when even the cliff check would fire:
    // the identity check comes first.
    let mut ctx = claim_ctx(grant);
    ctx.beneficiary = pk(66);
    assert_eq!(
        ledger.claim_tokens(ctx, &name, 0),
        Err(ErrorCode::Unauthorized)
    );

    // A substituted mint account.
    let mut ctx = claim_ctx(grant);
    ctx.mint = pk(67);
    assert_eq!(
        ledger.claim_tokens(ctx, &name, 500),
        Err(ErrorCode::Unauthorized)
    );

    // A substituted treasury account.
    let mut ctx = claim_ctx(grant);
    ctx.treasury_token_account = pk(68);
    assert_eq!(
        ledger.claim_tokens(ctx, &name, 500),
        Err(ErrorCode::Unauthorized)
    );

    // Nothing was withdrawn by any of the rejected attempts.
    assert_eq!(
        ledger.get_employee_account(grant).unwrap().total_withdrawn,
        0
    );
}

#[test]
fn claim_against_missing_records() {
    let (mut ledger, _, grant) = acme_ledger();
    assert_eq!(
        ledger.claim_tokens(claim_ctx(grant), &"nadir".to_string(), 500),
        Err(ErrorCode::AccountNotFound)
    );
    let mut ctx = claim_ctx(grant);
    ctx.employee_account = pk(99);
    assert_eq!(
        ledger.claim_tokens(ctx, &"acme".to_string(), 500),
        Err(ErrorCode::AccountNotFound)
    );
}

#[test]
fn overflowing_grant_claim_is_rejected() {
    let (mut ledger, schedule, _) = acme_ledger();
    let ctx = CreateEmployeeAccount {
        owner: pk(ADMIN),
        beneficiary: pk(5),
        vesting_account: schedule,
        bump: 0,
    };
    ledger
        .create_employee_account(ctx, 0, 1000, i64::MAX, 0)
        .unwrap();
    let grant = ledger.grant_address(pk(5), schedule).unwrap();
    let claim = ClaimTokens {
        beneficiary: pk(5),
        employee_account: grant,
        mint: pk(MINT),
        treasury_token_account: pk(TREASURY),
        employee_token_account: pk(11),
    };
    assert_eq!(
        ledger.claim_tokens(claim, &"acme".to_string(), 3),
        Err(ErrorCode::CalculationOverflow)
    );
}

#[test]
fn negative_allocation_never_pays_out() {
    let (mut ledger, schedule, _) = acme_ledger();
    let ctx = CreateEmployeeAccount {
        owner: pk(ADMIN),
        beneficiary: pk(5),
        vesting_account: schedule,
        bump: 0,
    };
    ledger
        .create_employee_account(ctx, 0, 1000, -100, 0)
        .unwrap();
    let grant = ledger.grant_address(pk(5), schedule).unwrap();
    let claim = ClaimTokens {
        beneficiary: pk(5),
        employee_account: grant,
        mint: pk(MINT),
        treasury_token_account: pk(TREASURY),
        employee_token_account: pk(11),
    };
    assert_eq!(
        ledger.claim_tokens(claim, &"acme".to_string(), 500),
        Err(ErrorCode::NothingToClaim)
    );
    assert_eq!(
        ledger.claim_tokens(claim, &"acme".to_string(), 5000),
        Err(ErrorCode::NothingToClaim)
    );
    assert_eq!(
        ledger.get_employee_account(grant).unwrap().total_withdrawn,
        0
    );
}

#[test]
fn address_queries_resolve_only_existing_records() {
    let (mut ledger, schedule, grant) = acme_ledger();
    assert_eq!(ledger.schedule_address(&"acme".to_string()), Some(schedule));
    assert_eq!(ledger.schedule_address(&"nadir".to_string()), None);
    assert_eq!(ledger.grant_address(pk(EMPLOYEE), schedule), Some(grant));
    assert_eq!(ledger.grant_address(pk(55), schedule), None);
    assert!(ledger.get_vesting_account(pk(44)).is_none());
    assert!(ledger.get_employee_account(pk(44)).is_none());

    // A second schedule lives at a distinct address.
    let ctx = CreateVestingAccount {
        signer: pk(ADMIN),
        mint: pk(MINT),
        treasury_token_account: pk(TREASURY),
        treasury_bump: 1,
        bump: 2,
    };
    ledger.create_vesting_account(ctx, "zenith".to_string()).unwrap();
    let other = ledger.schedule_address(&"zenith".to_string()).unwrap();
    assert_ne!(other, schedule);
}

#[test]
fn withdrawn_never_exceeds_allocation() {
    let (mut ledger, _, grant) = acme_ledger();
    let name = "acme".to_string();
    let mut now = 100;
    while now <= 2000 {
        let _ = ledger.claim_tokens(claim_ctx(grant), &name, now);
        let account = ledger.get_employee_account(grant).unwrap();
        assert!(account.total_withdrawn >= 0);
        assert!(account.total_withdrawn <= account.total_amount);
        now += 111;
    }
}
