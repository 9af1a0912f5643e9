use freelance_escrow::accounts::{Account, Config, ErrorCode, EscrowAccount, Wallet};
use freelance_escrow::address::{check_escrow_address, find_config_address, find_escrow_address, Address};
use freelance_escrow::instructions::{
    approve_release, create_escrow, initialize_config, submit_work, trigger_auto_release,
    ApproveRelease, CreateEscrow, InitializeConfig, SubmitWork, TriggerAutoRelease,
};

const NOW: i64 = 1_700_000_000;
const RESERVE: u64 = 3_000_000;

fn addr(b: u8) -> Address {
    Address::new_from_array([b; 32])
}

fn program() -> Address {
    addr(7)
}

fn client() -> Address {
    addr(1)
}

fn freelancer() -> Address {
    addr(2)
}

fn fresh_create(escrow_id: &str, client_lamports: u64) -> CreateEscrow {
    let (key, _) = find_escrow_address(&program(), &client(), &freelancer(), escrow_id).unwrap();
    CreateEscrow {
        program_id: program(),
        escrow: Account { key, lamports: 0, data: None },
        client: Wallet { key: client(), lamports: client_lamports },
        freelancer: freelancer(),
    }
}

fn created(escrow_id: &str, amount: u64, deadline: i64) -> Account<EscrowAccount> {
    let mut ctx = fresh_create(escrow_id, 10_000_000);
    create_escrow(&mut ctx, escrow_id.to_string(), amount, deadline, NOW).unwrap();
    ctx.escrow
}

fn submitted(escrow_id: &str, amount: u64, deadline: i64) -> Account<EscrowAccount> {
    let mut ctx = SubmitWork { program_id: program(), escrow: created(escrow_id, amount, deadline), freelancer: freelancer() };
    submit_work(&mut ctx, "ipfs://Qm...".to_string()).unwrap();
    ctx.escrow
}

fn approve_ctx(escrow: Account<EscrowAccount>) -> ApproveRelease {
    ApproveRelease { program_id: program(), escrow, client: client(), freelancer: Wallet { key: freelancer(), lamports: 500 } }
}

fn trigger_ctx(escrow: Account<EscrowAccount>) -> TriggerAutoRelease {
    TriggerAutoRelease { program_id: program(), escrow, freelancer: Wallet { key: freelancer(), lamports: 500 } }
}

#[test]
fn create_moves_exactly_the_amount() {
    let mut ctx = fresh_create("deal-1", 5_000_000);
    assert_eq!(create_escrow(&mut ctx, "deal-1".to_string(), 1_000_000, NOW + 3600, NOW), Ok(()));
    assert_eq!(ctx.client.lamports, 4_000_000);
    assert_eq!(ctx.escrow.lamports, 1_000_000);
    let e = ctx.escrow.data.unwrap();
    assert_eq!(e.client, client());
    assert_eq!(e.freelancer, freelancer());
    assert_eq!(e.amount, 1_000_000);
    assert_eq!(e.deadline, NOW + 3600);
    assert!(!e.is_submitted);
    assert!(!e.is_released);
    assert_eq!(e.metadata_ref, "");
    assert_eq!(e.escrow_id, "deal-1");
    let (_, bump) = find_escrow_address(&program(), &client(), &freelancer(), "deal-1").unwrap();
    assert_eq!(e.bump, bump);
}

#[test]
fn create_rejects_long_id() {
    let id = "x".repeat(33);
    let mut ctx = CreateEscrow {
        program_id: program(),
        escrow: Account { key: addr(9), lamports: 0, data: None },
        client: Wallet { key: client(), lamports: 5_000_000 },
        freelancer: freelancer(),
    };
    assert_eq!(create_escrow(&mut ctx, id, 1_000, NOW + 10, NOW), Err(ErrorCode::EscrowIdTooLong));
    assert!(ctx.escrow.data.is_none());
    assert_eq!(ctx.escrow.lamports, 0);
    assert_eq!(ctx.client.lamports, 5_000_000);
}

#[test]
fn create_accepts_id_of_exactly_32_bytes() {
    let id = "y".repeat(32);
    let mut ctx = fresh_create(&id, 5_000_000);
    assert_eq!(create_escrow(&mut ctx, id, 1_000, NOW + 10, NOW), Ok(()));
}

#[test]
fn create_rejects_zero_amount() {
    let mut ctx = fresh_create("deal-2", 5_000_000);
    assert_eq!(create_escrow(&mut ctx, "deal-2".to_string(), 0, NOW + 10, NOW), Err(ErrorCode::InvalidAmount));
    assert!(ctx.escrow.data.is_none());
}

#[test]
fn create_rejects_deadline_not_in_future() {
    let mut ctx = fresh_create("deal-3", 5_000_000);
    assert_eq!(create_escrow(&mut ctx, "deal-3".to_string(), 10, NOW, NOW), Err(ErrorCode::InvalidDeadline));
    assert_eq!(create_escrow(&mut ctx, "deal-3".to_string(), 10, NOW - 1, NOW), Err(ErrorCode::InvalidDeadline));
    assert_eq!(ctx.client.lamports, 5_000_000);
}

#[test]
fn create_rejects_wrong_account() {
    let mut ctx = fresh_create("deal-4", 5_000_000);
    ctx.escrow.key = addr(9);
    assert_eq!(create_escrow(&mut ctx, "deal-4".to_string(), 10, NOW + 10, NOW), Err(ErrorCode::ConstraintSeeds));
}

#[test]
fn create_rejects_existing_record() {
    let escrow = created("deal-5", 10, NOW + 10);
    let mut ctx = fresh_create("deal-5", 5_000_000);
    ctx.escrow = escrow;
    assert_eq!(
        create_escrow(&mut ctx, "deal-5".to_string(), 10, NOW + 10, NOW),
        Err(ErrorCode::AccountAlreadyInitialized)
    );
}

#[test]
fn create_rejects_unfunded_client() {
    let mut ctx = fresh_create("deal-6", 99);
    assert_eq!(create_escrow(&mut ctx, "deal-6".to_string(), 100, NOW + 10, NOW), Err(ErrorCode::InsufficientFunds));
    assert_eq!(ctx.client.lamports, 99);
}

#[test]
fn create_rejects_balance_overflow() {
    let mut ctx = fresh_create("deal-7", 100);
    ctx.escrow.lamports = u64::MAX;
    assert_eq!(create_escrow(&mut ctx, "deal-7".to_string(), 1, NOW + 10, NOW), Err(ErrorCode::BalanceOverflow));
}

#[test]
fn submit_by_other_identity_is_refused() {
    let mut ctx = SubmitWork { program_id: program(), escrow: created("deal-8", 10, NOW + 10), freelancer: addr(3) };
    assert_eq!(submit_work(&mut ctx, "ipfs://x".to_string()), Err(ErrorCode::UnauthorizedFreelancer));
    assert!(!ctx.escrow.data.unwrap().is_submitted);
}

#[test]
fn submit_records_metadata_once() {
    let mut ctx = SubmitWork { program_id: program(), escrow: created("deal-9", 10, NOW + 10), freelancer: freelancer() };
    assert_eq!(submit_work(&mut ctx, "ipfs://Qm...".to_string()), Ok(()));
    let e = ctx.escrow.data.clone().unwrap();
    assert!(e.is_submitted);
    assert_eq!(e.metadata_ref, "ipfs://Qm...");
    assert_eq!(submit_work(&mut ctx, "ipfs://other".to_string()), Err(ErrorCode::AlreadySubmitted));
    assert_eq!(ctx.escrow.data.unwrap().metadata_ref, "ipfs://Qm...");
}

#[test]
fn submit_rejects_long_metadata() {
    let mut ctx = SubmitWork { program_id: program(), escrow: created("deal-10", 10, NOW + 10), freelancer: freelancer() };
    assert_eq!(submit_work(&mut ctx, "m".repeat(257)), Err(ErrorCode::MetadataTooLong));
    assert_eq!(submit_work(&mut ctx, "m".repeat(256)), Ok(()));
}

#[test]
fn submit_rejects_missing_record_and_wrong_account() {
    let mut empty = SubmitWork {
        program_id: program(),
        escrow: Account { key: addr(9), lamports: 0, data: None },
        freelancer: freelancer(),
    };
    assert_eq!(submit_work(&mut empty, "m".to_string()), Err(ErrorCode::AccountNotInitialized));
    let mut escrow = created("deal-11", 10, NOW + 10);
    escrow.key = addr(9);
    let mut moved = SubmitWork { program_id: program(), escrow, freelancer: freelancer() };
    assert_eq!(submit_work(&mut moved, "m".to_string()), Err(ErrorCode::ConstraintSeeds));
}

#[test]
fn approve_before_submit_is_refused() {
    let mut ctx = approve_ctx(created("deal-12", 1_000, NOW + 10));
    assert_eq!(approve_release(&mut ctx, RESERVE), Err(ErrorCode::WorkNotSubmitted));
    assert_eq!(ctx.freelancer.lamports, 500);
}

#[test]
fn approve_pays_balance_above_reserve_once() {
    let mut ctx = approve_ctx(submitted("deal-13", 5_000_000, NOW + 10));
    assert_eq!(approve_release(&mut ctx, RESERVE), Ok(()));
    assert_eq!(ctx.freelancer.lamports, 500 + 2_000_000);
    assert_eq!(ctx.escrow.lamports, RESERVE);
    let e = ctx.escrow.data.clone().unwrap();
    assert!(e.is_released);
    assert_eq!(e.amount, 0);
    assert_eq!(approve_release(&mut ctx, RESERVE), Err(ErrorCode::AlreadyReleased));
    assert_eq!(ctx.freelancer.lamports, 2_000_500);
    assert_eq!(ctx.escrow.lamports, RESERVE);
}

#[test]
fn approve_with_balance_below_reserve_moves_nothing() {
    let mut ctx = approve_ctx(submitted("deal-14", 1_000, NOW + 10));
    assert_eq!(approve_release(&mut ctx, RESERVE), Ok(()));
    assert_eq!(ctx.freelancer.lamports, 500);
    assert_eq!(ctx.escrow.lamports, 1_000);
    assert!(ctx.escrow.data.unwrap().is_released);
}

#[test]
fn approve_by_other_client_is_refused() {
    let mut ctx = approve_ctx(submitted("deal-15", 5_000_000, NOW + 10));
    ctx.client = addr(4);
    assert_eq!(approve_release(&mut ctx, RESERVE), Err(ErrorCode::UnauthorizedClient));
}

#[test]
fn approve_to_impostor_is_refused() {
    let mut ctx = approve_ctx(submitted("deal-16", 5_000_000, NOW + 10));
    ctx.freelancer.key = addr(5);
    assert_eq!(approve_release(&mut ctx, RESERVE), Err(ErrorCode::UnauthorizedFreelancer));
    assert_eq!(ctx.escrow.lamports, 5_000_000);
}

#[test]
fn approve_refuses_wallet_overflow() {
    let mut ctx = approve_ctx(submitted("deal-17", 5_000_000, NOW + 10));
    ctx.freelancer.lamports = u64::MAX;
    assert_eq!(approve_release(&mut ctx, RESERVE), Err(ErrorCode::BalanceOverflow));
    assert!(!ctx.escrow.data.unwrap().is_released);
}

#[test]
fn auto_release_before_deadline_is_refused() {
    let mut ctx = trigger_ctx(submitted("deal-18", 5_000_000, NOW + 10));
    assert_eq!(trigger_auto_release(&mut ctx, NOW + 10, RESERVE), Err(ErrorCode::DeadlineNotPassed));
    assert_eq!(trigger_auto_release(&mut ctx, NOW, RESERVE), Err(ErrorCode::DeadlineNotPassed));
    assert_eq!(ctx.escrow.lamports, 5_000_000);
}

#[test]
fn auto_release_after_deadline_matches_approval() {
    let escrow = submitted("deal-19", 5_000_000, NOW + 10);
    let mut a = approve_ctx(escrow.clone());
    let mut t = trigger_ctx(escrow);
    assert_eq!(approve_release(&mut a, RESERVE), Ok(()));
    assert_eq!(trigger_auto_release(&mut t, NOW + 11, RESERVE), Ok(()));
    assert_eq!(a.freelancer.lamports, t.freelancer.lamports);
    assert_eq!(t.freelancer.lamports, 2_000_500);
    assert_eq!(a.escrow.lamports, t.escrow.lamports);
    let (ea, et) = (a.escrow.data.unwrap(), t.escrow.data.unwrap());
    assert_eq!((ea.is_released, ea.amount), (et.is_released, et.amount));
}

#[test]
fn auto_release_to_impostor_is_refused() {
    let mut ctx = trigger_ctx(submitted("deal-20", 5_000_000, NOW + 10));
    ctx.freelancer.key = addr(6);
    assert_eq!(trigger_auto_release(&mut ctx, NOW + 11, RESERVE), Err(ErrorCode::UnauthorizedFreelancer));
}

#[test]
fn only_one_release_succeeds() {
    let mut a = approve_ctx(submitted("deal-21", 5_000_000, NOW + 10));
    assert_eq!(approve_release(&mut a, RESERVE), Ok(()));
    let mut t = trigger_ctx(a.escrow.clone());
    assert_eq!(trigger_auto_release(&mut t, NOW + 11, RESERVE), Err(ErrorCode::AlreadyReleased));

    let mut t2 = trigger_ctx(submitted("deal-22", 5_000_000, NOW + 10));
    assert_eq!(trigger_auto_release(&mut t2, NOW + 11, RESERVE), Ok(()));
    let mut a2 = approve_ctx(t2.escrow.clone());
    assert_eq!(approve_release(&mut a2, RESERVE), Err(ErrorCode::AlreadyReleased));
    let mut s = SubmitWork { program_id: program(), escrow: t2.escrow.clone(), freelancer: freelancer() };
    assert_eq!(submit_work(&mut s, "late".to_string()), Err(ErrorCode::AlreadyReleased));
}

#[test]
fn submit_after_deadline_then_auto_release() {
    let mut s = SubmitWork { program_id: program(), escrow: created("deal-23", 5_000_000, NOW + 10), freelancer: freelancer() };
    assert_eq!(submit_work(&mut s, "late work".to_string()), Ok(()));
    let mut t = trigger_ctx(s.escrow);
    assert_eq!(trigger_auto_release(&mut t, NOW + 1_000, RESERVE), Ok(()));
    assert_eq!(t.freelancer.lamports, 2_000_500);
}

#[test]
fn approved_deal_end_to_end() {
    let now = NOW;
    let mut c = fresh_create("job", 2_000_000);
    assert_eq!(create_escrow(&mut c, "job".to_string(), 1_000_000, now + 3600, now), Ok(()));
    let mut s = SubmitWork { program_id: program(), escrow: c.escrow, freelancer: freelancer() };
    assert_eq!(submit_work(&mut s, "ipfs://Qm...".to_string()), Ok(()));
    let reserve: u64 = 2_477_760 / 10;
    let before: u64 = 42;
    let mut a = ApproveRelease {
        program_id: program(),
        escrow: s.escrow,
        client: client(),
        freelancer: Wallet { key: freelancer(), lamports: before },
    };
    assert_eq!(approve_release(&mut a, reserve), Ok(()));
    assert_eq!(a.freelancer.lamports - before, 1_000_000 - reserve);
    assert_eq!(approve_release(&mut a, reserve), Err(ErrorCode::AlreadyReleased));
    let mut t = TriggerAutoRelease { program_id: program(), escrow: a.escrow.clone(), freelancer: a.freelancer };
    assert_eq!(trigger_auto_release(&mut t, now + 7200, reserve), Err(ErrorCode::AlreadyReleased));
    assert_eq!(t.freelancer.lamports - before, 1_000_000 - reserve);
}

#[test]
fn unsubmitted_deal_stays_locked() {
    let now = NOW;
    let mut c = fresh_create("idle", 2_000_000);
    assert_eq!(create_escrow(&mut c, "idle".to_string(), 1_000_000, now + 10, now), Ok(()));
    let mut t = trigger_ctx(c.escrow);
    assert_eq!(trigger_auto_release(&mut t, now + 11, RESERVE), Err(ErrorCode::WorkNotSubmitted));
    assert_eq!(trigger_auto_release(&mut t, now + 1_000_000, RESERVE), Err(ErrorCode::WorkNotSubmitted));
    assert_eq!(t.escrow.lamports, 1_000_000);
    assert_eq!(t.freelancer.lamports, 500);
}

#[test]
fn config_is_written_once_at_its_address() {
    let authority = addr(8);
    let (key, bump) = find_config_address(&program(), &authority).unwrap();
    let mut ctx = InitializeConfig {
        program_id: program(),
        config: Account { key, lamports: 0, data: None },
        authority,
    };
    assert_eq!(initialize_config(&mut ctx, 25_000, addr(9)), Ok(()));
    let cfg: Config = ctx.config.data.unwrap();
    assert_eq!(cfg.bump, bump);
    assert_eq!(cfg.authority, authority);
    assert!(cfg.is_active);
    assert!(!cfg.is_paused);
    assert_eq!(cfg.fee_bps, 25_000);
    assert_eq!(cfg.treasury, addr(9));
    assert_eq!(cfg.version, 1);
    assert_eq!(initialize_config(&mut ctx, 10, addr(9)), Err(ErrorCode::AccountAlreadyInitialized));
    assert_eq!(ctx.config.data.unwrap().fee_bps, 25_000);
}

#[test]
fn config_at_wrong_address_is_refused() {
    let mut ctx = InitializeConfig {
        program_id: program(),
        config: Account { key: addr(9), lamports: 0, data: None },
        authority: addr(8),
    };
    assert_eq!(initialize_config(&mut ctx, 1, addr(9)), Err(ErrorCode::ConstraintSeeds));
    assert!(ctx.config.data.is_none());
}

#[test]
fn derived_addresses_depend_on_every_seed() {
    let (k1, b1) = find_escrow_address(&program(), &client(), &freelancer(), "a").unwrap();
    let (k2, _) = find_escrow_address(&program(), &client(), &freelancer(), "b").unwrap();
    let (k3, _) = find_escrow_address(&program(), &freelancer(), &client(), "a").unwrap();
    let (k4, _) = find_escrow_address(&addr(11), &client(), &freelancer(), "a").unwrap();
    assert_ne!(k1, k2);
    assert_ne!(k1, k3);
    assert_ne!(k1, k4);
    assert_ne!(k1, program());
    assert!(check_escrow_address(&k1, &program(), &client(), &freelancer(), "a", b1));
    assert!(!check_escrow_address(&k2, &program(), &client(), &freelancer(), "a", b1));
    assert!(!check_escrow_address(&k1, &program(), &client(), &freelancer(), "a", b1.wrapping_add(1)));
    let (c1, _) = find_config_address(&program(), &client()).unwrap();
    assert_ne!(c1, k1);
    assert_ne!(c1, client());
}

#[test]
fn error_messages() {
    assert_eq!(ErrorCode::DeadlineNotPassed.message(), "Cannot auto-release before deadline");
    assert_eq!(ErrorCode::EscrowIdTooLong.message(), "Escrow ID exceeds max length");
}
