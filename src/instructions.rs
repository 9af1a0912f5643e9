//! The instructions of the escrow program and of its configuration registry.
//!
//! Each instruction either returns `Ok` with its accounts moved to the state
//! that its spec function gives, or returns an error and leaves every account
//! as it was.

use vstd::prelude::*;
use vstd::string::StringSliceAdditionalSpecFns;
use vstd::utf8::encode_utf8;
use crate::address::{
    Address, config_seeds, escrow_seeds, found_program_address_of, is_escrow_address,
    check_escrow_address, find_config_address, find_escrow_address,
};
use crate::accounts::{Account, Config, ErrorCode, EscrowAccount, Wallet};

verus! {

/// Longest escrow identifier, in bytes.
pub const MAX_ESCROW_ID_LEN: usize = 32;

/// Longest metadata reference, in bytes.
pub const MAX_METADATA_LEN: usize = 256;

/// The accounts of `initialize_config`.
#[derive(Clone, Debug)]
pub struct InitializeConfig {
    pub program_id: Address,
    pub config: Account<Config>,
    pub authority: Address,
}

/// The accounts of `create_escrow`.
#[derive(Clone, Debug)]
pub struct CreateEscrow {
    pub program_id: Address,
    pub escrow: Account<EscrowAccount>,
    pub client: Wallet,
    pub freelancer: Address,
}

/// The accounts of `submit_work`.
#[derive(Clone, Debug)]
pub struct SubmitWork {
    pub program_id: Address,
    pub escrow: Account<EscrowAccount>,
    pub freelancer: Address,
}

/// The accounts of `approve_release`.
#[derive(Clone, Debug)]
pub struct ApproveRelease {
    pub program_id: Address,
    pub escrow: Account<EscrowAccount>,
    pub client: Address,
    pub freelancer: Wallet,
}

/// The accounts of `trigger_auto_release`.
#[derive(Clone, Debug)]
pub struct TriggerAutoRelease {
    pub program_id: Address,
    pub escrow: Account<EscrowAccount>,
    pub freelancer: Wallet,
}

pub open spec fn same(a: Address, b: Address) -> bool {
    a.bytes@ == b.bytes@
}

/// The UTF-8 length of a string, in bytes.
pub open spec fn byte_len(s: Seq<char>) -> nat {
    encode_utf8(s).len()
}

/// Whether the escrow account sits at the address that its record's seeds
/// and stored bump derive.
pub open spec fn at_own_address(program_id: Address, escrow: Account<EscrowAccount>, e: EscrowAccount) -> bool {
    is_escrow_address(escrow.key, program_id, e.client, e.freelancer, encode_utf8(e.escrow_id@), e.bump)
}

/// What a release moves: the balance above the reserve, or nothing.
pub open spec fn release_amount(lamports: u64, reserve: u64) -> u64 {
    if lamports > reserve {
        (lamports - reserve) as u64
    } else {
        0
    }
}

/// The error of a release of a record to the freelancer's wallet, if any,
/// once the caller has been authorized.
pub open spec fn release_error(e: EscrowAccount, freelancer: Wallet) -> Option<ErrorCode> {
    if !same(freelancer.key, e.freelancer) {
        Some(ErrorCode::UnauthorizedFreelancer)
    } else if !e.is_submitted {
        Some(ErrorCode::WorkNotSubmitted)
    } else if e.is_released {
        Some(ErrorCode::AlreadyReleased)
    } else {
        None
    }
}

/// The record after its release.
pub open spec fn released(e: EscrowAccount) -> EscrowAccount {
    EscrowAccount { is_released: true, amount: 0, ..e }
}

/// The escrow account and the freelancer's wallet after a release.
pub open spec fn released_accounts(
    escrow: Account<EscrowAccount>,
    e: EscrowAccount,
    freelancer: Wallet,
    reserve: u64,
) -> (Account<EscrowAccount>, Wallet) {
    let t = release_amount(escrow.lamports, reserve);
    (
        Account { lamports: (escrow.lamports - t) as u64, data: Some(released(e)), ..escrow },
        Wallet { lamports: (freelancer.lamports + t) as u64, ..freelancer },
    )
}

pub open spec fn release_overflows(escrow: Account<EscrowAccount>, freelancer: Wallet, reserve: u64) -> bool {
    freelancer.lamports + release_amount(escrow.lamports, reserve) > u64::MAX
}

// ---------------------------------------------------------------- config

pub open spec fn initialize_config_result(
    ctx: InitializeConfig,
    fee_bps: u16,
    treasury: Address,
) -> Result<InitializeConfig, ErrorCode> {
    if ctx.config.data is Some {
        Err(ErrorCode::AccountAlreadyInitialized)
    } else {
        match found_program_address_of(config_seeds(ctx.authority.bytes@), ctx.program_id.bytes@) {
            Some((k, b)) => if k == ctx.config.key.bytes@ {
                Ok(
                    InitializeConfig {
                        config: Account {
                            data: Some(
                                Config {
                                    bump: b,
                                    authority: ctx.authority,
                                    is_active: true,
                                    is_paused: false,
                                    fee_bps,
                                    treasury,
                                    version: 1,
                                },
                            ),
                            ..ctx.config
                        },
                        ..ctx
                    },
                )
            } else {
                Err(ErrorCode::ConstraintSeeds)
            },
            None => Err(ErrorCode::ConstraintSeeds),
        }
    }
}

/// Writes the configuration record of `ctx.authority` into the account that
/// its seeds derive. The fee rate is stored as given.
pub fn initialize_config(ctx: &mut InitializeConfig, fee_bps: u16, treasury: Address) -> (r: Result<(), ErrorCode>)
    ensures
        match initialize_config_result(*old(ctx), fee_bps, treasury) {
            Ok(c) => r is Ok && *final(ctx) == c,
            Err(err) => r == Err::<(), ErrorCode>(err) && *final(ctx) == *old(ctx),
        },
{
    if ctx.config.data.is_some() {
        return Err(ErrorCode::AccountAlreadyInitialized);
    }
    let bump = match find_config_address(&ctx.program_id, &ctx.authority) {
        Some((k, b)) => {
            if !k.same_as(&ctx.config.key) {
                return Err(ErrorCode::ConstraintSeeds);
            }
            b
        },
        None => return Err(ErrorCode::ConstraintSeeds),
    };
    ctx.config.data = Some(
        Config {
            bump,
            authority: ctx.authority,
            is_active: true,
            is_paused: false,
            fee_bps,
            treasury,
            version: 1,
        },
    );
    Ok(())
}

// ---------------------------------------------------------------- create

/// The error of `create_escrow`, or `None` where it succeeds.
pub open spec fn create_escrow_error(
    ctx: CreateEscrow,
    escrow_id: Seq<char>,
    amount: u64,
    deadline: i64,
    now: i64,
) -> Option<ErrorCode> {
    if byte_len(escrow_id) > MAX_ESCROW_ID_LEN {
        Some(ErrorCode::EscrowIdTooLong)
    } else if amount == 0 {
        Some(ErrorCode::InvalidAmount)
    } else if deadline <= now {
        Some(ErrorCode::InvalidDeadline)
    } else if ctx.escrow.data is Some {
        Some(ErrorCode::AccountAlreadyInitialized)
    } else if !(found_program_address_of(
        escrow_seeds(ctx.client.key.bytes@, ctx.freelancer.bytes@, encode_utf8(escrow_id)),
        ctx.program_id.bytes@,
    ) matches Some((k, _)) && k == ctx.escrow.key.bytes@) {
        Some(ErrorCode::ConstraintSeeds)
    } else if ctx.client.lamports < amount {
        Some(ErrorCode::InsufficientFunds)
    } else if ctx.escrow.lamports + amount > u64::MAX {
        Some(ErrorCode::BalanceOverflow)
    } else {
        None
    }
}

/// Opens the deal `(client, freelancer, escrow_id)` and funds it with
/// `amount` from the client, at time `now`.
pub fn create_escrow(
    ctx: &mut CreateEscrow,
    escrow_id: String,
    amount: u64,
    deadline: i64,
    now: i64,
) -> (r: Result<(), ErrorCode>)
    ensures
        match create_escrow_error(*old(ctx), escrow_id@, amount, deadline, now) {
            Some(err) => r == Err::<(), ErrorCode>(err) && *final(ctx) == *old(ctx),
            None => {
                &&& r is Ok
                &&& final(ctx).program_id == old(ctx).program_id
                &&& final(ctx).freelancer == old(ctx).freelancer
                &&& final(ctx).client.key == old(ctx).client.key
                &&& final(ctx).client.lamports == old(ctx).client.lamports - amount
                &&& final(ctx).escrow.key == old(ctx).escrow.key
                &&& final(ctx).escrow.lamports == old(ctx).escrow.lamports + amount
                &&& final(ctx).escrow.data matches Some(e) && {
                    &&& e.client == old(ctx).client.key
                    &&& e.freelancer == old(ctx).freelancer
                    &&& e.amount == amount
                    &&& e.deadline == deadline
                    &&& !e.is_submitted
                    &&& !e.is_released
                    &&& e.metadata_ref@ == Seq::<char>::empty()
                    &&& e.escrow_id == escrow_id
                    &&& e.wf()
                    &&& found_program_address_of(
                        escrow_seeds(e.client.bytes@, e.freelancer.bytes@, encode_utf8(escrow_id@)),
                        old(ctx).program_id.bytes@,
                    ) == Some((old(ctx).escrow.key.bytes@, e.bump))
                    &&& at_own_address(final(ctx).program_id, final(ctx).escrow, e)
                }
            },
        },
{
    if escrow_id.as_str().as_bytes().len() > MAX_ESCROW_ID_LEN {
        return Err(ErrorCode::EscrowIdTooLong);
    }
    if amount == 0 {
        return Err(ErrorCode::InvalidAmount);
    }
    if deadline <= now {
        return Err(ErrorCode::InvalidDeadline);
    }
    if ctx.escrow.data.is_some() {
        return Err(ErrorCode::AccountAlreadyInitialized);
    }
    let bump = match find_escrow_address(&ctx.program_id, &ctx.client.key, &ctx.freelancer, escrow_id.as_str()) {
        Some((k, b)) => {
            if !k.same_as(&ctx.escrow.key) {
                return Err(ErrorCode::ConstraintSeeds);
            }
            b
        },
        None => return Err(ErrorCode::ConstraintSeeds),
    };
    if ctx.client.lamports < amount {
        return Err(ErrorCode::InsufficientFunds);
    }
    let funded = match ctx.escrow.lamports.checked_add(amount) {
        Some(v) => v,
        None => return Err(ErrorCode::BalanceOverflow),
    };
    ctx.client.lamports = ctx.client.lamports - amount;
    ctx.escrow.lamports = funded;
    ctx.escrow.data = Some(
        EscrowAccount {
            client: ctx.client.key,
            freelancer: ctx.freelancer,
            amount,
            deadline,
            is_submitted: false,
            is_released: false,
            metadata_ref: String::new(),
            escrow_id,
            bump,
        },
    );
    Ok(())
}

// ---------------------------------------------------------------- submit

pub open spec fn submit_work_result(ctx: SubmitWork, metadata_ref: String) -> Result<SubmitWork, ErrorCode> {
    match ctx.escrow.data {
        None => Err(ErrorCode::AccountNotInitialized),
        Some(e) => if !same(e.freelancer, ctx.freelancer) {
            Err(ErrorCode::UnauthorizedFreelancer)
        } else if !at_own_address(ctx.program_id, ctx.escrow, e) {
            Err(ErrorCode::ConstraintSeeds)
        } else if byte_len(metadata_ref@) > MAX_METADATA_LEN {
            Err(ErrorCode::MetadataTooLong)
        } else if e.is_released {
            Err(ErrorCode::AlreadyReleased)
        } else if e.is_submitted {
            Err(ErrorCode::AlreadySubmitted)
        } else {
            Ok(
                SubmitWork {
                    escrow: Account {
                        data: Some(EscrowAccount { metadata_ref, is_submitted: true, ..e }),
                        ..ctx.escrow
                    },
                    ..ctx
                },
            )
        },
    }
}

/// The freelancer records the reference to the finished work. Submission is
/// accepted once, and at any time before release, even past the deadline.
pub fn submit_work(ctx: &mut SubmitWork, metadata_ref: String) -> (r: Result<(), ErrorCode>)
    ensures
        match submit_work_result(*old(ctx), metadata_ref) {
            Ok(c) => r is Ok && *final(ctx) == c,
            Err(err) => r == Err::<(), ErrorCode>(err) && *final(ctx) == *old(ctx),
        },
{
    let (is_submitted, is_released) = match &ctx.escrow.data {
        None => return Err(ErrorCode::AccountNotInitialized),
        Some(e) => {
            if !e.freelancer.same_as(&ctx.freelancer) {
                return Err(ErrorCode::UnauthorizedFreelancer);
            }
            if !check_escrow_address(&ctx.escrow.key, &ctx.program_id, &e.client, &e.freelancer, e.escrow_id.as_str(), e.bump) {
                return Err(ErrorCode::ConstraintSeeds);
            }
            (e.is_submitted, e.is_released)
        },
    };
    if metadata_ref.as_str().as_bytes().len() > MAX_METADATA_LEN {
        return Err(ErrorCode::MetadataTooLong);
    }
    if is_released {
        return Err(ErrorCode::AlreadyReleased);
    }
    if is_submitted {
        return Err(ErrorCode::AlreadySubmitted);
    }
    match &mut ctx.escrow.data {
        Some(e) => {
            e.metadata_ref = metadata_ref;
            e.is_submitted = true;
        },
        None => {},
    }
    Ok(())
}

// ---------------------------------------------------------------- release

/// Moves the balance above `reserve` from the escrow account to the
/// freelancer's wallet and closes the record, once the caller is authorized.
fn release_to_freelancer(
    escrow: &mut Account<EscrowAccount>,
    freelancer: &mut Wallet,
    reserve: u64,
) -> (r: Result<(), ErrorCode>)
    requires
        old(escrow).data is Some,
    ensures
        ({
            let e = old(escrow).data->0;
            match release_error(e, *old(freelancer)) {
                Some(err) => r == Err::<(), ErrorCode>(err) && *final(escrow) == *old(escrow) && *final(freelancer) == *old(freelancer),
                None => if release_overflows(*old(escrow), *old(freelancer), reserve) {
                    r == Err::<(), ErrorCode>(ErrorCode::BalanceOverflow) && *final(escrow) == *old(escrow) && *final(freelancer) == *old(freelancer)
                } else {
                    r is Ok && (*final(escrow), *final(freelancer)) == released_accounts(*old(escrow), e, *old(freelancer), reserve)
                },
            }
        }),
{
    let (is_submitted, is_released) = match &escrow.data {
        Some(e) => {
            if !freelancer.key.same_as(&e.freelancer) {
                return Err(ErrorCode::UnauthorizedFreelancer);
            }
            (e.is_submitted, e.is_released)
        },
        None => return Err(ErrorCode::AccountNotInitialized),
    };
    if !is_submitted {
        return Err(ErrorCode::WorkNotSubmitted);
    }
    if is_released {
        return Err(ErrorCode::AlreadyReleased);
    }
    let transfer_amount = escrow.lamports.saturating_sub(reserve);
    let paid = match freelancer.lamports.checked_add(transfer_amount) {
        Some(v) => v,
        None => return Err(ErrorCode::BalanceOverflow),
    };
    escrow.lamports = escrow.lamports - transfer_amount;
    freelancer.lamports = paid;
    match &mut escrow.data {
        Some(e) => {
            e.is_released = true;
            e.amount = 0;
        },
        None => {},
    }
    Ok(())
}

pub open spec fn approve_release_result(ctx: ApproveRelease, reserve: u64) -> Result<ApproveRelease, ErrorCode> {
    match ctx.escrow.data {
        None => Err(ErrorCode::AccountNotInitialized),
        Some(e) => if !same(e.client, ctx.client) {
            Err(ErrorCode::UnauthorizedClient)
        } else if !at_own_address(ctx.program_id, ctx.escrow, e) {
            Err(ErrorCode::ConstraintSeeds)
        } else if let Some(err) = release_error(e, ctx.freelancer) {
            Err(err)
        } else if release_overflows(ctx.escrow, ctx.freelancer, reserve) {
            Err(ErrorCode::BalanceOverflow)
        } else {
            let (escrow, freelancer) = released_accounts(ctx.escrow, e, ctx.freelancer, reserve);
            Ok(ApproveRelease { escrow, freelancer, ..ctx })
        },
    }
}

/// The client approves the submitted work: everything above `reserve` in the
/// escrow account goes to the freelancer, and the record is released.
pub fn approve_release(ctx: &mut ApproveRelease, reserve: u64) -> (r: Result<(), ErrorCode>)
    ensures
        match approve_release_result(*old(ctx), reserve) {
            Ok(c) => r is Ok && *final(ctx) == c,
            Err(err) => r == Err::<(), ErrorCode>(err) && *final(ctx) == *old(ctx),
        },
{
    match &ctx.escrow.data {
        None => return Err(ErrorCode::AccountNotInitialized),
        Some(e) => {
            if !e.client.same_as(&ctx.client) {
                return Err(ErrorCode::UnauthorizedClient);
            }
            if !check_escrow_address(&ctx.escrow.key, &ctx.program_id, &e.client, &e.freelancer, e.escrow_id.as_str(), e.bump) {
                return Err(ErrorCode::ConstraintSeeds);
            }
        },
    }
    release_to_freelancer(&mut ctx.escrow, &mut ctx.freelancer, reserve)
}

pub open spec fn trigger_auto_release_result(
    ctx: TriggerAutoRelease,
    now: i64,
    reserve: u64,
) -> Result<TriggerAutoRelease, ErrorCode> {
    match ctx.escrow.data {
        None => Err(ErrorCode::AccountNotInitialized),
        Some(e) => if !at_own_address(ctx.program_id, ctx.escrow, e) {
            Err(ErrorCode::ConstraintSeeds)
        } else if let Some(err) = release_error(e, ctx.freelancer) {
            Err(err)
        } else if now <= e.deadline {
            Err(ErrorCode::DeadlineNotPassed)
        } else if release_overflows(ctx.escrow, ctx.freelancer, reserve) {
            Err(ErrorCode::BalanceOverflow)
        } else {
            let (escrow, freelancer) = released_accounts(ctx.escrow, e, ctx.freelancer, reserve);
            Ok(TriggerAutoRelease { escrow, freelancer, ..ctx })
        },
    }
}

/// Anyone releases submitted work once the deadline has passed at time `now`:
/// the same transfer and record change as an approval.
pub fn trigger_auto_release(ctx: &mut TriggerAutoRelease, now: i64, reserve: u64) -> (r: Result<(), ErrorCode>)
    ensures
        match trigger_auto_release_result(*old(ctx), now, reserve) {
            Ok(c) => r is Ok && *final(ctx) == c,
            Err(err) => r == Err::<(), ErrorCode>(err) && *final(ctx) == *old(ctx),
        },
{
    let deadline = match &ctx.escrow.data {
        None => return Err(ErrorCode::AccountNotInitialized),
        Some(e) => {
            if !check_escrow_address(&ctx.escrow.key, &ctx.program_id, &e.client, &e.freelancer, e.escrow_id.as_str(), e.bump) {
                return Err(ErrorCode::ConstraintSeeds);
            }
            if !ctx.freelancer.key.same_as(&e.freelancer) {
                return Err(ErrorCode::UnauthorizedFreelancer);
            }
            if !e.is_submitted {
                return Err(ErrorCode::WorkNotSubmitted);
            }
            if e.is_released {
                return Err(ErrorCode::AlreadyReleased);
            }
            e.deadline
        },
    };
    if now <= deadline {
        return Err(ErrorCode::DeadlineNotPassed);
    }
    release_to_freelancer(&mut ctx.escrow, &mut ctx.freelancer, reserve)
}

} // verus!
