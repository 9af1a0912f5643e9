//! Properties of the escrow lifecycle, stated over the instructions' spec
//! functions and proved.

use vstd::prelude::*;
use vstd::utf8::encode_utf8;
use crate::address::{escrow_seeds, found_program_address_of};
use crate::accounts::{Account, ErrorCode, EscrowAccount};
use crate::instructions::{
    ApproveRelease, CreateEscrow, SubmitWork, TriggerAutoRelease, MAX_ESCROW_ID_LEN,
    approve_release_result, at_own_address, byte_len, create_escrow_error, same,
    submit_work_result, trigger_auto_release_result,
};

verus! {

/// Creation succeeds for every positive amount and every deadline after the
/// current time, once the identifier fits, the account is the fresh one that
/// the deal's seeds derive, and the client can pay.
pub proof fn lemma_create_succeeds(ctx: CreateEscrow, escrow_id: Seq<char>, amount: u64, deadline: i64, now: i64)
    requires
        amount > 0,
        deadline > now,
        byte_len(escrow_id) <= MAX_ESCROW_ID_LEN,
        ctx.escrow.data is None,
        found_program_address_of(
            escrow_seeds(ctx.client.key.bytes@, ctx.freelancer.bytes@, encode_utf8(escrow_id)),
            ctx.program_id.bytes@,
        ) matches Some((k, _)) && k == ctx.escrow.key.bytes@,
        ctx.client.lamports >= amount,
        ctx.escrow.lamports + amount <= u64::MAX,
    ensures
        create_escrow_error(ctx, escrow_id, amount, deadline, now) is None,
{
}

/// An identifier longer than the limit is always refused as too long.
pub proof fn lemma_create_rejects_long_id(ctx: CreateEscrow, escrow_id: Seq<char>, amount: u64, deadline: i64, now: i64)
    requires
        byte_len(escrow_id) > MAX_ESCROW_ID_LEN,
    ensures
        create_escrow_error(ctx, escrow_id, amount, deadline, now) == Some(ErrorCode::EscrowIdTooLong),
{
}

/// Only the record's freelancer can submit; anyone else is refused.
pub proof fn lemma_submit_only_by_freelancer(ctx: SubmitWork, metadata_ref: String)
    requires
        ctx.escrow.data matches Some(e) && !same(e.freelancer, ctx.freelancer),
    ensures
        submit_work_result(ctx, metadata_ref) == Err::<SubmitWork, ErrorCode>(ErrorCode::UnauthorizedFreelancer),
{
}

/// An authorized approval of work that was never submitted is refused.
pub proof fn lemma_approve_needs_submission(ctx: ApproveRelease, reserve: u64)
    requires
        ctx.escrow.data matches Some(e) && {
            &&& same(e.client, ctx.client)
            &&& at_own_address(ctx.program_id, ctx.escrow, e)
            &&& same(ctx.freelancer.key, e.freelancer)
            &&& !e.is_submitted
        },
    ensures
        approve_release_result(ctx, reserve) == Err::<ApproveRelease, ErrorCode>(ErrorCode::WorkNotSubmitted),
{
}

/// A successful approval pays the freelancer exactly the escrow balance above
/// the reserve, takes it from the escrow account, and releases the record with
/// no amount left attributed to it.
pub proof fn lemma_approve_pays_balance_above_reserve(ctx: ApproveRelease, reserve: u64)
    requires
        approve_release_result(ctx, reserve) is Ok,
    ensures
        ({
            let c = approve_release_result(ctx, reserve)->Ok_0;
            let t = if ctx.escrow.lamports > reserve { ctx.escrow.lamports - reserve } else { 0 };
            &&& c.freelancer.lamports == ctx.freelancer.lamports + t
            &&& c.escrow.lamports == ctx.escrow.lamports - t
            &&& c.escrow.data matches Some(e) && e.is_released && e.amount == 0
        }),
{
}

/// Approving a record twice: the second call is refused as already released.
pub proof fn lemma_second_approve_fails(ctx: ApproveRelease, reserve: u64, reserve2: u64)
    requires
        approve_release_result(ctx, reserve) is Ok,
    ensures
        approve_release_result(approve_release_result(ctx, reserve)->Ok_0, reserve2)
            == Err::<ApproveRelease, ErrorCode>(ErrorCode::AlreadyReleased),
{
}

/// Before the deadline, automatic release of submitted, unreleased work is
/// refused as early.
pub proof fn lemma_auto_release_waits_for_deadline(ctx: TriggerAutoRelease, now: i64, reserve: u64)
    requires
        ctx.escrow.data matches Some(e) && {
            &&& at_own_address(ctx.program_id, ctx.escrow, e)
            &&& same(ctx.freelancer.key, e.freelancer)
            &&& e.is_submitted
            &&& !e.is_released
            &&& now <= e.deadline
        },
    ensures
        trigger_auto_release_result(ctx, now, reserve) == Err::<TriggerAutoRelease, ErrorCode>(
            ErrorCode::DeadlineNotPassed,
        ),
{
}

/// After the deadline, automatic release of a record succeeds exactly where
/// the client's approval of it would, with the same effect on the escrow
/// account and on the freelancer's wallet.
pub proof fn lemma_auto_release_acts_as_approval(a: ApproveRelease, t: TriggerAutoRelease, now: i64, reserve: u64)
    requires
        a.program_id == t.program_id,
        a.escrow == t.escrow,
        a.freelancer == t.freelancer,
        a.escrow.data matches Some(e) && same(e.client, a.client) && now > e.deadline,
    ensures
        approve_release_result(a, reserve) is Ok <==> trigger_auto_release_result(t, now, reserve) is Ok,
        approve_release_result(a, reserve) is Ok ==> {
            &&& approve_release_result(a, reserve)->Ok_0.escrow == trigger_auto_release_result(t, now, reserve)->Ok_0.escrow
            &&& approve_release_result(a, reserve)->Ok_0.freelancer == trigger_auto_release_result(t, now, reserve)->Ok_0.freelancer
        },
{
}

/// Work that was never submitted is never released automatically, however
/// late: the refusal names the missing submission, not the deadline.
pub proof fn lemma_auto_release_needs_submission(ctx: TriggerAutoRelease, now: i64, reserve: u64)
    requires
        ctx.escrow.data matches Some(e) && {
            &&& at_own_address(ctx.program_id, ctx.escrow, e)
            &&& same(ctx.freelancer.key, e.freelancer)
            &&& !e.is_submitted
        },
    ensures
        trigger_auto_release_result(ctx, now, reserve) == Err::<TriggerAutoRelease, ErrorCode>(
            ErrorCode::WorkNotSubmitted,
        ),
{
}

/// A released (well-formed) record is terminal: no submission, approval or automatic release
/// on it succeeds, and each one that gets past the account checks is refused
/// as already released.
pub proof fn lemma_released_is_terminal(
    escrow: Account<EscrowAccount>,
    s: SubmitWork,
    metadata_ref: String,
    a: ApproveRelease,
    t: TriggerAutoRelease,
    now: i64,
    reserve: u64,
)
    requires
        escrow.data matches Some(e) && e.is_released && e.wf(),
        s.escrow == escrow,
        a.escrow == escrow,
        t.escrow == escrow,
    ensures
        submit_work_result(s, metadata_ref) is Err,
        approve_release_result(a, reserve) is Err,
        trigger_auto_release_result(t, now, reserve) is Err,
        escrow.data matches Some(e) && same(a.client, e.client) && same(a.freelancer.key, e.freelancer)
            && at_own_address(a.program_id, escrow, e) ==> approve_release_result(a, reserve)
            == Err::<ApproveRelease, ErrorCode>(ErrorCode::AlreadyReleased),
        escrow.data matches Some(e) && same(t.freelancer.key, e.freelancer) && at_own_address(t.program_id, escrow, e)
            ==> trigger_auto_release_result(t, now, reserve) == Err::<TriggerAutoRelease, ErrorCode>(
            ErrorCode::AlreadyReleased,
        ),
{
}

/// At most one release of a record ever succeeds: after a successful approval
/// no automatic release of the record succeeds, and after a successful
/// automatic release no approval does.
pub proof fn lemma_release_happens_once(
    a: ApproveRelease,
    t: TriggerAutoRelease,
    now: i64,
    reserve: u64,
    reserve2: u64,
)
    ensures
        approve_release_result(a, reserve) is Ok ==> trigger_auto_release_result(
            TriggerAutoRelease { escrow: approve_release_result(a, reserve)->Ok_0.escrow, ..t },
            now,
            reserve2,
        ) is Err,
        trigger_auto_release_result(t, now, reserve) is Ok ==> approve_release_result(
            ApproveRelease { escrow: trigger_auto_release_result(t, now, reserve)->Ok_0.escrow, ..a },
            reserve2,
        ) is Err,
{
}

/// Every instruction keeps a record well formed: released only after
/// submission, and with nothing attributed once released.
pub proof fn lemma_instructions_keep_records_well_formed(
    s: SubmitWork,
    metadata_ref: String,
    a: ApproveRelease,
    t: TriggerAutoRelease,
    now: i64,
    reserve: u64,
)
    ensures
        s.escrow.data matches Some(e) && e.wf() && submit_work_result(s, metadata_ref) is Ok
            ==> submit_work_result(s, metadata_ref)->Ok_0.escrow.data->0.wf(),
        approve_release_result(a, reserve) is Ok ==> approve_release_result(a, reserve)->Ok_0.escrow.data->0.wf(),
        trigger_auto_release_result(t, now, reserve) is Ok
            ==> trigger_auto_release_result(t, now, reserve)->Ok_0.escrow.data->0.wf(),
{
}

} // verus!
