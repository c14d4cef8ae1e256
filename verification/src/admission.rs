//! The admission routine.
//!
//! Admitting a health-check task validates an authorization chain across
//! the admin, authority, config, daemon and health records, computes the
//! next execution timestamp with checked arithmetic, derives the new
//! task's address from the daemon's address and its counter, embeds a
//! self-describing instruction, and advances the counter — or fails with
//! a specific error and changes nothing at all.

use vstd::prelude::*;

use crate::address::Address;
use crate::error::CronosError;
use crate::instruction::AccountMetaData;
use crate::instruction::InstructionData;
use crate::instruction::lemma_encoded_len;
use crate::pda::check_derivation;
use crate::pda::create_program_address;
use crate::pda::derived_address;
use crate::seeds::authority_seed_vec;
use crate::seeds::authority_seeds;
use crate::seeds::config_seed_vec;
use crate::seeds::config_seeds;
use crate::seeds::daemon_seed_vec;
use crate::seeds::daemon_seeds;
use crate::seeds::health_seed_vec;
use crate::seeds::health_seeds;
use crate::seeds::task_seed_vec;
use crate::seeds::task_seeds;
use crate::state::Authority;
use crate::state::Config;
use crate::state::Daemon;
use crate::state::Health;
use crate::state::Task;
use crate::state::TaskStatus;

verus! {

/// The fixed-width part of a stored task record: an 8-byte record tag,
/// the daemon address, the id, one status byte, the three timestamps,
/// and the salt. The embedded instruction's encoded bytes follow it.
pub const TASK_HEADER_LEN: usize = 8 + 32 + 8 + 1 + 8 + 8 + 8 + 1;

/// A referenced account: where it lives and which program owns it.
pub struct AccountRef {
    pub address: Address,
    pub owner: Address,
}

/// The ledger clock: the address of the clock account and its reading.
pub struct ClockAccount {
    pub address: Address,
    pub unix_timestamp: i64,
}

/// Everything an admission reads or writes: the caller, the four
/// validated records with their account references, and the clock.
pub struct AdminScheduleHealthCheck {
    pub program_id: Address,
    pub admin: Address,
    pub authority: Authority,
    pub authority_account: AccountRef,
    pub clock: ClockAccount,
    pub config: Config,
    pub config_account: AccountRef,
    pub daemon: Daemon,
    pub daemon_account: AccountRef,
    pub health: Health,
    pub health_account: AccountRef,
}

/// What a successful admission hands back for the host to commit: the
/// populated task record, its derived address, and the exact account
/// size to allocate.
pub struct AdmittedTask {
    pub task: Task,
    pub task_address: Address,
    pub space: usize,
}

impl AccountRef {
    pub open spec fn wf(&self) -> bool {
        &&& self.address.wf()
        &&& self.owner.wf()
    }
}

impl AdminScheduleHealthCheck {
    pub open spec fn wf(&self) -> bool {
        &&& self.program_id.wf()
        &&& self.admin.wf()
        &&& self.authority_account.wf()
        &&& self.clock.address.wf()
        &&& self.config.wf()
        &&& self.config_account.wf()
        &&& self.daemon.wf()
        &&& self.daemon_account.wf()
        &&& self.health_account.wf()
    }
}

/// The full authorization chain: the caller is the stored admin, and
/// every record's address re-derives from its documented seeds and
/// stored salt under this program, which also owns the record. The
/// daemon must in addition be owned by the authority.
pub open spec fn authorized(ctx: AdminScheduleHealthCheck) -> bool {
    &&& ctx.admin@ == ctx.config.admin@
    &&& derived_address(authority_seeds(ctx.authority.bump), ctx.program_id@) == Some(
        ctx.authority_account.address@,
    )
    &&& ctx.authority_account.owner@ == ctx.program_id@
    &&& derived_address(config_seeds(ctx.config.bump), ctx.program_id@) == Some(
        ctx.config_account.address@,
    )
    &&& ctx.config_account.owner@ == ctx.program_id@
    &&& derived_address(daemon_seeds(ctx.daemon.owner@, ctx.daemon.bump), ctx.program_id@)
        == Some(ctx.daemon_account.address@)
    &&& ctx.daemon_account.owner@ == ctx.program_id@
    &&& ctx.daemon.owner@ == ctx.authority_account.address@
    &&& derived_address(health_seeds(ctx.health.bump), ctx.program_id@) == Some(
        ctx.health_account.address@,
    )
    &&& ctx.health_account.owner@ == ctx.program_id@
}

/// The address a task admission targets: a pure function of the owning
/// daemon's address, the sequence id, the supplied salt, and the program.
pub open spec fn task_target(
    daemon_address: Seq<u8>,
    id: u64,
    bump: u8,
    program_id: Seq<u8>,
) -> Option<Seq<u8>> {
    derived_address(task_seeds(daemon_address, id, bump), program_id)
}

/// The embedded health-check instruction: this program, with the clock
/// and authority read-only, the daemon writable and signing, the health
/// record writable, and no payload bytes.
pub open spec fn is_health_check_ix(ix: InstructionData, ctx: AdminScheduleHealthCheck) -> bool {
    &&& ix.program_id@ == ctx.program_id@
    &&& ix.accounts@.len() == 4
    &&& ix.accounts@[0].address@ == ctx.clock.address@
    &&& !ix.accounts@[0].is_signer
    &&& !ix.accounts@[0].is_writable
    &&& ix.accounts@[1].address@ == ctx.authority_account.address@
    &&& !ix.accounts@[1].is_signer
    &&& !ix.accounts@[1].is_writable
    &&& ix.accounts@[2].address@ == ctx.daemon_account.address@
    &&& ix.accounts@[2].is_signer
    &&& ix.accounts@[2].is_writable
    &&& ix.accounts@[3].address@ == ctx.health_account.address@
    &&& !ix.accounts@[3].is_signer
    &&& ix.accounts@[3].is_writable
    &&& ix.data@.len() == 0
}

/// Exactly why an admission of `pre` with salt `bump` fails, or `None`
/// where it is owed success: an authorization failure comes first, then
/// a timestamp or counter at the end of its range, then a salt that
/// derives no address.
pub open spec fn admission_failure(pre: AdminScheduleHealthCheck, bump: u8) -> Option<
    CronosError,
> {
    if !authorized(pre) {
        Some(CronosError::AuthorizationFailure)
    } else if pre.clock.unix_timestamp == i64::MAX {
        Some(CronosError::ArithmeticOverflow)
    } else if pre.daemon.task_count == u64::MAX {
        Some(CronosError::ArithmeticOverflow)
    } else if task_target(
        pre.daemon_account.address@,
        pre.daemon.task_count,
        bump,
        pre.program_id@,
    ) is None {
        Some(CronosError::AuthorizationFailure)
    } else {
        None
    }
}

/// Everything a successful admission guarantees: the daemon advanced by
/// exactly one, the health record rewritten from the clock, nothing else
/// moved, and the task populated and addressed deterministically.
pub open spec fn admission_ok(
    pre: AdminScheduleHealthCheck,
    post: AdminScheduleHealthCheck,
    out: AdmittedTask,
    bump: u8,
) -> bool {
    &&& authorized(pre)
    &&& post.daemon.task_count == pre.daemon.task_count + 1
    &&& post.daemon.owner == pre.daemon.owner
    &&& post.daemon.bump == pre.daemon.bump
    &&& post.health.real_time == pre.clock.unix_timestamp
    &&& post.health.target_time == pre.clock.unix_timestamp + 1
    &&& post.health.target_time >= post.health.real_time
    &&& post.health.bump == pre.health.bump
    &&& post.program_id == pre.program_id
    &&& post.admin == pre.admin
    &&& post.authority == pre.authority
    &&& post.authority_account == pre.authority_account
    &&& post.clock == pre.clock
    &&& post.config == pre.config
    &&& post.config_account == pre.config_account
    &&& post.daemon_account == pre.daemon_account
    &&& post.health_account == pre.health_account
    &&& out.task.daemon@ == pre.daemon_account.address@
    &&& out.task.id == pre.daemon.task_count
    &&& is_health_check_ix(out.task.ix, pre)
    &&& out.task.status == TaskStatus::Pending
    &&& out.task.exec_at == pre.clock.unix_timestamp + 1
    &&& out.task.stop_at == i64::MAX
    &&& out.task.recurr == 1
    &&& out.task.bump == bump
    &&& out.task.wf()
    &&& task_target(pre.daemon_account.address@, pre.daemon.task_count, bump, pre.program_id@)
        == Some(out.task_address@)
    &&& out.task_address.wf()
    &&& out.space == TASK_HEADER_LEN + out.task.ix.encoded().len()
}

/// Proves the capability chain before any mutation: each record is
/// checked against its own re-derivation, never against a stored
/// reference.
pub fn validate_authorization(ctx: &AdminScheduleHealthCheck) -> (r: Result<(), CronosError>)
    requires
        ctx.wf(),
    ensures
        r is Ok <==> authorized(*ctx),
        r is Err ==> r == Err::<(), CronosError>(CronosError::AuthorizationFailure),
{
    if !ctx.admin.equals(&ctx.config.admin) {
        return Err(CronosError::AuthorizationFailure);
    }
    let authority_seed_bytes = authority_seed_vec(ctx.authority.bump);
    if !check_derivation(&authority_seed_bytes, &ctx.program_id, &ctx.authority_account.address) {
        return Err(CronosError::AuthorizationFailure);
    }
    if !ctx.authority_account.owner.equals(&ctx.program_id) {
        return Err(CronosError::AuthorizationFailure);
    }
    let config_seed_bytes = config_seed_vec(ctx.config.bump);
    if !check_derivation(&config_seed_bytes, &ctx.program_id, &ctx.config_account.address) {
        return Err(CronosError::AuthorizationFailure);
    }
    if !ctx.config_account.owner.equals(&ctx.program_id) {
        return Err(CronosError::AuthorizationFailure);
    }
    let daemon_seed_bytes = daemon_seed_vec(&ctx.daemon.owner, ctx.daemon.bump);
    if !check_derivation(&daemon_seed_bytes, &ctx.program_id, &ctx.daemon_account.address) {
        return Err(CronosError::AuthorizationFailure);
    }
    if !ctx.daemon_account.owner.equals(&ctx.program_id) {
        return Err(CronosError::AuthorizationFailure);
    }
    if !ctx.daemon.owner.equals(&ctx.authority_account.address) {
        return Err(CronosError::AuthorizationFailure);
    }
    let health_seed_bytes = health_seed_vec(ctx.health.bump);
    if !check_derivation(&health_seed_bytes, &ctx.program_id, &ctx.health_account.address) {
        return Err(CronosError::AuthorizationFailure);
    }
    if !ctx.health_account.owner.equals(&ctx.program_id) {
        return Err(CronosError::AuthorizationFailure);
    }
    Ok(())
}

/// Builds the self-describing instruction that the admitted task embeds.
pub fn build_health_check_instruction(ctx: &AdminScheduleHealthCheck) -> (r: InstructionData)
    requires
        ctx.wf(),
    ensures
        is_health_check_ix(r, *ctx),
        r.wf(),
{
    let mut accounts: Vec<AccountMetaData> = Vec::new();
    accounts.push(
        AccountMetaData {
            address: ctx.clock.address.clone_address(),
            is_signer: false,
            is_writable: false,
        },
    );
    accounts.push(
        AccountMetaData {
            address: ctx.authority_account.address.clone_address(),
            is_signer: false,
            is_writable: false,
        },
    );
    accounts.push(
        AccountMetaData {
            address: ctx.daemon_account.address.clone_address(),
            is_signer: true,
            is_writable: true,
        },
    );
    accounts.push(
        AccountMetaData {
            address: ctx.health_account.address.clone_address(),
            is_signer: false,
            is_writable: true,
        },
    );
    InstructionData { program_id: ctx.program_id.clone_address(), accounts, data: Vec::new() }
}

/// The exact number of bytes to allocate for a task embedding `ix`.
pub fn task_space(ix: &InstructionData) -> (r: usize)
    requires
        ix.wf(),
        TASK_HEADER_LEN + ix.encoded_len() <= usize::MAX,
    ensures
        r == TASK_HEADER_LEN + ix.encoded().len(),
{
    proof {
        lemma_encoded_len(*ix);
    }
    TASK_HEADER_LEN + 32 + 4 + 34 * ix.accounts.len() + 4 + ix.data.len()
}

/// Admits one health-check task: validates the chain, computes the
/// execution window, derives and re-validates the task's address from
/// the supplied salt, rewrites the health record, and advances the
/// daemon's counter — all of it, or none of it.
pub fn handler(ctx: &mut AdminScheduleHealthCheck, bump: u8) -> (r: Result<
    AdmittedTask,
    CronosError,
>)
    requires
        old(ctx).wf(),
    ensures
        match r {
            Ok(out) => admission_failure(*old(ctx), bump) is None && admission_ok(
                *old(ctx),
                *final(ctx),
                out,
                bump,
            ),
            Err(e) => admission_failure(*old(ctx), bump) == Some(e) && *final(ctx) == *old(ctx),
        },
{
    if let Err(e) = validate_authorization(ctx) {
        return Err(e);
    }
    let now = ctx.clock.unix_timestamp;
    let exec_at = match now.checked_add(1) {
        Some(t) => t,
        None => {
            return Err(CronosError::ArithmeticOverflow);
        },
    };
    let new_count = match ctx.daemon.task_count.checked_add(1) {
        Some(c) => c,
        None => {
            return Err(CronosError::ArithmeticOverflow);
        },
    };
    let seed_bytes = task_seed_vec(&ctx.daemon_account.address, ctx.daemon.task_count, bump);
    let task_address = match create_program_address(&seed_bytes, &ctx.program_id) {
        Some(a) => a,
        None => {
            return Err(CronosError::AuthorizationFailure);
        },
    };
    let ix = build_health_check_instruction(ctx);
    let space = task_space(&ix);
    let task = Task {
        daemon: ctx.daemon_account.address.clone_address(),
        id: ctx.daemon.task_count,
        ix,
        status: TaskStatus::Pending,
        exec_at,
        stop_at: i64::MAX,
        recurr: 1,
        bump,
    };
    ctx.health.real_time = now;
    ctx.health.target_time = exec_at;
    ctx.daemon.task_count = new_count;
    Ok(AdmittedTask { task, task_address, space })
}

/// What the host reported back from allocating the task account at the
/// derived address.
#[derive(Clone, Copy, Debug, PartialEq, Eq, Structural)]
pub enum AllocationOutcome {
    /// The account was created at the requested size.
    Created,
    /// An account already exists at the derived address.
    AddressInUse,
    /// The account could not be allocated or funded.
    Failed,
}

/// Maps the host's allocation report onto the admission error taxonomy;
/// the admission commits only on `Created`.
pub fn confirm_allocation(outcome: AllocationOutcome) -> (r: Result<(), CronosError>)
    ensures
        r == (match outcome {
            AllocationOutcome::Created => Ok::<(), CronosError>(()),
            AllocationOutcome::AddressInUse => Err::<(), CronosError>(CronosError::AlreadyExists),
            AllocationOutcome::Failed => Err::<(), CronosError>(CronosError::AllocationFailure),
        }),
{
    match outcome {
        AllocationOutcome::Created => Ok(()),
        AllocationOutcome::AddressInUse => Err(CronosError::AlreadyExists),
        AllocationOutcome::Failed => Err(CronosError::AllocationFailure),
    }
}

} // verus!
