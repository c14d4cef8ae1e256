use cronos::address::Address;
use cronos::admission::handler;
use cronos::admission::validate_authorization;
use cronos::admission::AccountRef;
use cronos::admission::AdminScheduleHealthCheck;
use cronos::admission::ClockAccount;
use cronos::error::CronosError;
use cronos::state::Authority;
use cronos::state::Config;
use cronos::state::Daemon;
use cronos::state::Health;
use cronos::state::TaskStatus;
use solana_pubkey::Pubkey;

fn addr(pk: &Pubkey) -> Address {
    Address::new(pk.to_bytes().to_vec())
}

fn pk_of(a: &Address) -> Pubkey {
    let bytes: [u8; 32] = a.as_bytes().as_slice().try_into().unwrap();
    Pubkey::new_from_array(bytes)
}

fn setup(task_count: u64, now: i64) -> AdminScheduleHealthCheck {
    let program = Pubkey::new_from_array([7u8; 32]);
    let admin = Pubkey::new_from_array([1u8; 32]);
    let (authority_pk, authority_bump) = Pubkey::find_program_address(&[b"authority"], &program);
    let (config_pk, config_bump) = Pubkey::find_program_address(&[b"config"], &program);
    let (daemon_pk, daemon_bump) =
        Pubkey::find_program_address(&[b"daemon", authority_pk.as_ref()], &program);
    let (health_pk, health_bump) = Pubkey::find_program_address(&[b"health"], &program);
    let clock_pk = Pubkey::new_from_array([9u8; 32]);
    AdminScheduleHealthCheck {
        program_id: addr(&program),
        admin: addr(&admin),
        authority: Authority { bump: authority_bump },
        authority_account: AccountRef { address: addr(&authority_pk), owner: addr(&program) },
        clock: ClockAccount { address: addr(&clock_pk), unix_timestamp: now },
        config: Config { admin: addr(&admin), bump: config_bump },
        config_account: AccountRef { address: addr(&config_pk), owner: addr(&program) },
        daemon: Daemon { owner: addr(&authority_pk), task_count, bump: daemon_bump },
        daemon_account: AccountRef { address: addr(&daemon_pk), owner: addr(&program) },
        health: Health { real_time: 0, target_time: 0, bump: health_bump },
        health_account: AccountRef { address: addr(&health_pk), owner: addr(&program) },
    }
}

fn task_pda(ctx: &AdminScheduleHealthCheck, id: u64) -> (Pubkey, u8) {
    let program = pk_of(&ctx.program_id);
    let daemon_pk = pk_of(&ctx.daemon_account.address);
    Pubkey::find_program_address(&[b"task", daemon_pk.as_ref(), &id.to_be_bytes()], &program)
}

#[test]
fn admits_at_the_derived_address() {
    let mut ctx = setup(0, 1_000_000);
    let (expected_pda, bump) = task_pda(&ctx, 0);
    let out = handler(&mut ctx, bump).unwrap();
    assert_eq!(out.task_address.as_bytes().as_slice(), &expected_pda.to_bytes()[..]);
    assert_eq!(out.task.id, 0);
    // The very next id derives a different, not yet used address.
    let (next_pda, _) = task_pda(&ctx, 1);
    assert_ne!(next_pda.to_bytes(), expected_pda.to_bytes());
    // The address is reproducible from (daemon, id, bump) alone.
    let program = pk_of(&ctx.program_id);
    let daemon_pk = pk_of(&ctx.daemon_account.address);
    let rederived = Pubkey::create_program_address(
        &[b"task", daemon_pk.as_ref(), &0u64.to_be_bytes(), &[bump]],
        &program,
    )
    .unwrap();
    assert_eq!(rederived.to_bytes(), expected_pda.to_bytes());
}

#[test]
fn scenario_clock_at_one_million() {
    let mut ctx = setup(0, 1_000_000);
    let (_, bump) = task_pda(&ctx, 0);
    let out = handler(&mut ctx, bump).unwrap();
    assert_eq!(out.task.exec_at, 1_000_001);
    assert_eq!(out.task.stop_at, i64::MAX);
    assert_eq!(out.task.recurr, 1);
    assert!(matches!(out.task.status, TaskStatus::Pending));
    assert_eq!(ctx.health.real_time, 1_000_000);
    assert_eq!(ctx.health.target_time, 1_000_001);
    assert_eq!(ctx.daemon.task_count, 1);
    assert_eq!(out.task.bump, bump);
    assert_eq!(
        out.task.daemon.as_bytes().as_slice(),
        ctx.daemon_account.address.as_bytes().as_slice()
    );
}

#[test]
fn embedded_instruction_shape() {
    let mut ctx = setup(0, 50);
    let (_, bump) = task_pda(&ctx, 0);
    let out = handler(&mut ctx, bump).unwrap();
    let ix = &out.task.ix;
    assert_eq!(ix.program_id.as_bytes().as_slice(), ctx.program_id.as_bytes().as_slice());
    assert_eq!(ix.accounts.len(), 4);
    assert!(ix.data.is_empty());
    let clock_meta = &ix.accounts[0];
    assert_eq!(clock_meta.address.as_bytes().as_slice(), ctx.clock.address.as_bytes().as_slice());
    assert!(!clock_meta.is_signer && !clock_meta.is_writable);
    let authority_meta = &ix.accounts[1];
    assert_eq!(
        authority_meta.address.as_bytes().as_slice(),
        ctx.authority_account.address.as_bytes().as_slice()
    );
    assert!(!authority_meta.is_signer && !authority_meta.is_writable);
    let daemon_meta = &ix.accounts[2];
    assert_eq!(
        daemon_meta.address.as_bytes().as_slice(),
        ctx.daemon_account.address.as_bytes().as_slice()
    );
    assert!(daemon_meta.is_signer && daemon_meta.is_writable);
    let health_meta = &ix.accounts[3];
    assert_eq!(
        health_meta.address.as_bytes().as_slice(),
        ctx.health_account.address.as_bytes().as_slice()
    );
    assert!(!health_meta.is_signer && health_meta.is_writable);
}

#[test]
fn two_sequential_admissions_from_five() {
    let mut ctx = setup(5, 10);
    let (pda5, bump5) = task_pda(&ctx, 5);
    let first = handler(&mut ctx, bump5).unwrap();
    assert_eq!(first.task.id, 5);
    assert_eq!(ctx.daemon.task_count, 6);
    let (pda6, bump6) = task_pda(&ctx, 6);
    let second = handler(&mut ctx, bump6).unwrap();
    assert_eq!(second.task.id, 6);
    assert_eq!(ctx.daemon.task_count, 7);
    assert_eq!(first.task_address.as_bytes().as_slice(), &pda5.to_bytes()[..]);
    assert_eq!(second.task_address.as_bytes().as_slice(), &pda6.to_bytes()[..]);
    assert_ne!(
        first.task_address.as_bytes().as_slice(),
        second.task_address.as_bytes().as_slice()
    );
}

#[test]
fn counter_at_maximum_fails_without_mutation() {
    let mut ctx = setup(u64::MAX, 100);
    let (_, bump) = task_pda(&ctx, u64::MAX);
    let r = handler(&mut ctx, bump);
    assert!(matches!(r, Err(CronosError::ArithmeticOverflow)));
    assert_eq!(ctx.daemon.task_count, u64::MAX);
    assert_eq!(ctx.health.real_time, 0);
    assert_eq!(ctx.health.target_time, 0);
}

#[test]
fn clock_at_maximum_fails_without_mutation() {
    let mut ctx = setup(0, i64::MAX);
    let (_, bump) = task_pda(&ctx, 0);
    let r = handler(&mut ctx, bump);
    assert!(matches!(r, Err(CronosError::ArithmeticOverflow)));
    assert_eq!(ctx.daemon.task_count, 0);
    assert_eq!(ctx.health.real_time, 0);
    assert_eq!(ctx.health.target_time, 0);
}

#[test]
fn foreign_caller_is_rejected_and_retry_is_idempotent() {
    let mut ctx = setup(3, 77);
    let (target_before, bump) = task_pda(&ctx, 3);
    let genuine_admin = ctx.admin.clone_address();
    ctx.admin = addr(&Pubkey::new_from_array([2u8; 32]));
    let r = handler(&mut ctx, bump);
    assert!(matches!(r, Err(CronosError::AuthorizationFailure)));
    assert_eq!(ctx.daemon.task_count, 3);
    assert_eq!(ctx.health.real_time, 0);
    assert_eq!(ctx.health.target_time, 0);
    // Nothing changed, so the same (daemon, id) re-derives the same target.
    let (target_after, bump_after) = task_pda(&ctx, 3);
    assert_eq!(target_after.to_bytes(), target_before.to_bytes());
    assert_eq!(bump_after, bump);
    ctx.admin = genuine_admin;
    let out = handler(&mut ctx, bump).unwrap();
    assert_eq!(out.task_address.as_bytes().as_slice(), &target_before.to_bytes()[..]);
}

#[test]
fn stale_authority_salt_is_rejected() {
    let mut ctx = setup(0, 5);
    let (_, bump) = task_pda(&ctx, 0);
    ctx.authority.bump = ctx.authority.bump.wrapping_add(1);
    let r = handler(&mut ctx, bump);
    assert!(matches!(r, Err(CronosError::AuthorizationFailure)));
    assert_eq!(ctx.daemon.task_count, 0);
}

#[test]
fn foreign_record_owner_is_rejected() {
    let mut ctx = setup(0, 5);
    ctx.config_account.owner = addr(&Pubkey::new_from_array([4u8; 32]));
    assert!(matches!(
        validate_authorization(&ctx),
        Err(CronosError::AuthorizationFailure)
    ));
}

#[test]
fn daemon_owned_by_stranger_is_rejected() {
    let mut ctx = setup(0, 5);
    ctx.daemon.owner = addr(&Pubkey::new_from_array([5u8; 32]));
    assert!(matches!(
        validate_authorization(&ctx),
        Err(CronosError::AuthorizationFailure)
    ));
}

#[test]
fn salt_deriving_no_address_is_rejected() {
    let mut ctx = setup(0, 5);
    let program = pk_of(&ctx.program_id);
    let daemon_pk = pk_of(&ctx.daemon_account.address);
    let mut bad: Option<u8> = None;
    for b in 0..=255u8 {
        let attempt = Pubkey::create_program_address(
            &[b"task", daemon_pk.as_ref(), &0u64.to_be_bytes(), &[b]],
            &program,
        );
        if attempt.is_err() {
            bad = Some(b);
            break;
        }
    }
    let bad = bad.expect("some salt derives no address");
    let r = handler(&mut ctx, bad);
    assert!(matches!(r, Err(CronosError::AuthorizationFailure)));
    assert_eq!(ctx.daemon.task_count, 0);
    assert_eq!(ctx.health.real_time, 0);
    assert_eq!(ctx.health.target_time, 0);
}

#[test]
fn genuine_chain_validates() {
    let ctx = setup(0, 5);
    assert!(validate_authorization(&ctx).is_ok());
}
