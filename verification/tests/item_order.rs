use onft::errors::ONFTError;
use onft::item::approve_nft::ApproveNFT;
use onft::item::check_auto_completion::{CheckAutoCompletion, CheckAutoCompletionParams};
use onft::item::create_nft::{CreateNFT, CreateNFTParams};
use onft::item::events::{ONFTAutoCompleted, ONFTCreated, ONFTSignerApproved, ONFTStatusChanged};
use onft::item::init_onft::{InitONFT, InitONFTParams};
use onft::item::state::{NFTItem, ONFTStore};
use onft::item::update_status::{UpdateStatus, UpdateStatusParams};
use onft::pubkey::Pubkey;
use onft::status::{OrderStatus, SECONDS_PER_DAY};

fn key(byte: u8) -> Pubkey {
    Pubkey::new_from_array([byte; 32])
}

fn admin() -> Pubkey {
    key(1)
}

fn payer() -> Pubkey {
    key(2)
}

fn user_1() -> Pubkey {
    key(3)
}

fn user_2() -> Pubkey {
    key(4)
}

fn stranger() -> Pubkey {
    key(9)
}

fn store(paused: bool) -> ONFTStore {
    ONFTStore {
        token_mint: key(20),
        token_escrow: key(21),
        endpoint_program: key(22),
        bump: 255,
        admin: admin(),
        default_fee_bps: 0,
        paused,
        pauser: None,
        unpauser: None,
    }
}

fn create_ctx(paused: bool) -> CreateNFT {
    CreateNFT {
        payer: payer(),
        admin: admin(),
        onft_store: store(paused),
        user_1: user_1(),
        user_2: user_2(),
        nft_item_bump: 250,
    }
}

fn params(days: u8) -> CreateNFTParams {
    CreateNFTParams { token_id: 7, days_to_complete: days, metadata: None }
}

fn fresh(days: u8, now: i64) -> NFTItem {
    CreateNFT::apply(&create_ctx(false), &params(days), now).unwrap().0
}

fn approve(item: NFTItem, signer: Pubkey, now: i64) -> (NFTItem, Result<ONFTSignerApproved, ONFTError>) {
    let mut ctx = ApproveNFT { signer, onft_store: store(false), nft_item: item };
    let r = ApproveNFT::apply(&mut ctx, now);
    (ctx.nft_item, r)
}

fn update(
    item: NFTItem,
    signer: Pubkey,
    new_status: OrderStatus,
    now: i64,
) -> (NFTItem, Result<ONFTStatusChanged, ONFTError>) {
    let mut ctx = UpdateStatus { signer, onft_store: store(false), nft_item: item };
    let r = UpdateStatus::apply(&mut ctx, &UpdateStatusParams { token_id: 7, new_status }, now);
    (ctx.nft_item, r)
}

fn check(item: NFTItem, now: i64) -> (NFTItem, Result<Option<ONFTAutoCompleted>, ONFTError>) {
    let mut ctx = CheckAutoCompletion { signer: stranger(), onft_store: store(false), nft_item: item };
    let r = CheckAutoCompletion::apply(&mut ctx, &CheckAutoCompletionParams { token_id: 7 }, now);
    (ctx.nft_item, r)
}

fn approved_by_both(days: u8, now: i64) -> NFTItem {
    let item = fresh(days, now);
    let (item, _) = approve(item, user_1(), now);
    let (item, _) = approve(item, user_2(), now);
    item
}

fn processing(days: u8, now: i64) -> NFTItem {
    let (item, r) = update(approved_by_both(days, now), user_2(), OrderStatus::Processing, now);
    assert!(r.is_ok());
    item
}

#[test]
fn init_sets_up_an_open_store() {
    let ctx = InitONFT {
        payer: payer(),
        onft_store_key: key(30),
        token_mint: key(20),
        token_escrow: key(21),
        onft_store_bump: 255,
        endpoint_id: key(40),
    };
    let (made, accounts, register) =
        InitONFT::apply(&ctx, &InitONFTParams { admin: admin(), endpoint_program: None });
    assert_eq!(
        made,
        ONFTStore {
            token_mint: key(20),
            token_escrow: key(21),
            endpoint_program: key(40),
            bump: 255,
            admin: admin(),
            default_fee_bps: 0,
            paused: false,
            pauser: None,
            unpauser: None,
        }
    );
    assert_eq!(accounts.onft_store, key(30));
    assert_eq!(accounts.nft_collection, key(20));
    assert_eq!(register.delegate, admin());
}

#[test]
fn init_takes_the_named_endpoint() {
    let ctx = InitONFT {
        payer: payer(),
        onft_store_key: key(30),
        token_mint: key(20),
        token_escrow: key(21),
        onft_store_bump: 3,
        endpoint_id: key(40),
    };
    let (made, _, _) =
        InitONFT::apply(&ctx, &InitONFTParams { admin: admin(), endpoint_program: Some(key(41)) });
    assert_eq!(made.endpoint_program, key(41));
    assert_eq!(made.bump, 3);
}

#[test]
fn create_opens_a_fresh_order() {
    let (item, event) = CreateNFT::apply(&create_ctx(false), &params(3), 1_000).unwrap();
    assert_eq!(
        item,
        NFTItem {
            token_id: 7,
            owner: payer(),
            status: OrderStatus::Created,
            signers: [Some(user_1()), Some(user_2())],
            signer_approvals: [false, false],
            created_at: 1_000,
            processing_at: None,
            completion_due_at: None,
            completed_at: None,
            days_to_complete: 3,
            metadata: None,
            bump: 250,
        }
    );
    assert_eq!(
        event,
        ONFTCreated {
            token_id: 7,
            owner: payer(),
            signers: [user_1(), user_2()],
            days_to_complete: 3,
            timestamp: 1_000,
        }
    );
}

#[test]
fn create_keeps_metadata_up_to_the_bound() {
    let text = "m".repeat(200);
    let with = CreateNFTParams { token_id: 7, days_to_complete: 1, metadata: Some(text.clone()) };
    let (item, _) = CreateNFT::apply(&create_ctx(false), &with, 5).unwrap();
    assert_eq!(item.metadata, Some(text));
}

#[test]
fn create_refuses_long_metadata() {
    let with =
        CreateNFTParams { token_id: 7, days_to_complete: 1, metadata: Some("m".repeat(201)) };
    assert_eq!(CreateNFT::apply(&create_ctx(false), &with, 5), Err(ONFTError::MetadataTooLong));
}

#[test]
fn create_counts_metadata_in_bytes() {
    // 67 characters of three bytes each: 201 bytes.
    let with =
        CreateNFTParams { token_id: 7, days_to_complete: 1, metadata: Some("\u{20ac}".repeat(67)) };
    assert_eq!(CreateNFT::apply(&create_ctx(false), &with, 5), Err(ONFTError::MetadataTooLong));
    let fits =
        CreateNFTParams { token_id: 7, days_to_complete: 1, metadata: Some("\u{20ac}".repeat(66)) };
    assert!(CreateNFT::apply(&create_ctx(false), &fits, 5).is_ok());
}

#[test]
fn create_refuses_when_paused() {
    assert_eq!(CreateNFT::apply(&create_ctx(true), &params(1), 5), Err(ONFTError::SystemPaused));
}

#[test]
fn create_refuses_a_signer_who_is_not_admin() {
    let mut ctx = create_ctx(false);
    ctx.admin = stranger();
    assert_eq!(CreateNFT::apply(&ctx, &params(1), 5), Err(ONFTError::Unauthorized));
    // The administrator is asked for before anything else.
    let mut ctx = create_ctx(true);
    ctx.admin = stranger();
    ctx.user_2 = ctx.user_1;
    assert_eq!(CreateNFT::apply(&ctx, &params(1), 5), Err(ONFTError::Unauthorized));
}

#[test]
fn create_refuses_one_address_as_both_parties() {
    let mut ctx = create_ctx(false);
    ctx.user_2 = ctx.user_1;
    assert_eq!(CreateNFT::apply(&ctx, &params(1), 5), Err(ONFTError::InvalidPayload));
}

#[test]
fn approve_sets_the_flag_of_the_signer() {
    let (item, r) = approve(fresh(1, 10), user_2(), 11);
    assert_eq!(
        r,
        Ok(ONFTSignerApproved { token_id: 7, signer_index: 1, signer: user_2(), timestamp: 11 })
    );
    assert_eq!(item.signer_approvals, [false, true]);
    let (item, r) = approve(item, user_1(), 12);
    assert_eq!(
        r,
        Ok(ONFTSignerApproved { token_id: 7, signer_index: 0, signer: user_1(), timestamp: 12 })
    );
    assert_eq!(item.signer_approvals, [true, true]);
}

#[test]
fn approve_twice_is_approve_once() {
    let (once, first) = approve(fresh(1, 10), user_1(), 11);
    let (twice, second) = approve(once.clone(), user_1(), 11);
    assert!(first.is_ok());
    assert_eq!(first, second);
    assert_eq!(once, twice);
    assert_eq!(twice.signer_approvals, [true, false]);
}

#[test]
fn full_approval_does_not_start_processing() {
    let item = approved_by_both(1, 10);
    assert_eq!(item.signer_approvals, [true, true]);
    assert_eq!(item.status, OrderStatus::Created);
    assert_eq!(item.processing_at, None);
    assert_eq!(item.completion_due_at, None);
}

#[test]
fn approve_refuses_a_stranger() {
    let before = fresh(1, 10);
    let (after, r) = approve(before.clone(), stranger(), 11);
    assert_eq!(r, Err(ONFTError::Unauthorized));
    assert_eq!(after, before);
    let (after, r) = approve(before.clone(), payer(), 11);
    assert_eq!(r, Err(ONFTError::Unauthorized));
    assert_eq!(after, before);
}

#[test]
fn approve_refuses_when_paused() {
    let mut ctx = ApproveNFT { signer: user_1(), onft_store: store(true), nft_item: fresh(1, 10) };
    assert_eq!(ApproveNFT::apply(&mut ctx, 11), Err(ONFTError::SystemPaused));
    assert_eq!(ctx.nft_item, fresh(1, 10));
}

#[test]
fn approve_of_a_completed_order_changes_nothing() {
    let (item, _) = check(processing(1, 10), 10 + SECONDS_PER_DAY);
    assert_eq!(item.status, OrderStatus::Completed);
    let (after, r) = approve(item.clone(), user_1(), 100_000);
    assert_eq!(
        r,
        Ok(ONFTSignerApproved {
            token_id: 7,
            signer_index: 0,
            signer: user_1(),
            timestamp: 100_000,
        })
    );
    assert_eq!(after, item);
}

#[test]
fn approve_refuses_a_stranger_whatever_the_status() {
    let done = check(processing(1, 10), 10 + SECONDS_PER_DAY).0;
    for item in [fresh(1, 10), approved_by_both(1, 10), processing(1, 10), done] {
        for caller in [stranger(), payer(), admin()] {
            let (after, r) = approve(item.clone(), caller, 100_000);
            assert_eq!(r, Err(ONFTError::Unauthorized));
            assert_eq!(after, item);
        }
    }
}

#[test]
fn approve_is_still_taken_while_processing() {
    let item = processing(1, 10);
    let (after, r) = approve(item.clone(), user_1(), 20);
    assert!(r.is_ok());
    assert_eq!(after, item);
}

#[test]
fn two_parties_one_day_runs_to_completion() {
    let created_at = 1_700_000_000;
    let item = approved_by_both(1, created_at);
    let (item, r) = update(item, user_1(), OrderStatus::Processing, created_at);
    assert_eq!(
        r,
        Ok(ONFTStatusChanged {
            token_id: 7,
            previous_status: OrderStatus::Created,
            new_status: OrderStatus::Processing,
            changed_by: user_1(),
            timestamp: created_at,
        })
    );
    assert_eq!(item.status, OrderStatus::Processing);
    assert_eq!(item.processing_at, Some(created_at));
    assert_eq!(item.completion_due_at, Some(created_at + 86_400));

    let (same, r) = check(item.clone(), created_at + 86_399);
    assert_eq!(r, Ok(None));
    assert_eq!(same, item);

    let now = created_at + 86_401;
    let (done, r) = check(item, now);
    assert_eq!(
        r,
        Ok(Some(ONFTAutoCompleted {
            token_id: 7,
            completion_due_time: created_at + 86_400,
            actual_completion_time: now,
        }))
    );
    assert_eq!(done.status, OrderStatus::Completed);
    assert_eq!(done.completed_at, Some(now));
    assert_eq!(done.completion_due_at, Some(created_at + 86_400));
}

#[test]
fn due_time_counts_days_from_the_start_of_processing() {
    let item = approved_by_both(255, 5);
    let (item, _) = update(item, payer(), OrderStatus::Processing, 1_000);
    assert_eq!(item.processing_at, Some(1_000));
    assert_eq!(item.completion_due_at, Some(1_000 + 255 * 86_400));
    let item = approved_by_both(0, 5);
    let (item, _) = update(item, payer(), OrderStatus::Processing, -7);
    assert_eq!(item.completion_due_at, Some(-7));
}

#[test]
fn auto_completion_fires_exactly_at_the_due_time() {
    let item = processing(2, 100);
    let (done, r) = check(item, 100 + 2 * 86_400);
    assert!(matches!(r, Ok(Some(_))));
    assert_eq!(done.status, OrderStatus::Completed);
    assert_eq!(done.completed_at, Some(100 + 2 * 86_400));
}

#[test]
fn auto_completion_leaves_a_created_order_alone() {
    let item = approved_by_both(1, 10);
    let (after, r) = check(item.clone(), i64::MAX);
    assert_eq!(r, Ok(None));
    assert_eq!(after, item);
}

#[test]
fn auto_completion_leaves_a_completed_order_alone() {
    let (done, _) = check(processing(1, 10), 90_000);
    let (after, r) = check(done.clone(), 1_000_000);
    assert_eq!(r, Ok(None));
    assert_eq!(after, done);
    assert_eq!(after.completed_at, Some(90_000));
}

#[test]
fn auto_completion_refuses_when_paused() {
    let item = processing(1, 10);
    let mut ctx =
        CheckAutoCompletion { signer: stranger(), onft_store: store(true), nft_item: item.clone() };
    let r = CheckAutoCompletion::apply(&mut ctx, &CheckAutoCompletionParams { token_id: 7 }, 90_000);
    assert_eq!(r, Err(ONFTError::SystemPaused));
    assert_eq!(ctx.nft_item, item);
}

#[test]
fn check_auto_completion_on_the_order_itself() {
    let mut item = processing(1, 10);
    assert!(!item.check_auto_completion(86_409));
    assert_eq!(item.status, OrderStatus::Processing);
    assert!(item.check_auto_completion(86_410));
    assert_eq!(item.status, OrderStatus::Completed);
    assert_eq!(item.completed_at, Some(86_410));
    assert!(!item.check_auto_completion(86_411));
    assert_eq!(item.completed_at, Some(86_410));
}

#[test]
fn completing_a_created_order_is_an_invalid_transition() {
    let item = fresh(1, 10);
    let (after, r) = update(item.clone(), user_2(), OrderStatus::Completed, 11);
    assert_eq!(r, Err(ONFTError::InvalidTransition));
    assert_eq!(after, item);
    let item = approved_by_both(1, 10);
    let (after, r) = update(item.clone(), user_2(), OrderStatus::Completed, 11);
    assert_eq!(r, Err(ONFTError::InvalidTransition));
    assert_eq!(after, item);
}

#[test]
fn nothing_leads_back_to_created() {
    for item in [fresh(1, 10), processing(1, 10), check(processing(1, 10), 90_000).0] {
        for signer in [payer(), user_1(), user_2(), stranger()] {
            let (after, r) = update(item.clone(), signer, OrderStatus::Created, 11);
            assert_eq!(r, Err(ONFTError::InvalidTransition));
            assert_eq!(after, item);
        }
    }
}

#[test]
fn processing_needs_both_approvals() {
    let (item, _) = approve(fresh(1, 10), user_1(), 10);
    let (after, r) = update(item.clone(), user_1(), OrderStatus::Processing, 11);
    assert_eq!(r, Err(ONFTError::InsufficientApprovals));
    assert_eq!(after, item);
    let (after, r) = update(item.clone(), payer(), OrderStatus::Processing, 11);
    assert_eq!(r, Err(ONFTError::InsufficientApprovals));
    assert_eq!(after, item);
}

#[test]
fn processing_is_asked_by_owner_or_approved_signer() {
    let (item, _) = approve(fresh(1, 10), user_1(), 10);
    // The second signer has not approved yet.
    let (_, r) = update(item.clone(), user_2(), OrderStatus::Processing, 11);
    assert_eq!(r, Err(ONFTError::Unauthorized));
    let (_, r) = update(item, stranger(), OrderStatus::Processing, 11);
    assert_eq!(r, Err(ONFTError::Unauthorized));
    for signer in [payer(), user_1(), user_2()] {
        let (after, r) = update(approved_by_both(1, 10), signer, OrderStatus::Processing, 11);
        assert!(r.is_ok());
        assert_eq!(after.status, OrderStatus::Processing);
    }
}

#[test]
fn processing_starts_once() {
    let item = processing(1, 10);
    let (after, r) = update(item.clone(), user_1(), OrderStatus::Processing, 500);
    assert_eq!(r, Err(ONFTError::InvalidTransition));
    assert_eq!(after, item);
    assert_eq!(after.completion_due_at, Some(10 + 86_400));
}

#[test]
fn only_the_receiving_signer_completes() {
    let item = processing(1, 10);
    for signer in [payer(), user_1(), stranger()] {
        let (after, r) = update(item.clone(), signer, OrderStatus::Completed, 20);
        assert_eq!(r, Err(ONFTError::Unauthorized));
        assert_eq!(after, item);
    }
    let (after, r) = update(item, user_2(), OrderStatus::Completed, 20);
    assert_eq!(
        r,
        Ok(ONFTStatusChanged {
            token_id: 7,
            previous_status: OrderStatus::Processing,
            new_status: OrderStatus::Completed,
            changed_by: user_2(),
            timestamp: 20,
        })
    );
    assert_eq!(after.status, OrderStatus::Completed);
    assert_eq!(after.completed_at, Some(20));
}

#[test]
fn a_completed_order_stays_completed() {
    let (done, _) = update(processing(1, 10), user_2(), OrderStatus::Completed, 20);
    for new_status in [OrderStatus::Created, OrderStatus::Processing, OrderStatus::Completed] {
        let (after, r) = update(done.clone(), user_2(), new_status, 30);
        assert_eq!(r, Err(ONFTError::InvalidTransition));
        assert_eq!(after, done);
    }
}

#[test]
fn update_refuses_when_paused() {
    let item = approved_by_both(1, 10);
    let mut ctx = UpdateStatus { signer: user_1(), onft_store: store(true), nft_item: item.clone() };
    let r = UpdateStatus::apply(
        &mut ctx,
        &UpdateStatusParams { token_id: 7, new_status: OrderStatus::Processing },
        11,
    );
    assert_eq!(r, Err(ONFTError::SystemPaused));
    assert_eq!(ctx.nft_item, item);
}

#[test]
fn change_status_follows_the_lifecycle() {
    let mut item = fresh(2, 10);
    assert_eq!(item.change_status(OrderStatus::Created, 11), Err(ONFTError::InvalidTransition));
    assert_eq!(item.change_status(OrderStatus::Completed, 11), Err(ONFTError::InvalidTransition));
    assert_eq!(item, fresh(2, 10));
    assert_eq!(item.change_status(OrderStatus::Processing, 11), Ok(()));
    assert_eq!(item.processing_at, Some(11));
    assert_eq!(item.completion_due_at, Some(11 + 172_800));
    assert_eq!(item.change_status(OrderStatus::Processing, 12), Err(ONFTError::InvalidTransition));
    assert_eq!(item.change_status(OrderStatus::Completed, 13), Ok(()));
    assert_eq!(item.status, OrderStatus::Completed);
    assert_eq!(item.completed_at, Some(13));
    assert_eq!(item.change_status(OrderStatus::Completed, 14), Err(ONFTError::InvalidTransition));
    assert_eq!(item.completed_at, Some(13));
}

#[test]
fn status_never_moves_back() {
    fn rank(status: OrderStatus) -> u8 {
        match status {
            OrderStatus::Created => 0,
            OrderStatus::Processing => 1,
            OrderStatus::Completed => 2,
        }
    }
    let mut item = fresh(1, 0);
    let mut last = rank(item.status);
    let signers = [payer(), user_1(), user_2(), stranger()];
    let targets = [OrderStatus::Completed, OrderStatus::Created, OrderStatus::Processing];
    for round in 0..40i64 {
        let signer = signers[(round % 4) as usize];
        let now = round * 5_000;
        item = match round % 3 {
            0 => approve(item, signer, now).0,
            1 => update(item, signer, targets[((round / 3) % 3) as usize], now).0,
            _ => check(item, now).0,
        };
        assert!(rank(item.status) >= last);
        last = rank(item.status);
    }
    assert_eq!(item.status, OrderStatus::Completed);
}

#[test]
fn signer_lookup_finds_the_first_position() {
    let item = fresh(1, 0);
    assert_eq!(item.signer_index(&user_1()), Some(0));
    assert_eq!(item.signer_index(&user_2()), Some(1));
    assert_eq!(item.signer_index(&payer()), None);
    assert!(!item.all_approved());
    assert!(!item.is_approved_signer(&user_1()));
    let (item, _) = approve(item, user_1(), 1);
    assert!(item.is_approved_signer(&user_1()));
    assert!(!item.is_approved_signer(&user_2()));
    assert!(!item.all_approved());
    let (item, _) = approve(item, user_2(), 1);
    assert!(item.all_approved());
}

#[test]
fn an_unassigned_signer_matches_no_one() {
    let mut item = fresh(1, 0);
    item.signers = [None, Some(user_2())];
    assert_eq!(item.signer_index(&user_1()), None);
    assert_eq!(item.signer_index(&user_2()), Some(1));
    let (after, r) = approve(item.clone(), user_1(), 1);
    assert_eq!(r, Err(ONFTError::Unauthorized));
    assert_eq!(after, item);
}

#[test]
fn only_a_granted_start_of_processing_fixes_a_due_time() {
    let asks = |item: NFTItem, signer: Pubkey, new_status: OrderStatus, paused: bool| {
        let ctx = UpdateStatus { signer, onft_store: store(paused), nft_item: item };
        UpdateStatus::will_start_processing(&ctx, &UpdateStatusParams { token_id: 7, new_status })
    };
    assert!(asks(approved_by_both(1, 10), user_1(), OrderStatus::Processing, false));
    assert!(asks(approved_by_both(1, 10), payer(), OrderStatus::Processing, false));
    assert!(!asks(approved_by_both(1, 10), user_1(), OrderStatus::Processing, true));
    assert!(!asks(approved_by_both(1, 10), stranger(), OrderStatus::Processing, false));
    assert!(!asks(approved_by_both(1, 10), user_2(), OrderStatus::Completed, false));
    assert!(!asks(approved_by_both(1, 10), user_2(), OrderStatus::Created, false));
    assert!(!asks(fresh(1, 10), payer(), OrderStatus::Processing, false));
    assert!(!asks(processing(1, 10), user_1(), OrderStatus::Processing, false));
    // A request that is refused may come at any time.
    let (after, r) = update(fresh(255, 10), payer(), OrderStatus::Processing, i64::MAX);
    assert_eq!(r, Err(ONFTError::InsufficientApprovals));
    assert_eq!(after, fresh(255, 10));
}
