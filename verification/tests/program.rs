use closing_accounts::address::{find_mint_authority, find_record_address};
use closing_accounts::store::{create_at, load_active, phase, sweep, ClosureStrategy, Phase};
use closing_accounts::{
    enter_lottery, redeem_winnings_insecure, redeem_winnings_secure, Address, EnterLottery,
    IssueError, Ledger, LotteryAccount, MintTo, MyError, Receipt, RedeemWinnings,
    MintOrder, RedeemAccounts, RedeemWinningsSecure, TokenAccount,
};

const PROGRAM: [u8; 32] = [
    17, 222, 95, 104, 200, 1, 110, 137, 250, 201, 8, 207, 188, 221, 179, 255, 66, 252, 195, 204,
    144, 16, 19, 150, 219, 80, 203, 169, 237, 37, 133, 65,
];

fn program() -> Address {
    Address::new(PROGRAM)
}

fn user() -> Address {
    Address::new([7u8; 32])
}

fn mint() -> Address {
    Address::new([11u8; 32])
}

fn token_program() -> Address {
    Address::new([12u8; 32])
}

fn user_ata() -> TokenAccount {
    TokenAccount { key: Address::new([9u8; 32]), mint: mint() }
}

fn entry() -> Address {
    find_record_address(&user(), &program()).unwrap().0
}

fn mint_auth() -> (Address, u8) {
    find_mint_authority(&program()).unwrap()
}

fn entering() -> EnterLottery {
    EnterLottery { lottery_entry: entry(), user_ata: user_ata(), user: user() }
}

fn secure() -> RedeemWinningsSecure {
    RedeemWinningsSecure {
        lottery_entry: entry(),
        user: user(),
        user_ata: user_ata(),
        reward_mint: mint(),
        mint_auth: mint_auth().0,
        token_program: token_program(),
    }
}

fn insecure() -> RedeemWinnings {
    RedeemWinnings {
        lottery_entry: entry(),
        user: user(),
        user_ata: user_ata(),
        reward_mint: mint(),
        mint_auth: mint_auth().0,
        token_program: token_program(),
    }
}

fn entered(now: i64, deposit: u64) -> Ledger {
    let mut ledger = Ledger::new();
    assert_eq!(enter_lottery(&mut ledger, &program(), &entering(), now, deposit), Ok(()));
    ledger
}

#[test]
fn enter_lottery_writes_the_entry() {
    let ledger = entered(1234, 1000);
    assert_eq!(
        load_active(&ledger, &program(), &entry(), &user()),
        Ok(LotteryAccount { user: user(), bump: 255, timestamp: 1234, user_ata: user_ata().key })
    );
    assert_eq!(ledger.get_balance(&entry()), 1000);
}

#[test]
fn enter_lottery_twice_is_refused() {
    let mut ledger = entered(1234, 1000);
    assert_eq!(
        enter_lottery(&mut ledger, &program(), &entering(), 99, 1),
        Err(MyError::AlreadyInitialized)
    );
    assert_eq!(ledger.get_balance(&entry()), 1000);
}

#[test]
fn enter_lottery_refuses_a_foreign_cell() {
    let mut ledger = Ledger::new();
    let mut ctx = entering();
    ctx.lottery_entry = Address::new([1u8; 32]);
    assert_eq!(
        enter_lottery(&mut ledger, &program(), &ctx, 0, 1000),
        Err(MyError::AddressMismatch)
    );
    assert_eq!(ledger.get_balance(&ctx.lottery_entry), 0);
}

#[test]
fn mint_ctx_names_mint_destination_and_authority() {
    let expected = MintTo { mint: mint(), to: user_ata().key, authority: mint_auth().0 };
    assert_eq!(secure().mint_ctx(), expected);
    assert_eq!(insecure().mint_ctx(), expected);
}

#[test]
fn mint_order_tells_the_reward_and_changes_nothing() {
    let ledger = entered(1000, 77);
    let order = secure().mint_order(&ledger, &program(), 1100).unwrap();
    assert_eq!(order.amount, 1000);
    assert_eq!(order.accounts, secure().mint_ctx());
    assert_eq!(order.token_program, token_program());
    assert_eq!(order.authority_bump, mint_auth().1);
    assert_eq!(order.signer_seeds(), vec![b"mint-seed".to_vec(), vec![mint_auth().1]]);
    assert_eq!(insecure().mint_order(&ledger, &program(), 1100), Ok(order));
    assert_eq!(order.accounts, insecure().mint_ctx());
    assert_eq!(ledger.get_balance(&entry()), 77);
    assert_eq!(phase(&ledger, &entry()), Phase::Active);
}

#[test]
fn redeem_and_secure_close_end_to_end() {
    let mut ledger = entered(0, 1000);
    let order = secure().mint_order(&ledger, &program(), 50).unwrap();
    assert_eq!(order.amount, 500);
    assert_eq!(order.accounts.to, user_ata().key);
    let redeemed = redeem_winnings_secure(&mut ledger, &program(), &secure(), 50, Ok(()));
    assert_eq!(redeemed, Ok(Receipt { reward: 500, refund: 1000 }));
    assert_eq!(ledger.get_balance(&entry()), 0);
    assert_eq!(ledger.get_balance(&user()), 1000);
    assert_eq!(phase(&ledger, &entry()), Phase::Closed);
    assert_eq!(&ledger.read(&entry())[..8], &[255u8; 8]);
    assert_eq!(sweep(&mut ledger, &entry(), &user()), Ok(0));
    assert_eq!(ledger.get_balance(&user()), 1000);
}

#[test]
fn redeem_fails_where_the_receipt_address_is_not_the_stored_one() {
    let mut ledger = entered(0, 1000);
    let mut ctx = secure();
    ctx.user_ata = TokenAccount { key: Address::new([10u8; 32]), mint: mint() };
    assert_eq!(ctx.mint_order(&ledger, &program(), 50), Err(MyError::Unauthorized));
    assert_eq!(
        redeem_winnings_secure(&mut ledger, &program(), &ctx, 50, Ok(())),
        Err(MyError::Unauthorized)
    );
    let mut ctx = insecure();
    ctx.user_ata = TokenAccount { key: Address::new([10u8; 32]), mint: mint() };
    assert_eq!(
        redeem_winnings_insecure(&mut ledger, &program(), &ctx, 50, Ok(())),
        Err(MyError::Unauthorized)
    );
    assert_eq!(ledger.get_balance(&entry()), 1000);
    assert_eq!(phase(&ledger, &entry()), Phase::Active);
}

#[test]
fn redeem_fails_for_another_user() {
    let mut ledger = entered(0, 1000);
    let mut ctx = secure();
    ctx.user = Address::new([8u8; 32]);
    assert_eq!(
        redeem_winnings_secure(&mut ledger, &program(), &ctx, 50, Ok(())),
        Err(MyError::Unauthorized)
    );
    assert_eq!(ledger.get_balance(&entry()), 1000);
}

#[test]
fn redeem_fails_on_another_mint() {
    let mut ledger = entered(0, 1000);
    let mut ctx = secure();
    ctx.reward_mint = Address::new([13u8; 32]);
    assert_eq!(
        redeem_winnings_secure(&mut ledger, &program(), &ctx, 50, Ok(())),
        Err(MyError::InvalidMint)
    );
    assert_eq!(phase(&ledger, &entry()), Phase::Active);
}

#[test]
fn redeem_fails_on_a_false_mint_authority() {
    let mut ledger = entered(0, 1000);
    let mut ctx = secure();
    ctx.mint_auth = Address::new([14u8; 32]);
    assert_eq!(
        redeem_winnings_secure(&mut ledger, &program(), &ctx, 50, Ok(())),
        Err(MyError::AddressMismatch)
    );
    assert_eq!(phase(&ledger, &entry()), Phase::Active);
}

#[test]
fn redeem_fails_where_the_reward_overflows() {
    let mut ledger = entered(0, 1000);
    assert_eq!(
        redeem_winnings_secure(&mut ledger, &program(), &secure(), i64::MAX, Ok(())),
        Err(MyError::ArithmeticOverflow)
    );
    assert_eq!(
        redeem_winnings_secure(&mut ledger, &program(), &secure(), -1, Ok(())),
        Err(MyError::ArithmeticOverflow)
    );
    assert_eq!(phase(&ledger, &entry()), Phase::Active);
    assert_eq!(ledger.get_balance(&entry()), 1000);
}

#[test]
fn redeem_orders_nothing_for_an_entry_that_cannot_be_closed() {
    let mut ledger = entered(0, 0);
    assert_eq!(secure().mint_order(&ledger, &program(), 50), Err(MyError::InsufficientBalance));
    assert_eq!(
        redeem_winnings_secure(&mut ledger, &program(), &secure(), 50, Ok(())),
        Err(MyError::InsufficientBalance)
    );
    let mut ledger = entered(0, 10);
    ledger.set_balance(&user(), u64::MAX);
    assert_eq!(insecure().mint_order(&ledger, &program(), 50), Err(MyError::ArithmeticOverflow));
}

#[test]
fn redeem_passes_the_issuers_failure_on_and_changes_nothing() {
    let mut ledger = entered(0, 1000);
    let failed = Err(IssueError { code: 6 });
    assert_eq!(
        redeem_winnings_secure(&mut ledger, &program(), &secure(), 50, failed),
        Err(MyError::IssueError(IssueError { code: 6 }))
    );
    assert_eq!(
        redeem_winnings_insecure(&mut ledger, &program(), &insecure(), 50, failed),
        Err(MyError::IssueError(IssueError { code: 6 }))
    );
    assert_eq!(ledger.get_balance(&entry()), 1000);
    assert_eq!(ledger.get_balance(&user()), 0);
    assert_eq!(phase(&ledger, &entry()), Phase::Active);
    assert_eq!(
        redeem_winnings_secure(&mut ledger, &program(), &secure(), 50, Ok(())),
        Ok(Receipt { reward: 500, refund: 1000 })
    );
}

#[test]
fn secure_redeem_cannot_be_repeated_after_a_refund() {
    let mut ledger = entered(0, 1000);
    assert!(redeem_winnings_secure(&mut ledger, &program(), &secure(), 50, Ok(())).is_ok());
    assert_eq!(ledger.credit(&entry(), 890), Ok(()));
    assert_eq!(secure().mint_order(&ledger, &program(), 60), Err(MyError::Tombstoned));
    assert_eq!(
        redeem_winnings_secure(&mut ledger, &program(), &secure(), 60, Ok(())),
        Err(MyError::Tombstoned)
    );
    assert_eq!(
        redeem_winnings_insecure(&mut ledger, &program(), &insecure(), 60, Ok(())),
        Err(MyError::Tombstoned)
    );
    assert_eq!(
        enter_lottery(&mut ledger, &program(), &entering(), 60, 1),
        Err(MyError::Tombstoned)
    );
    assert_eq!(sweep(&mut ledger, &entry(), &user()), Ok(890));
    assert_eq!(ledger.get_balance(&user()), 1890);
}

#[test]
fn insecure_redeem_leaves_a_cell_that_can_be_entered_and_redeemed_again() {
    let mut ledger = entered(0, 1000);
    assert_eq!(
        redeem_winnings_insecure(&mut ledger, &program(), &insecure(), 50, Ok(())),
        Ok(Receipt { reward: 500, refund: 1000 })
    );
    assert_eq!(ledger.read(&entry()), vec![0u8; 81]);
    assert_eq!(phase(&ledger, &entry()), Phase::Uninitialized);
    assert_eq!(
        redeem_winnings_insecure(&mut ledger, &program(), &insecure(), 50, Ok(())),
        Err(MyError::NotFound)
    );
    assert_eq!(ledger.credit(&entry(), 890), Ok(()));
    assert_eq!(sweep(&mut ledger, &entry(), &user()), Err(MyError::NotTombstoned));
    assert_eq!(enter_lottery(&mut ledger, &program(), &entering(), 0, 5), Ok(()));
    assert_eq!(
        redeem_winnings_insecure(&mut ledger, &program(), &insecure(), 50, Ok(())),
        Ok(Receipt { reward: 500, refund: 5 })
    );
}

#[test]
fn redeem_at_goes_by_the_derivations_it_is_given() {
    let slot = Address::new([1u8; 32]);
    let authority = Address::new([5u8; 32]);
    let accounts = RedeemAccounts {
        lottery_entry: slot,
        user: user(),
        user_ata: user_ata(),
        reward_mint: mint(),
        mint_auth: authority,
        token_program: token_program(),
    };
    let entry = Some((slot, 200));
    let mut ledger = Ledger::new();
    assert!(create_at(&mut ledger, &slot, &user(), &user_ata().key, 100, 30, entry).is_ok());
    let secure = ClosureStrategy::Secure;
    assert_eq!(
        accounts.mint_order_at(&ledger, 103, secure, entry, None),
        Err(MyError::AddressMismatch)
    );
    assert_eq!(
        accounts.mint_order_at(&ledger, 103, secure, entry, Some((slot, 7))),
        Err(MyError::AddressMismatch)
    );
    assert_eq!(
        accounts.mint_order_at(&ledger, 103, secure, None, Some((authority, 7))),
        Err(MyError::AddressMismatch)
    );
    assert_eq!(
        accounts.mint_order_at(&ledger, 103, secure, entry, Some((authority, 7))),
        Ok(MintOrder {
            token_program: token_program(),
            accounts: accounts.mint_ctx(),
            authority_bump: 7,
            amount: 30,
        })
    );
    assert_eq!(
        accounts.redeem_at(&mut ledger, 103, secure, Err(IssueError { code: 1 }), entry, None),
        Err(MyError::AddressMismatch)
    );
    assert_eq!(
        accounts.redeem_at(&mut ledger, 103, secure, Ok(()), entry, Some((authority, 7))),
        Ok(Receipt { reward: 30, refund: 30 })
    );
    assert_eq!(phase(&ledger, &slot), Phase::Closed);
    assert_eq!(ledger.get_balance(&user()), 30);
}

#[test]
fn redeem_under_a_program_is_redeem_at_with_what_the_program_derives() {
    let accounts = RedeemAccounts {
        lottery_entry: entry(),
        user: user(),
        user_ata: user_ata(),
        reward_mint: mint(),
        mint_auth: mint_auth().0,
        token_program: token_program(),
    };
    let mut one = entered(0, 1000);
    let mut other = entered(0, 1000);
    let found = find_record_address(&user(), &program());
    let here = accounts.redeem(&mut one, &program(), 50, ClosureStrategy::Insecure, Ok(()));
    let there = accounts.redeem_at(
        &mut other,
        50,
        ClosureStrategy::Insecure,
        Ok(()),
        found,
        Some(mint_auth()),
    );
    assert_eq!(here, Ok(Receipt { reward: 500, refund: 1000 }));
    assert_eq!(here, there);
    assert_eq!(one.read(&entry()), other.read(&entry()));
    let elsewhere = accounts.redeem(
        &mut entered(0, 1000),
        &Address::new([1u8; 32]),
        50,
        ClosureStrategy::Insecure,
        Ok(()),
    );
    assert_eq!(elsewhere, Err(MyError::AddressMismatch));
}
