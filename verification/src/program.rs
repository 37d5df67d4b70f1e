//! The instructions of the lottery: enter, and redeem the winnings with
//! one of the two closure strategies. Paying the reward is the work of a
//! token program outside this library; the instructions say what is to be
//! paid and take the issuer's answer.

use crate::address::{
    derives, find_mint_authority, find_record_address, found_view, gives, mint_authority_derivation,
    record_derivation, seed, Address, Derivation, MINT_SEED,
};
use crate::error::{IssueError, MyError};
use crate::ledger::{Ledger, LedgerState};
use crate::reward::{reward, reward_spec, REWARD_RATE};
use crate::store::{
    close_at, close_effect, close_outcome, create, create_effect, create_result, load_active_at,
    load_active_spec, load_outcome, releasable_at, ClosureStrategy,
};
use vstd::prelude::*;

verus! {

/// What the instructions read of a token account.
#[derive(Clone, Copy, Debug, PartialEq, Eq)]
pub struct TokenAccount {
    /// The address of the token account.
    pub key: Address,
    /// The mint whose tokens the account holds.
    pub mint: Address,
}

/// The accounts of `enter_lottery`.
#[derive(Clone, Copy, Debug, PartialEq, Eq)]
pub struct EnterLottery {
    /// The cell that is to hold the entry.
    pub lottery_entry: Address,
    /// The token account that the winnings will be redeemed into.
    pub user_ata: TokenAccount,
    /// The account that enters.
    pub user: Address,
}

/// The accounts of a redemption, whatever the closure strategy.
#[derive(Clone, Copy, Debug, PartialEq, Eq)]
pub struct RedeemAccounts {
    /// The cell that holds the entry.
    pub lottery_entry: Address,
    /// The account that redeems.
    pub user: Address,
    /// The token account to pay into.
    pub user_ata: TokenAccount,
    /// The mint of the reward.
    pub reward_mint: Address,
    /// The address that holds the authority over the mint.
    pub mint_auth: Address,
    /// The token program that is to pay.
    pub token_program: Address,
}

/// The accounts of `redeem_winnings_insecure`.
#[derive(Clone, Copy, Debug, PartialEq, Eq)]
pub struct RedeemWinnings {
    /// The cell that holds the entry.
    pub lottery_entry: Address,
    /// The account that redeems.
    pub user: Address,
    /// The token account to pay into.
    pub user_ata: TokenAccount,
    /// The mint of the reward.
    pub reward_mint: Address,
    /// The address that holds the authority over the mint.
    pub mint_auth: Address,
    /// The token program that is to pay.
    pub token_program: Address,
}

/// The accounts of `redeem_winnings_secure`.
#[derive(Clone, Copy, Debug, PartialEq, Eq)]
pub struct RedeemWinningsSecure {
    /// The cell that holds the entry.
    pub lottery_entry: Address,
    /// The account that redeems.
    pub user: Address,
    /// The token account to pay into.
    pub user_ata: TokenAccount,
    /// The mint of the reward.
    pub reward_mint: Address,
    /// The address that holds the authority over the mint.
    pub mint_auth: Address,
    /// The token program that is to pay.
    pub token_program: Address,
}

/// The accounts that a mint instruction of the token program takes.
#[derive(Clone, Copy, Debug, PartialEq, Eq)]
pub struct MintTo {
    /// The mint to issue from.
    pub mint: Address,
    /// The token account to pay into.
    pub to: Address,
    /// The authority over the mint.
    pub authority: Address,
}

/// A reward that is to be issued: the token program has to mint `amount`
/// with `accounts`, signed for by the seeds of the mint authority.
#[derive(Clone, Copy, Debug, PartialEq, Eq)]
pub struct MintOrder {
    /// The token program that is to pay.
    pub token_program: Address,
    /// The accounts of the mint instruction.
    pub accounts: MintTo,
    /// The bump seed of the mint authority's address.
    pub authority_bump: u8,
    /// The reward.
    pub amount: u64,
}

/// What a redemption did.
#[derive(Clone, Copy, Debug, PartialEq, Eq)]
pub struct Receipt {
    /// The reward that was issued.
    pub reward: u64,
    /// The balance of the entry's cell, released to the owner.
    pub refund: u64,
}

impl RedeemWinnings {
    /// The accounts, without the strategy that they are meant for.
    pub open spec fn accounts(self) -> RedeemAccounts {
        RedeemAccounts {
            lottery_entry: self.lottery_entry,
            user: self.user,
            user_ata: self.user_ata,
            reward_mint: self.reward_mint,
            mint_auth: self.mint_auth,
            token_program: self.token_program,
        }
    }

    fn to_accounts(&self) -> (a: RedeemAccounts)
        ensures
            a == self.accounts(),
    {
        RedeemAccounts {
            lottery_entry: self.lottery_entry,
            user: self.user,
            user_ata: self.user_ata,
            reward_mint: self.reward_mint,
            mint_auth: self.mint_auth,
            token_program: self.token_program,
        }
    }

    /// The accounts of the mint instruction that pays the reward.
    pub fn mint_ctx(&self) -> (m: MintTo)
        ensures
            m == self.accounts().mint_to(),
    {
        self.to_accounts().mint_ctx()
    }

    /// Tells what is to be issued before `redeem_winnings_insecure` may
    /// run, and changes nothing. It refuses exactly where that function
    /// would refuse, whatever the issuer answered.
    pub fn mint_order(&self, ledger: &Ledger, program_id: &Address, now: i64) -> (r: Result<
        MintOrder,
        MyError,
    >)
        ensures
            r == mint_order_spec(
                ledger@,
                *program_id,
                self.accounts(),
                now,
                ClosureStrategy::Insecure,
            ),
    {
        self.to_accounts().mint_order(ledger, program_id, now, ClosureStrategy::Insecure)
    }
}

impl RedeemWinningsSecure {
    /// The accounts, without the strategy that they are meant for.
    pub open spec fn accounts(self) -> RedeemAccounts {
        RedeemAccounts {
            lottery_entry: self.lottery_entry,
            user: self.user,
            user_ata: self.user_ata,
            reward_mint: self.reward_mint,
            mint_auth: self.mint_auth,
            token_program: self.token_program,
        }
    }

    fn to_accounts(&self) -> (a: RedeemAccounts)
        ensures
            a == self.accounts(),
    {
        RedeemAccounts {
            lottery_entry: self.lottery_entry,
            user: self.user,
            user_ata: self.user_ata,
            reward_mint: self.reward_mint,
            mint_auth: self.mint_auth,
            token_program: self.token_program,
        }
    }

    /// The accounts of the mint instruction that pays the reward.
    pub fn mint_ctx(&self) -> (m: MintTo)
        ensures
            m == self.accounts().mint_to(),
    {
        self.to_accounts().mint_ctx()
    }

    /// Tells what is to be issued before `redeem_winnings_secure` may
    /// run, and changes nothing. It refuses exactly where that function
    /// would refuse, whatever the issuer answered.
    pub fn mint_order(&self, ledger: &Ledger, program_id: &Address, now: i64) -> (r: Result<
        MintOrder,
        MyError,
    >)
        ensures
            r == mint_order_spec(
                ledger@,
                *program_id,
                self.accounts(),
                now,
                ClosureStrategy::Secure,
            ),
    {
        self.to_accounts().mint_order(ledger, program_id, now, ClosureStrategy::Secure)
    }
}

impl RedeemAccounts {
    /// The accounts of the mint instruction that pays the reward.
    pub open spec fn mint_to(self) -> MintTo {
        MintTo { mint: self.reward_mint, to: self.user_ata.key, authority: self.mint_auth }
    }

    /// The accounts of the mint instruction that pays the reward.
    pub fn mint_ctx(&self) -> (m: MintTo)
        ensures
            m == self.mint_to(),
    {
        MintTo { mint: self.reward_mint, to: self.user_ata.key, authority: self.mint_auth }
    }

    /// Tells what is to be issued before the entry may be redeemed and
    /// closed with the strategy, and changes nothing. `entry` is the
    /// derivation of the entry's address from `user`, `authority` that of
    /// the mint authority's address.
    ///
    /// The entry is read as `load_active_at` reads it for `user`, and the
    /// same failures come out. Then it fails with `Unauthorized` unless
    /// `user_ata` is the receipt address that the entry carries; with
    /// `InvalidMint` unless `user_ata` holds tokens of `reward_mint`; with
    /// `AddressMismatch` unless the second derivation gives `mint_auth`;
    /// with `ArithmeticOverflow` where the reward cannot be computed; and
    /// wherever closing the entry in favour of `user` would be refused,
    /// as `releasable_at` tells. So nothing is issued for an entry that
    /// cannot be closed afterwards.
    ///
    /// The order names the reward for the time since the entry was made,
    /// at the fixed rate, the accounts of `mint_ctx`, and the bump seed of
    /// the second derivation.
    pub fn mint_order_at(
        &self,
        ledger: &Ledger,
        now: i64,
        strategy: ClosureStrategy,
        entry: Option<(Address, u8)>,
        authority: Option<(Address, u8)>,
    ) -> (r: Result<MintOrder, MyError>)
        ensures
            r == order_outcome(
                ledger@,
                *self,
                now,
                strategy,
                found_view(entry),
                found_view(authority),
            ),
    {
        let record = match load_active_at(ledger, &self.lottery_entry, &self.user, entry) {
            Err(e) => {
                return Err(e);
            },
            Ok(record) => record,
        };
        if self.user_ata.key != record.user_ata {
            return Err(MyError::Unauthorized);
        }
        if self.reward_mint != self.user_ata.mint {
            return Err(MyError::InvalidMint);
        }
        if !gives(authority, &self.mint_auth) {
            return Err(MyError::AddressMismatch);
        }
        let authority_bump = match authority {
            Some((_, bump)) => bump,
            None => {
                return Err(MyError::AddressMismatch);
            },
        };
        let amount = match reward(record.timestamp, now, REWARD_RATE) {
            Err(_) => {
                return Err(MyError::ArithmeticOverflow);
            },
            Ok(amount) => amount,
        };
        match releasable_at(ledger, &self.lottery_entry, &self.user, strategy, &self.user, entry) {
            Err(e) => Err(e),
            Ok(_) => Ok(
                MintOrder {
                    token_program: self.token_program,
                    accounts: self.mint_ctx(),
                    authority_bump,
                    amount,
                },
            ),
        }
    }

    /// Tells what is to be issued under the program: derives the two
    /// addresses and goes on as `mint_order_at` does.
    pub fn mint_order(
        &self,
        ledger: &Ledger,
        program_id: &Address,
        now: i64,
        strategy: ClosureStrategy,
    ) -> (r: Result<MintOrder, MyError>)
        ensures
            r == mint_order_spec(ledger@, *program_id, *self, now, strategy),
    {
        let entry = find_record_address(&self.user, program_id);
        let authority = find_mint_authority(program_id);
        self.mint_order_at(ledger, now, strategy, entry, authority)
    }

    /// Redeems the entry and closes it with the strategy, given what the
    /// issuer answered to the order of `mint_order_at`. `entry` is the
    /// derivation of the entry's address from `user`, `authority` that of
    /// the mint authority's address.
    ///
    /// It refuses wherever `mint_order_at` refuses, with the same failure;
    /// so it fails with `Unauthorized` wherever the entry is live and
    /// `user_ata` is not the receipt address that it carries. Otherwise it
    /// fails with the issuer's error where the issuer failed. A failure
    /// changes nothing. Otherwise the entry is closed in favour of `user`,
    /// as `close_at` does it, and the receipt tells the reward and the
    /// balance released.
    pub fn redeem_at(
        &self,
        ledger: &mut Ledger,
        now: i64,
        strategy: ClosureStrategy,
        issued: Result<(), IssueError>,
        entry: Option<(Address, u8)>,
        authority: Option<(Address, u8)>,
    ) -> (r: Result<Receipt, MyError>)
        ensures
            r == redeem_outcome(
                old(ledger)@,
                *self,
                now,
                strategy,
                issued,
                found_view(entry),
                found_view(authority),
            ),
            final(ledger)@ == redeem_effect(old(ledger)@, *self, strategy, r),
            load_outcome(old(ledger)@, self.lottery_entry, self.user, found_view(entry)) matches Ok(
                record,
            ) && self.user_ata.key != record.user_ata ==> r == Err::<Receipt, MyError>(
                MyError::Unauthorized,
            ),
    {
        let order = match self.mint_order_at(ledger, now, strategy, entry, authority) {
            Err(e) => {
                return Err(e);
            },
            Ok(order) => order,
        };
        match issued {
            Err(e) => Err(MyError::IssueError(e)),
            Ok(_) => {
                match close_at(ledger, &self.lottery_entry, &self.user, strategy, &self.user, entry) {
                    Err(e) => Err(e),
                    Ok(refund) => Ok(Receipt { reward: order.amount, refund }),
                }
            },
        }
    }

    /// Redeems the entry and closes it under the program: derives the two
    /// addresses and goes on as `redeem_at` does.
    pub fn redeem(
        &self,
        ledger: &mut Ledger,
        program_id: &Address,
        now: i64,
        strategy: ClosureStrategy,
        issued: Result<(), IssueError>,
    ) -> (r: Result<Receipt, MyError>)
        ensures
            r == redeem_result(old(ledger)@, *program_id, *self, now, strategy, issued),
            final(ledger)@ == redeem_effect(old(ledger)@, *self, strategy, r),
            load_active_spec(old(ledger)@, *program_id, self.lottery_entry, self.user) matches Ok(
                record,
            ) && self.user_ata.key != record.user_ata ==> r == Err::<Receipt, MyError>(
                MyError::Unauthorized,
            ),
    {
        let entry = find_record_address(&self.user, program_id);
        let authority = find_mint_authority(program_id);
        self.redeem_at(ledger, now, strategy, issued, entry, authority)
    }
}

impl MintOrder {
    /// The seeds that sign for the mint authority.
    pub open spec fn signer_seeds_spec(self) -> Seq<Seq<u8>> {
        seq![MINT_SEED@, seq![self.authority_bump]]
    }

    /// The seeds that sign for the mint authority.
    pub fn signer_seeds(&self) -> (seeds: Vec<Vec<u8>>)
        ensures
            seeds.deep_view() == self.signer_seeds_spec(),
    {
        let mut last: Vec<u8> = Vec::new();
        last.push(self.authority_bump);
        let mut seeds: Vec<Vec<u8>> = Vec::new();
        seeds.push(seed(&MINT_SEED));
        seeds.push(last);
        assert(seeds.deep_view() =~~= self.signer_seeds_spec());
        seeds
    }
}

/// What `mint_order_at` answers, `entry` being the derivation of the
/// entry's address from the user and `authority` that of the address of
/// the mint authority.
pub open spec fn order_outcome(
    s: LedgerState,
    accounts: RedeemAccounts,
    now: i64,
    strategy: ClosureStrategy,
    entry: Derivation,
    authority: Derivation,
) -> Result<MintOrder, MyError> {
    match load_outcome(s, accounts.lottery_entry, accounts.user, entry) {
        Err(e) => Err(e),
        Ok(record) => {
            if accounts.user_ata.key != record.user_ata {
                Err(MyError::Unauthorized)
            } else if accounts.reward_mint != accounts.user_ata.mint {
                Err(MyError::InvalidMint)
            } else {
                match authority {
                    None => Err(MyError::AddressMismatch),
                    Some((_, bump)) => {
                        if !derives(authority, accounts.mint_auth) {
                            Err(MyError::AddressMismatch)
                        } else {
                            match reward_spec(record.timestamp, now, REWARD_RATE) {
                                None => Err(MyError::ArithmeticOverflow),
                                Some(amount) => match close_outcome(
                                    s,
                                    accounts.lottery_entry,
                                    accounts.user,
                                    strategy,
                                    accounts.user,
                                    entry,
                                ) {
                                    Err(e) => Err(e),
                                    Ok(_) => Ok(
                                        MintOrder {
                                            token_program: accounts.token_program,
                                            accounts: accounts.mint_to(),
                                            authority_bump: bump,
                                            amount,
                                        },
                                    ),
                                },
                            }
                        }
                    },
                }
            }
        },
    }
}

/// What `redeem_at` answers.
pub open spec fn redeem_outcome(
    s: LedgerState,
    accounts: RedeemAccounts,
    now: i64,
    strategy: ClosureStrategy,
    issued: Result<(), IssueError>,
    entry: Derivation,
    authority: Derivation,
) -> Result<Receipt, MyError> {
    match order_outcome(s, accounts, now, strategy, entry, authority) {
        Err(e) => Err(e),
        Ok(order) => match issued {
            Err(e) => Err(MyError::IssueError(e)),
            Ok(_) => Ok(Receipt { reward: order.amount, refund: s[accounts.lottery_entry].balance }),
        },
    }
}

/// The ledger after a redemption with the given outcome.
pub open spec fn redeem_effect(
    s: LedgerState,
    accounts: RedeemAccounts,
    strategy: ClosureStrategy,
    outcome: Result<Receipt, MyError>,
) -> LedgerState {
    match outcome {
        Ok(receipt) => close_effect(
            s,
            accounts.lottery_entry,
            strategy,
            accounts.user,
            Ok(receipt.refund),
        ),
        Err(_) => s,
    }
}

/// What `mint_order` answers under a program.
pub open spec fn mint_order_spec(
    s: LedgerState,
    program_id: Address,
    accounts: RedeemAccounts,
    now: i64,
    strategy: ClosureStrategy,
) -> Result<MintOrder, MyError> {
    order_outcome(
        s,
        accounts,
        now,
        strategy,
        record_derivation(accounts.user, program_id),
        mint_authority_derivation(program_id),
    )
}

/// What a redemption answers under a program.
pub open spec fn redeem_result(
    s: LedgerState,
    program_id: Address,
    accounts: RedeemAccounts,
    now: i64,
    strategy: ClosureStrategy,
    issued: Result<(), IssueError>,
) -> Result<Receipt, MyError> {
    redeem_outcome(
        s,
        accounts,
        now,
        strategy,
        issued,
        record_derivation(accounts.user, program_id),
        mint_authority_derivation(program_id),
    )
}

/// Enters `user` into the lottery at time `now`: creates the entry in the
/// cell `lottery_entry`, with `deposit` as its balance and `user_ata` as
/// the address to redeem into. It refuses where `create` refuses, with
/// the same failure, and then changes nothing.
pub fn enter_lottery(
    ledger: &mut Ledger,
    program_id: &Address,
    ctx: &EnterLottery,
    now: i64,
    deposit: u64,
) -> (r: Result<(), MyError>)
    ensures
        r == match create_result(
            old(ledger)@,
            *program_id,
            ctx.lottery_entry,
            ctx.user,
            ctx.user_ata.key,
            now,
        ) {
            Ok(_) => Ok(()),
            Err(e) => Err(e),
        },
        final(ledger)@ == create_effect(
            old(ledger)@,
            ctx.lottery_entry,
            deposit,
            create_result(
                old(ledger)@,
                *program_id,
                ctx.lottery_entry,
                ctx.user,
                ctx.user_ata.key,
                now,
            ),
        ),
{
    match create(ledger, program_id, &ctx.lottery_entry, &ctx.user, &ctx.user_ata.key, now, deposit) {
        Ok(_) => Ok(()),
        Err(e) => Err(e),
    }
}

/// Redeems the winnings of the entry and closes it with the insecure
/// strategy, given what the issuer answered to the order of
/// `RedeemWinnings::mint_order`. The cell is left without balance and
/// without tombstone: it can be entered again. Kept to show what the
/// tombstone is for.
///
/// It fails with `Unauthorized` wherever the entry is live and `user_ata`
/// is not the receipt address that it carries.
pub fn redeem_winnings_insecure(
    ledger: &mut Ledger,
    program_id: &Address,
    ctx: &RedeemWinnings,
    now: i64,
    issued: Result<(), IssueError>,
) -> (r: Result<Receipt, MyError>)
    ensures
        r == redeem_result(
            old(ledger)@,
            *program_id,
            ctx.accounts(),
            now,
            ClosureStrategy::Insecure,
            issued,
        ),
        final(ledger)@ == redeem_effect(old(ledger)@, ctx.accounts(), ClosureStrategy::Insecure, r),
        load_active_spec(old(ledger)@, *program_id, ctx.lottery_entry, ctx.user) matches Ok(record)
            && ctx.user_ata.key != record.user_ata ==> r == Err::<Receipt, MyError>(
            MyError::Unauthorized,
        ),
{
    ctx.to_accounts().redeem(ledger, program_id, now, ClosureStrategy::Insecure, issued)
}

/// Redeems the winnings of the entry and closes it with the secure
/// strategy, given what the issuer answered to the order of
/// `RedeemWinningsSecure::mint_order`. The cell is left tombstoned and
/// without balance.
///
/// It fails with `Unauthorized` wherever the entry is live and `user_ata`
/// is not the receipt address that it carries.
pub fn redeem_winnings_secure(
    ledger: &mut Ledger,
    program_id: &Address,
    ctx: &RedeemWinningsSecure,
    now: i64,
    issued: Result<(), IssueError>,
) -> (r: Result<Receipt, MyError>)
    ensures
        r == redeem_result(
            old(ledger)@,
            *program_id,
            ctx.accounts(),
            now,
            ClosureStrategy::Secure,
            issued,
        ),
        final(ledger)@ == redeem_effect(old(ledger)@, ctx.accounts(), ClosureStrategy::Secure, r),
        load_active_spec(old(ledger)@, *program_id, ctx.lottery_entry, ctx.user) matches Ok(record)
            && ctx.user_ata.key != record.user_ata ==> r == Err::<Receipt, MyError>(
            MyError::Unauthorized,
        ),
{
    ctx.to_accounts().redeem(ledger, program_id, now, ClosureStrategy::Secure, issued)
}

} // verus!
