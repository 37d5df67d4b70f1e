//! What holds of the record store across its operations. The laws speak
//! of the outcomes and effects that the contracts of the operations are
//! stated with, and hold whatever the derivation of an address gives.

use crate::address::{Address, Derivation};
use crate::error::{IssueError, MyError};
use crate::ledger::{credit_effect, LedgerState};
use crate::program::{order_outcome, redeem_effect, redeem_outcome, MintOrder, RedeemAccounts};
use crate::record::{
    is_tombstoned, lemma_record_fields, lemma_stored_record_bytes, lemma_stored_record_of_bytes,
    lemma_tombstone_bytes, stored_record, LotteryAccount,
};
use crate::store::{
    close_effect, close_outcome, create_effect, create_outcome, load_outcome, phase_of,
    sweep_effect, sweep_result, ClosureStrategy, Phase,
};
use vstd::prelude::*;

verus! {

/// A record that was just created is read back for its owner as it was
/// written: it carries the time of its creation, its owner and the
/// receipt address, and its cell is active with the deposit as balance.
pub proof fn lemma_create_then_load(
    s: LedgerState,
    slot: Address,
    owner: Address,
    receipt_address: Address,
    now: i64,
    deposit: u64,
    found: Derivation,
)
    requires
        create_outcome(s, slot, owner, receipt_address, now, found) is Ok,
    ensures
        ({
            let created = create_outcome(s, slot, owner, receipt_address, now, found);
            let after = create_effect(s, slot, deposit, created);
            let loaded = load_outcome(after, slot, owner, found);
            &&& loaded == created
            &&& loaded matches Ok(record) && record.timestamp == now && record.user == owner
                && record.user_ata == receipt_address
            &&& phase_of(after[slot]) == Phase::Active
            &&& after[slot].balance == deposit
            &&& forall|a: Address| a != slot ==> after[a] == s[a]
        }),
{
    let record = create_outcome(s, slot, owner, receipt_address, now, found)->Ok_0;
    lemma_record_fields(record);
    lemma_stored_record_of_bytes(record);
}

/// A cell that carries the tombstone is never read as a record, whoever
/// asks and whatever derives, and no entry is created in it.
pub proof fn lemma_tombstone_is_final(
    s: LedgerState,
    address: Address,
    anybody: Address,
    receipt_address: Address,
    now: i64,
    found: Derivation,
)
    requires
        is_tombstoned(s[address].data),
    ensures
        load_outcome(s, address, anybody, found) == Err::<LotteryAccount, MyError>(
            MyError::Tombstoned,
        ),
        create_outcome(s, address, anybody, receipt_address, now, found) is Err,
        phase_of(s[address]) == Phase::Closed || phase_of(s[address]) == Phase::Reclaimable,
{
}

/// After a secure close the cell carries the tombstone and no balance,
/// what it held has gone to the recipient, and no other cell changed.
pub proof fn lemma_secure_close_tombstones(
    s: LedgerState,
    address: Address,
    owner: Address,
    recipient: Address,
    found: Derivation,
)
    requires
        close_outcome(s, address, owner, ClosureStrategy::Secure, recipient, found) is Ok,
    ensures
        ({
            let closed = close_outcome(s, address, owner, ClosureStrategy::Secure, recipient, found);
            let after = close_effect(s, address, ClosureStrategy::Secure, recipient, closed);
            &&& closed == Ok::<u64, MyError>(s[address].balance)
            &&& is_tombstoned(after[address].data)
            &&& phase_of(after[address]) == Phase::Closed
            &&& after[address].balance == 0
            &&& after[recipient].balance == s[recipient].balance + s[address].balance
            &&& after[recipient].data == s[recipient].data
            &&& forall|a: Address| a != address && a != recipient ==> after[a] == s[a]
        }),
{
    lemma_tombstone_bytes();
}

/// After a secure close every attempt to read the record fails with
/// `Tombstoned`, whoever asks and whatever derives, and whatever has been
/// paid into the cell or any other since: only the bytes of the cell
/// count.
pub proof fn lemma_secure_close_is_final(
    s: LedgerState,
    address: Address,
    owner: Address,
    recipient: Address,
    found: Derivation,
    later: LedgerState,
    anybody: Address,
    any_found: Derivation,
)
    requires
        close_outcome(s, address, owner, ClosureStrategy::Secure, recipient, found) is Ok,
        later[address].data == close_effect(
            s,
            address,
            ClosureStrategy::Secure,
            recipient,
            close_outcome(s, address, owner, ClosureStrategy::Secure, recipient, found),
        )[address].data,
    ensures
        load_outcome(later, address, anybody, any_found) == Err::<LotteryAccount, MyError>(
            MyError::Tombstoned,
        ),
{
    lemma_secure_close_tombstones(s, address, owner, recipient, found);
}

/// A refund changes the balance of one cell and the bytes of none.
pub proof fn lemma_refund_keeps_bytes(s: LedgerState, to: Address, amount: u64, address: Address)
    ensures
        credit_effect(s, to, amount)[address].data == s[address].data,
        address != to ==> credit_effect(s, to, amount)[address] == s[address],
        s[to].balance + amount <= u64::MAX ==> credit_effect(s, to, amount)[to].balance
            == s[to].balance + amount,
        s[to].balance + amount > u64::MAX ==> credit_effect(s, to, amount) == s,
{
}

/// After a secure close and a refund of any amount to the closed cell,
/// reading the record still fails with `Tombstoned`.
pub proof fn lemma_secure_close_then_refund(
    s: LedgerState,
    address: Address,
    owner: Address,
    recipient: Address,
    found: Derivation,
    refund: u64,
    anybody: Address,
    any_found: Derivation,
)
    requires
        close_outcome(s, address, owner, ClosureStrategy::Secure, recipient, found) is Ok,
    ensures
        load_outcome(
            credit_effect(
                close_effect(
                    s,
                    address,
                    ClosureStrategy::Secure,
                    recipient,
                    close_outcome(s, address, owner, ClosureStrategy::Secure, recipient, found),
                ),
                address,
                refund,
            ),
            address,
            anybody,
            any_found,
        ) == Err::<LotteryAccount, MyError>(MyError::Tombstoned),
{
    let closed = close_effect(
        s,
        address,
        ClosureStrategy::Secure,
        recipient,
        close_outcome(s, address, owner, ClosureStrategy::Secure, recipient, found),
    );
    lemma_refund_keeps_bytes(closed, address, refund, address);
    lemma_secure_close_is_final(
        s,
        address,
        owner,
        recipient,
        found,
        credit_effect(closed, address, refund),
        anybody,
        any_found,
    );
}

/// Sweeping a tombstoned cell that holds a balance moves exactly that
/// balance to the destination, leaves the cell tombstoned and empty, and
/// touches no other cell; a second sweep, to any destination, reclaims
/// nothing and changes nothing.
///
/// The destination has to be another cell, and able to take the balance.
pub proof fn lemma_sweep_reclaims_once(
    s: LedgerState,
    address: Address,
    destination: Address,
    next_destination: Address,
)
    requires
        is_tombstoned(s[address].data),
        s[address].balance > 0,
        destination != address,
        s[destination].balance + s[address].balance <= u64::MAX,
    ensures
        ({
            let after = sweep_effect(s, address, destination);
            &&& phase_of(s[address]) == Phase::Reclaimable
            &&& sweep_result(s, address, destination) == Ok::<u64, MyError>(s[address].balance)
            &&& after[destination].balance == s[destination].balance + s[address].balance
            &&& after[destination].data == s[destination].data
            &&& after[address].balance == 0
            &&& after[address].data == s[address].data
            &&& phase_of(after[address]) == Phase::Closed
            &&& forall|a: Address| a != address && a != destination ==> after[a] == s[a]
            &&& sweep_result(after, address, next_destination) == Ok::<u64, MyError>(0)
            &&& sweep_effect(after, address, next_destination) == after
        }),
{
}

/// Sweeping reads the type tag and nothing else: a cell without the
/// tombstone is refused, and a tombstoned cell without balance gives zero,
/// whatever the rest of its bytes and whoever the destination. A sweep
/// that is refused changes nothing.
pub proof fn lemma_sweep_reads_the_tag_only(s: LedgerState, address: Address, destination: Address)
    ensures
        !is_tombstoned(s[address].data) ==> sweep_result(s, address, destination) == Err::<
            u64,
            MyError,
        >(MyError::NotTombstoned),
        is_tombstoned(s[address].data) && s[address].balance == 0 ==> sweep_result(
            s,
            address,
            destination,
        ) == Ok::<u64, MyError>(0),
        sweep_result(s, address, destination) is Err ==> sweep_effect(s, address, destination)
            == s,
{
}

/// After an insecure close the cell reads as one that was never used: it
/// carries no tombstone, so nothing can be swept from it, and the owner's
/// entry can be created in it again, at any time and with any receipt
/// address, after which the cell is active once more. After a secure
/// close of the same record the same attempt fails with `Tombstoned`.
pub proof fn lemma_insecure_close_can_be_reopened(
    s: LedgerState,
    address: Address,
    owner: Address,
    recipient: Address,
    found: Derivation,
    again: i64,
    receipt_address: Address,
    deposit: u64,
)
    requires
        close_outcome(s, address, owner, ClosureStrategy::Insecure, recipient, found) is Ok,
    ensures
        ({
            let after = close_effect(
                s,
                address,
                ClosureStrategy::Insecure,
                recipient,
                close_outcome(s, address, owner, ClosureStrategy::Insecure, recipient, found),
            );
            let recreated = create_outcome(after, address, owner, receipt_address, again, found);
            let reopened = create_effect(after, address, deposit, recreated);
            &&& !is_tombstoned(after[address].data)
            &&& phase_of(after[address]) == Phase::Uninitialized
            &&& sweep_result(after, address, recipient) == Err::<u64, MyError>(
                MyError::NotTombstoned,
            )
            &&& recreated is Ok
            &&& phase_of(reopened[address]) == Phase::Active
            &&& load_outcome(reopened, address, owner, found) == recreated
        }),
        ({
            let secured = close_outcome(s, address, owner, ClosureStrategy::Secure, owner, found);
            let after = close_effect(s, address, ClosureStrategy::Secure, owner, secured);
            secured is Ok ==> create_outcome(after, address, owner, receipt_address, again, found)
                == Err::<LotteryAccount, MyError>(MyError::Tombstoned)
        }),
{
    lemma_tombstone_bytes();
    let after = close_effect(
        s,
        address,
        ClosureStrategy::Insecure,
        recipient,
        close_outcome(s, address, owner, ClosureStrategy::Insecure, recipient, found),
    );
    lemma_create_then_load(after, address, owner, receipt_address, again, deposit, found);
}

/// A close moves value and neither makes nor loses any: what the cell
/// and the recipient hold together is the same before and after. A close
/// that is refused changes nothing. The balance and the type tag change
/// together or not at all: a close that is accepted was of an active cell
/// and leaves it without balance and without record.
pub proof fn lemma_close_is_all_or_nothing(
    s: LedgerState,
    address: Address,
    owner: Address,
    strategy: ClosureStrategy,
    recipient: Address,
    found: Derivation,
)
    ensures
        ({
            let closed = close_outcome(s, address, owner, strategy, recipient, found);
            let after = close_effect(s, address, strategy, recipient, closed);
            &&& after[address].balance + after[recipient].balance == s[address].balance
                + s[recipient].balance
            &&& closed is Err ==> after == s
            &&& closed is Ok ==> {
                &&& phase_of(s[address]) == Phase::Active
                &&& phase_of(after[address]) != Phase::Active
                &&& after[address].balance == 0
                &&& stored_record(after[address].data) is None
            }
        }),
{
    lemma_tombstone_bytes();
    if close_outcome(s, address, owner, strategy, recipient, found) is Ok {
        lemma_stored_record_bytes(s[address].data);
    }
}

/// No operation lifts a tombstone: a cell that carries it before a
/// creation, a closure, a sweep or a refund carries it afterwards.
pub proof fn lemma_tombstone_is_never_lifted(
    s: LedgerState,
    a: Address,
    address: Address,
    owner: Address,
    other: Address,
    now: i64,
    amount: u64,
    strategy: ClosureStrategy,
    found: Derivation,
)
    requires
        is_tombstoned(s[a].data),
    ensures
        is_tombstoned(
            create_effect(
                s,
                address,
                amount,
                create_outcome(s, address, owner, other, now, found),
            )[a].data,
        ),
        is_tombstoned(
            close_effect(
                s,
                address,
                strategy,
                other,
                close_outcome(s, address, owner, strategy, other, found),
            )[a].data,
        ),
        is_tombstoned(sweep_effect(s, address, other)[a].data),
        is_tombstoned(credit_effect(s, address, amount)[a].data),
{
}

/// No operation rewrites a live record: a cell that holds a record before
/// and after a creation, a closure, a sweep or a refund holds the same
/// record, so the owner, the receipt address, the time of creation and
/// the bump seed of an entry stay as they were set.
pub proof fn lemma_live_record_is_never_rewritten(
    s: LedgerState,
    a: Address,
    address: Address,
    owner: Address,
    other: Address,
    now: i64,
    amount: u64,
    strategy: ClosureStrategy,
    found: Derivation,
)
    requires
        phase_of(s[a]) == Phase::Active,
    ensures
        ({
            let after = create_effect(
                s,
                address,
                amount,
                create_outcome(s, address, owner, other, now, found),
            );
            after[a] == s[a]
        }),
        ({
            let after = close_effect(
                s,
                address,
                strategy,
                other,
                close_outcome(s, address, owner, strategy, other, found),
            );
            phase_of(after[a]) == Phase::Active ==> stored_record(after[a].data) == stored_record(
                s[a].data,
            )
        }),
        stored_record(sweep_effect(s, address, other)[a].data) == stored_record(s[a].data),
        stored_record(credit_effect(s, address, amount)[a].data) == stored_record(s[a].data),
{
    lemma_tombstone_bytes();
}

/// A redemption pays only where it then closes: it succeeds exactly where
/// the order is given and the issuer succeeds, and then the reward is the
/// one that was ordered, for the receipt address that the entry carries,
/// and the entry's cell is left without balance and without record;
/// wherever the order is refused or the issuer fails, nothing changes. An
/// entry that was redeemed with the secure strategy cannot be redeemed
/// again, whatever is paid into its cell.
pub proof fn lemma_redeem_closes_what_it_pays(
    s: LedgerState,
    accounts: RedeemAccounts,
    now: i64,
    strategy: ClosureStrategy,
    issued: Result<(), IssueError>,
    entry: Derivation,
    authority: Derivation,
    refund: u64,
    later: i64,
)
    ensures
        ({
            let order = order_outcome(s, accounts, now, strategy, entry, authority);
            let redeemed = redeem_outcome(s, accounts, now, strategy, issued, entry, authority);
            let after = redeem_effect(s, accounts, strategy, redeemed);
            &&& redeemed is Ok <==> order is Ok && issued is Ok
            &&& redeemed is Err ==> after == s
            &&& redeemed matches Ok(receipt) ==> {
                &&& receipt.reward == order->Ok_0.amount
                &&& receipt.refund == s[accounts.lottery_entry].balance
                &&& after[accounts.lottery_entry].balance == 0
                &&& phase_of(after[accounts.lottery_entry]) != Phase::Active
                &&& order->Ok_0.accounts.to == stored_record(
                    s[accounts.lottery_entry].data,
                )->0.user_ata
            }
            &&& redeemed is Ok && strategy == ClosureStrategy::Secure ==> order_outcome(
                credit_effect(after, accounts.lottery_entry, refund),
                accounts,
                later,
                strategy,
                entry,
                authority,
            ) == Err::<MintOrder, MyError>(MyError::Tombstoned)
        }),
{
    lemma_close_is_all_or_nothing(
        s,
        accounts.lottery_entry,
        accounts.user,
        strategy,
        accounts.user,
        entry,
    );
    if redeem_outcome(s, accounts, now, strategy, issued, entry, authority) is Ok && strategy
        == ClosureStrategy::Secure {
        lemma_secure_close_then_refund(
            s,
            accounts.lottery_entry,
            accounts.user,
            accounts.user,
            entry,
            refund,
            accounts.user,
            entry,
        );
    }
}

} // verus!
