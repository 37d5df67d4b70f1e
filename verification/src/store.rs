//! The record store: a lottery entry is created at the address that its
//! owner's seeds derive, read back only after that address was derived
//! again, and retired by one of two closure strategies. A sweeper reclaims
//! what strangers pay into a cell that was retired for good.
//!
//! Each operation comes twice. The one whose name ends in `_at` takes the
//! derivation of the entry's address as an argument; the other derives
//! the address under a given program and hands it on.

use crate::address::{
    derives, derives_with, find_record_address, found_view, gives, gives_with, record_derivation,
    Address, Derivation,
};
use crate::error::MyError;
use crate::ledger::{CellState, Ledger, LedgerState};
use crate::record::{
    is_tombstoned, lemma_tombstone_bytes, read_tag, record_bytes, stored_record, tombstone, tombstone_bytes, zeroed, zeros,
    LotteryAccount, RECORD_SIZE, TOMBSTONE,
};
use vstd::prelude::*;

verus! {

/// How a record is retired.
#[derive(Clone, Copy, Debug, PartialEq, Eq, Structural)]
pub enum ClosureStrategy {
    /// Releases the balance to the owner, zeroes the cell and writes the
    /// tombstone: the cell can never be read as a record again.
    Secure,
    /// Releases the balance to whoever is named and zeroes the cell, but
    /// writes no tombstone: the cell reads as one that was never used.
    /// Kept to show what the tombstone is for; not for use.
    Insecure,
}

/// Where a cell stands in the life of a record. A cell that was swept
/// reads like one that was just closed: `Closed`.
#[derive(Clone, Copy, Debug, PartialEq, Eq, Structural)]
pub enum Phase {
    /// The cell holds no record and no tombstone.
    Uninitialized,
    /// The cell holds a live record.
    Active,
    /// The cell holds the tombstone and no balance.
    Closed,
    /// The cell holds the tombstone and a balance that somebody paid in
    /// after it was closed.
    Reclaimable,
}

/// The phase that a cell is in.
pub open spec fn phase_of(c: CellState) -> Phase {
    if is_tombstoned(c.data) {
        if c.balance > 0 {
            Phase::Reclaimable
        } else {
            Phase::Closed
        }
    } else if stored_record(c.data) is Some {
        Phase::Active
    } else {
        Phase::Uninitialized
    }
}

/// What `create_at` answers, `found` being the derivation of the entry's
/// address from its owner.
pub open spec fn create_outcome(
    s: LedgerState,
    slot: Address,
    owner: Address,
    receipt_address: Address,
    now: i64,
    found: Derivation,
) -> Result<LotteryAccount, MyError> {
    match found {
        None => Err(MyError::AddressMismatch),
        Some((_, bump)) => {
            if !derives(found, slot) {
                Err(MyError::AddressMismatch)
            } else if is_tombstoned(s[slot].data) {
                Err(MyError::Tombstoned)
            } else if stored_record(s[slot].data) is Some {
                Err(MyError::AlreadyInitialized)
            } else {
                Ok(LotteryAccount { user: owner, bump, timestamp: now, user_ata: receipt_address })
            }
        },
    }
}

/// The ledger after a creation with the given outcome.
pub open spec fn create_effect(
    s: LedgerState,
    slot: Address,
    deposit: u64,
    outcome: Result<LotteryAccount, MyError>,
) -> LedgerState {
    match outcome {
        Ok(record) => s.insert(slot, CellState { balance: deposit, data: record_bytes(record) }),
        Err(_) => s,
    }
}

/// What `load_active_at` answers, `found` being the derivation of the
/// entry's address from the expected owner.
pub open spec fn load_outcome(
    s: LedgerState,
    address: Address,
    expected_owner: Address,
    found: Derivation,
) -> Result<LotteryAccount, MyError> {
    if is_tombstoned(s[address].data) {
        Err(MyError::Tombstoned)
    } else {
        match stored_record(s[address].data) {
            None => Err(MyError::NotFound),
            Some(record) => {
                if record.user != expected_owner {
                    Err(MyError::Unauthorized)
                } else if !derives_with(found, address, record.bump) {
                    Err(MyError::AddressMismatch)
                } else {
                    Ok(record)
                }
            },
        }
    }
}

/// What `close_at` answers: the balance that it releases. `found` is the
/// derivation of the entry's address from the expected owner.
pub open spec fn close_outcome(
    s: LedgerState,
    address: Address,
    expected_owner: Address,
    strategy: ClosureStrategy,
    recipient: Address,
    found: Derivation,
) -> Result<u64, MyError> {
    match load_outcome(s, address, expected_owner, found) {
        Err(MyError::Tombstoned) => Err(MyError::AlreadyClosed),
        Err(e) => Err(e),
        Ok(record) => {
            if strategy == ClosureStrategy::Secure && recipient != record.user && recipient
                != record.user_ata {
                Err(MyError::Unauthorized)
            } else if recipient == address {
                Err(MyError::Unauthorized)
            } else if s[address].balance == 0 {
                Err(MyError::InsufficientBalance)
            } else if s[recipient].balance + s[address].balance > u64::MAX {
                Err(MyError::ArithmeticOverflow)
            } else {
                Ok(s[address].balance)
            }
        },
    }
}

/// The bytes that a strategy leaves in the cell that it closed.
pub open spec fn closed_bytes(strategy: ClosureStrategy) -> Seq<u8> {
    match strategy {
        ClosureStrategy::Secure => tombstone_bytes(),
        ClosureStrategy::Insecure => zeros(81),
    }
}

/// The ledger after a closure with the given outcome.
pub open spec fn close_effect(
    s: LedgerState,
    address: Address,
    strategy: ClosureStrategy,
    recipient: Address,
    outcome: Result<u64, MyError>,
) -> LedgerState {
    match outcome {
        Ok(released) => s.insert(
            address,
            CellState { balance: 0, data: closed_bytes(strategy) },
        ).insert(
            recipient,
            s[recipient].with_balance((s[recipient].balance + released) as u64),
        ),
        Err(_) => s,
    }
}

/// What `sweep` answers: the balance that it reclaims.
pub open spec fn sweep_result(s: LedgerState, address: Address, destination: Address) -> Result<
    u64,
    MyError,
> {
    if !is_tombstoned(s[address].data) {
        Err(MyError::NotTombstoned)
    } else if s[address].balance == 0 {
        Ok(0)
    } else if destination == address {
        Err(MyError::AddressMismatch)
    } else if s[destination].balance + s[address].balance > u64::MAX {
        Err(MyError::ArithmeticOverflow)
    } else {
        Ok(s[address].balance)
    }
}

/// The ledger after `sweep`.
pub open spec fn sweep_effect(s: LedgerState, address: Address, destination: Address)
    -> LedgerState {
    match sweep_result(s, address, destination) {
        Ok(reclaimed) => if reclaimed == 0 {
            s
        } else {
            s.insert(address, s[address].with_balance(0)).insert(
                destination,
                s[destination].with_balance((s[destination].balance + reclaimed) as u64),
            )
        },
        Err(_) => s,
    }
}

/// What `create` answers under a program.
pub open spec fn create_result(
    s: LedgerState,
    program_id: Address,
    slot: Address,
    owner: Address,
    receipt_address: Address,
    now: i64,
) -> Result<LotteryAccount, MyError> {
    create_outcome(s, slot, owner, receipt_address, now, record_derivation(owner, program_id))
}

/// What `load_active` answers under a program.
pub open spec fn load_active_spec(
    s: LedgerState,
    program_id: Address,
    address: Address,
    expected_owner: Address,
) -> Result<LotteryAccount, MyError> {
    load_outcome(s, address, expected_owner, record_derivation(expected_owner, program_id))
}

/// What `close` answers under a program.
pub open spec fn close_result(
    s: LedgerState,
    program_id: Address,
    address: Address,
    expected_owner: Address,
    strategy: ClosureStrategy,
    recipient: Address,
) -> Result<u64, MyError> {
    close_outcome(
        s,
        address,
        expected_owner,
        strategy,
        recipient,
        record_derivation(expected_owner, program_id),
    )
}

fn tombstoned(data: &Vec<u8>) -> (b: bool)
    ensures
        b == is_tombstoned(data@),
{
    match read_tag(data) {
        Some(tag) => tag == TOMBSTONE,
        None => false,
    }
}

/// Tells the phase of the cell at the address.
pub fn phase(ledger: &Ledger, address: &Address) -> (p: Phase)
    ensures
        p == phase_of(ledger@[*address]),
{
    let data = ledger.read(address);
    if tombstoned(&data) {
        if ledger.get_balance(address) > 0 {
            Phase::Reclaimable
        } else {
            Phase::Closed
        }
    } else {
        match LotteryAccount::decode(&data) {
            Some(_) => Phase::Active,
            None => Phase::Uninitialized,
        }
    }
}

/// Creates the lottery entry of `owner` in the cell at `slot`, with
/// `deposit` as its balance, and returns the record that the cell now
/// holds: it carries the owner, the bump seed of the derivation, the time
/// `now` and the receipt address. `found` is the derivation of the entry's
/// address from the owner.
///
/// Fails with `AddressMismatch` unless the derivation gives `slot`; with
/// `Tombstoned` where the cell was closed for good; with
/// `AlreadyInitialized` where it holds a live record. A failure changes
/// nothing.
pub fn create_at(
    ledger: &mut Ledger,
    slot: &Address,
    owner: &Address,
    receipt_address: &Address,
    now: i64,
    deposit: u64,
    found: Option<(Address, u8)>,
) -> (r: Result<LotteryAccount, MyError>)
    ensures
        r == create_outcome(old(ledger)@, *slot, *owner, *receipt_address, now, found_view(found)),
        final(ledger)@ == create_effect(old(ledger)@, *slot, deposit, r),
{
    if !gives(found, slot) {
        return Err(MyError::AddressMismatch);
    }
    let bump = match found {
        Some((_, bump)) => bump,
        None => {
            return Err(MyError::AddressMismatch);
        },
    };
    let data = ledger.read(slot);
    if tombstoned(&data) {
        return Err(MyError::Tombstoned);
    }
    if LotteryAccount::decode(&data).is_some() {
        return Err(MyError::AlreadyInitialized);
    }
    let record = LotteryAccount {
        user: *owner,
        bump,
        timestamp: now,
        user_ata: *receipt_address,
    };
    ledger.write(slot, record.encode());
    ledger.set_balance(slot, deposit);
    assert(ledger@ =~= old(ledger)@.insert(
        *slot,
        CellState { balance: deposit, data: record_bytes(record) },
    ));
    Ok(record)
}

/// Creates the lottery entry of `owner` under the program: derives the
/// entry's address from the owner and goes on as `create_at` does.
pub fn create(
    ledger: &mut Ledger,
    program_id: &Address,
    slot: &Address,
    owner: &Address,
    receipt_address: &Address,
    now: i64,
    deposit: u64,
) -> (r: Result<LotteryAccount, MyError>)
    ensures
        r == create_result(old(ledger)@, *program_id, *slot, *owner, *receipt_address, now),
        final(ledger)@ == create_effect(old(ledger)@, *slot, deposit, r),
{
    let found = find_record_address(owner, program_id);
    create_at(ledger, slot, owner, receipt_address, now, deposit, found)
}

/// Reads the live record at the address on behalf of `expected_owner`.
/// `found` is the derivation of the entry's address from that owner.
///
/// Fails with `Tombstoned` where the cell carries the tombstone, whatever
/// else it holds and whoever asks; with `NotFound` where it holds no
/// record; with `Unauthorized` where the record belongs to somebody else;
/// with `AddressMismatch` unless the derivation gives the address, with
/// the bump seed that the record carries.
pub fn load_active_at(
    ledger: &Ledger,
    address: &Address,
    expected_owner: &Address,
    found: Option<(Address, u8)>,
) -> (r: Result<LotteryAccount, MyError>)
    ensures
        r == load_outcome(ledger@, *address, *expected_owner, found_view(found)),
{
    let data = ledger.read(address);
    if tombstoned(&data) {
        return Err(MyError::Tombstoned);
    }
    match LotteryAccount::decode(&data) {
        None => Err(MyError::NotFound),
        Some(record) => {
            if record.user != *expected_owner {
                Err(MyError::Unauthorized)
            } else if !gives_with(found, address, record.bump) {
                Err(MyError::AddressMismatch)
            } else {
                Ok(record)
            }
        },
    }
}

/// Reads the live record at the address on behalf of `expected_owner`
/// under the program: derives the entry's address from that owner and
/// goes on as `load_active_at` does.
pub fn load_active(
    ledger: &Ledger,
    program_id: &Address,
    address: &Address,
    expected_owner: &Address,
) -> (r: Result<LotteryAccount, MyError>)
    ensures
        r == load_active_spec(ledger@, *program_id, *address, *expected_owner),
{
    let found = find_record_address(expected_owner, program_id);
    load_active_at(ledger, address, expected_owner, found)
}

/// Tells what `close_at` would release from the cell at the address, or
/// why it would refuse, and changes nothing.
///
/// The record is read as `load_active_at` reads it, and the same failures
/// come out, but for a tombstoned cell, which gives `AlreadyClosed`. The
/// secure strategy fails with `Unauthorized` unless the recipient is the
/// record's owner or its receipt address; both fail with `Unauthorized`
/// where the recipient is the cell itself, with `InsufficientBalance`
/// where the cell has no balance to release, and with `ArithmeticOverflow`
/// where the recipient's balance cannot take it.
pub fn releasable_at(
    ledger: &Ledger,
    address: &Address,
    expected_owner: &Address,
    strategy: ClosureStrategy,
    recipient: &Address,
    found: Option<(Address, u8)>,
) -> (r: Result<u64, MyError>)
    ensures
        r == close_outcome(
            ledger@,
            *address,
            *expected_owner,
            strategy,
            *recipient,
            found_view(found),
        ),
{
    let record = match load_active_at(ledger, address, expected_owner, found) {
        Err(MyError::Tombstoned) => {
            return Err(MyError::AlreadyClosed);
        },
        Err(e) => {
            return Err(e);
        },
        Ok(record) => record,
    };
    let secure = match strategy {
        ClosureStrategy::Secure => true,
        ClosureStrategy::Insecure => false,
    };
    if secure && *recipient != record.user && *recipient != record.user_ata {
        return Err(MyError::Unauthorized);
    }
    if *recipient == *address {
        return Err(MyError::Unauthorized);
    }
    let released = ledger.get_balance(address);
    if released == 0 {
        return Err(MyError::InsufficientBalance);
    }
    match ledger.get_balance(recipient).checked_add(released) {
        None => Err(MyError::ArithmeticOverflow),
        Some(_) => Ok(released),
    }
}

/// Retires the live record at the address on behalf of `expected_owner`
/// and releases the whole balance of its cell to `recipient`. Returns the
/// balance released. It refuses exactly where `releasable_at` does, and a
/// refusal changes nothing.
///
/// The secure strategy leaves the tombstone and zeros in the cell, and
/// writes them before it releases the balance, so that no step leaves a
/// cell that has lost its balance and still reads as a record. The
/// insecure strategy releases the balance first and leaves only zeros.
pub fn close_at(
    ledger: &mut Ledger,
    address: &Address,
    expected_owner: &Address,
    strategy: ClosureStrategy,
    recipient: &Address,
    found: Option<(Address, u8)>,
) -> (r: Result<u64, MyError>)
    ensures
        r == close_outcome(
            old(ledger)@,
            *address,
            *expected_owner,
            strategy,
            *recipient,
            found_view(found),
        ),
        final(ledger)@ == close_effect(old(ledger)@, *address, strategy, *recipient, r),
{
    let released = match releasable_at(ledger, address, expected_owner, strategy, recipient, found) {
        Err(e) => {
            return Err(e);
        },
        Ok(released) => released,
    };
    let sum = ledger.get_balance(recipient) + released;
    match strategy {
        ClosureStrategy::Secure => {
            ledger.write(address, tombstone());
            proof {
                // From here on the cell reads as closed, and it still has
                // its balance: whoever looks between two steps never finds
                // a cell that was emptied and still holds the record.
                lemma_tombstone_bytes();
                assert(is_tombstoned(ledger@[*address].data));
                assert(ledger@[*address].balance == released);
            }
            ledger.set_balance(address, 0);
            ledger.set_balance(recipient, sum);
        },
        ClosureStrategy::Insecure => {
            ledger.set_balance(recipient, sum);
            ledger.set_balance(address, 0);
            ledger.write(address, zeroed(RECORD_SIZE));
        },
    }
    assert(ledger@ =~= old(ledger)@.insert(
        *address,
        CellState { balance: 0, data: closed_bytes(strategy) },
    ).insert(*recipient, old(ledger)@[*recipient].with_balance(sum)));
    Ok(released)
}

/// Tells what `close` would release under the program, or why it would
/// refuse: derives the entry's address from the expected owner and goes
/// on as `releasable_at` does.
pub fn releasable(
    ledger: &Ledger,
    program_id: &Address,
    address: &Address,
    expected_owner: &Address,
    strategy: ClosureStrategy,
    recipient: &Address,
) -> (r: Result<u64, MyError>)
    ensures
        r == close_result(ledger@, *program_id, *address, *expected_owner, strategy, *recipient),
{
    let found = find_record_address(expected_owner, program_id);
    releasable_at(ledger, address, expected_owner, strategy, recipient, found)
}

/// Retires the live record at the address under the program: derives the
/// entry's address from the expected owner and goes on as `close_at` does.
pub fn close(
    ledger: &mut Ledger,
    program_id: &Address,
    address: &Address,
    expected_owner: &Address,
    strategy: ClosureStrategy,
    recipient: &Address,
) -> (r: Result<u64, MyError>)
    ensures
        r == close_result(
            old(ledger)@,
            *program_id,
            *address,
            *expected_owner,
            strategy,
            *recipient,
        ),
        final(ledger)@ == close_effect(old(ledger)@, *address, strategy, *recipient, r),
{
    let found = find_record_address(expected_owner, program_id);
    close_at(ledger, address, expected_owner, strategy, recipient, found)
}

/// Moves whatever balance sits in the tombstoned cell at the address to
/// `destination` and returns the amount. Anybody may call it: it recovers
/// stranded value and reads nothing but the type tag.
///
/// Fails with `NotTombstoned` unless the cell opens with the tombstone. A
/// cell without balance gives `Ok(0)` and nothing changes. Otherwise it
/// fails with `AddressMismatch` where the destination is the cell itself
/// and with `ArithmeticOverflow` where the destination's balance cannot
/// take the amount. A failure changes nothing.
pub fn sweep(ledger: &mut Ledger, address: &Address, destination: &Address) -> (r: Result<
    u64,
    MyError,
>)
    ensures
        r == sweep_result(old(ledger)@, *address, *destination),
        final(ledger)@ == sweep_effect(old(ledger)@, *address, *destination),
{
    let data = ledger.read(address);
    if !tombstoned(&data) {
        return Err(MyError::NotTombstoned);
    }
    let stranded = ledger.get_balance(address);
    if stranded == 0 {
        return Ok(0);
    }
    if *destination == *address {
        return Err(MyError::AddressMismatch);
    }
    let sum = match ledger.get_balance(destination).checked_add(stranded) {
        None => {
            return Err(MyError::ArithmeticOverflow);
        },
        Some(sum) => sum,
    };
    ledger.set_balance(address, 0);
    ledger.set_balance(destination, sum);
    Ok(stranded)
}

} // verus!
