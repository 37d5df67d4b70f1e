//! The storage substrate as the record store sees it: every address has a
//! cell with a balance and a run of bytes. A cell that was never touched
//! has no balance and no bytes.

use crate::address::Address;
use crate::error::MyError;
use vstd::prelude::*;

verus! {

/// What a cell holds.
#[verifier::ext_equal]
pub struct CellState {
    /// The rent or stake that the cell holds.
    pub balance: u64,
    /// The bytes of the cell.
    pub data: Seq<u8>,
}

impl CellState {
    /// A cell that was never touched.
    pub open spec fn vacant() -> CellState {
        CellState { balance: 0, data: Seq::empty() }
    }

    /// The same cell with another balance.
    pub open spec fn with_balance(self, balance: u64) -> CellState {
        CellState { balance, data: self.data }
    }

    /// The same cell with other bytes.
    pub open spec fn with_data(self, data: Seq<u8>) -> CellState {
        CellState { balance: self.balance, data }
    }
}

/// The cells of a ledger, by address.
pub type LedgerState = Map<Address, CellState>;

struct Cell {
    address: Address,
    balance: u64,
    data: Vec<u8>,
}

/// The cells that were touched so far, each address once.
pub struct Ledger {
    cells: Vec<Cell>,
}

spec fn holds(cells: Seq<Cell>, a: Address, i: int) -> bool {
    0 <= i < cells.len() && cells[i].address == a
}

spec fn distinct(cells: Seq<Cell>) -> bool {
    forall|i: int, j: int| 0 <= i < j < cells.len() ==> cells[i].address != cells[j].address
}

spec fn state(c: Cell) -> CellState {
    CellState { balance: c.balance, data: c.data@ }
}

spec fn lookup(cells: Seq<Cell>, a: Address) -> CellState {
    if exists|i: int| holds(cells, a, i) {
        state(cells[choose|i: int| holds(cells, a, i)])
    } else {
        CellState::vacant()
    }
}

proof fn lemma_lookup_hit(cells: Seq<Cell>, a: Address, i: int)
    requires
        distinct(cells),
        holds(cells, a, i),
    ensures
        lookup(cells, a) == state(cells[i]),
{
    let j = choose|j: int| holds(cells, a, j);
    assert(holds(cells, a, j));
    if i < j {
        assert(cells[i].address != cells[j].address);
    } else if j < i {
        assert(cells[j].address != cells[i].address);
    }
}

proof fn lemma_lookup_miss(cells: Seq<Cell>, a: Address)
    requires
        forall|i: int| !holds(cells, a, i),
    ensures
        lookup(cells, a) == CellState::vacant(),
{
}

/// What `lookup` gives after the cell at index `i` changed what it holds,
/// not its address.
proof fn lemma_lookup_changed(before: Seq<Cell>, after: Seq<Cell>, i: int, a: Address)
    requires
        distinct(before),
        0 <= i < before.len(),
        after.len() == before.len(),
        after[i].address == before[i].address,
        forall|j: int| 0 <= j < before.len() && j != i ==> after[j] == before[j],
    ensures
        distinct(after),
        lookup(after, a) == if a == before[i].address {
            state(after[i])
        } else {
            lookup(before, a)
        },
{
    assert forall|j: int, k: int| 0 <= j < k < after.len() implies after[j].address
        != after[k].address by {
        assert(after[j].address == before[j].address);
        assert(after[k].address == before[k].address);
    }
    if a == before[i].address {
        assert(holds(after, a, i));
        lemma_lookup_hit(after, a, i);
    } else if exists|j: int| holds(before, a, j) {
        let j = choose|j: int| holds(before, a, j);
        assert(holds(before, a, j));
        assert(holds(after, a, j));
        lemma_lookup_hit(before, a, j);
        lemma_lookup_hit(after, a, j);
    } else {
        assert forall|j: int| !holds(after, a, j) by {
            if holds(after, a, j) {
                assert(holds(before, a, j));
            }
        }
    }
}

/// What `lookup` gives after a cell with a new address was added.
proof fn lemma_lookup_pushed(before: Seq<Cell>, c: Cell, a: Address)
    requires
        distinct(before),
        forall|i: int| !holds(before, c.address, i),
    ensures
        distinct(before.push(c)),
        lookup(before.push(c), a) == if a == c.address {
            state(c)
        } else {
            lookup(before, a)
        },
{
    let after = before.push(c);
    assert forall|j: int, k: int| 0 <= j < k < after.len() implies after[j].address
        != after[k].address by {
        if k == before.len() {
            assert(!holds(before, c.address, j));
        }
    }
    if a == c.address {
        assert(holds(after, a, before.len() as int));
        lemma_lookup_hit(after, a, before.len() as int);
    } else if exists|j: int| holds(before, a, j) {
        let j = choose|j: int| holds(before, a, j);
        assert(holds(before, a, j));
        assert(holds(after, a, j));
        lemma_lookup_hit(before, a, j);
        lemma_lookup_hit(after, a, j);
    } else {
        assert forall|j: int| !holds(after, a, j) by {
            if holds(after, a, j) {
                assert(holds(before, a, j));
            }
        }
    }
}

fn find(cells: &Vec<Cell>, address: &Address) -> (r: Option<usize>)
    ensures
        match r {
            Some(i) => holds(cells@, *address, i as int),
            None => forall|i: int| !holds(cells@, *address, i),
        },
{
    let mut i: usize = 0;
    while i < cells.len()
        invariant
            i <= cells.len(),
            forall|j: int| 0 <= j < i ==> cells@[j].address != *address,
        decreases cells.len() - i,
    {
        if cells[i].address == *address {
            return Some(i);
        }
        i = i + 1;
    }
    None
}

fn copy_bytes(bytes: &Vec<u8>) -> (v: Vec<u8>)
    ensures
        v@ == bytes@,
{
    let mut v: Vec<u8> = Vec::new();
    let mut i: usize = 0;
    while i < bytes.len()
        invariant
            i <= bytes.len(),
            v@ == bytes@.subrange(0, i as int),
        decreases bytes.len() - i,
    {
        v.push(bytes[i]);
        i = i + 1;
    }
    assert(bytes@.subrange(0, bytes.len() as int) =~= bytes@);
    v
}

impl View for Ledger {
    type V = Map<Address, CellState>;

    closed spec fn view(&self) -> Map<Address, CellState> {
        Map::total(|a: Address| lookup(self.cells@, a))
    }
}

impl Ledger {
    #[verifier::type_invariant]
    spec fn well_formed(self) -> bool {
        distinct(self.cells@)
    }

    /// A ledger in which no cell was touched yet.
    pub fn new() -> (ledger: Ledger)
        ensures
            ledger@ == Map::<Address, CellState>::total(|a: Address| CellState::vacant()),
    {
        let ledger = Ledger { cells: Vec::new() };
        assert(ledger@ =~= Map::<Address, CellState>::total(|a: Address| CellState::vacant()));
        ledger
    }

    /// Every address has a cell.
    pub proof fn lemma_total(&self)
        ensures
            self@.dom() == Set::<Address>::full(),
    {
        assert(self@.dom() =~= Set::<Address>::full());
    }

    /// The balance of the cell at the address.
    pub fn get_balance(&self, address: &Address) -> (balance: u64)
        ensures
            balance == self@[*address].balance,
    {
        proof {
            use_type_invariant(self);
        }
        match find(&self.cells, address) {
            Some(i) => {
                proof {
                    lemma_lookup_hit(self.cells@, *address, i as int);
                }
                self.cells[i].balance
            },
            None => 0,
        }
    }

    /// The bytes of the cell at the address.
    pub fn read(&self, address: &Address) -> (bytes: Vec<u8>)
        ensures
            bytes@ == self@[*address].data,
    {
        proof {
            use_type_invariant(self);
        }
        match find(&self.cells, address) {
            Some(i) => {
                proof {
                    lemma_lookup_hit(self.cells@, *address, i as int);
                }
                copy_bytes(&self.cells[i].data)
            },
            None => Vec::new(),
        }
    }

    /// Sets the balance of the cell at the address. Nothing else changes.
    pub fn set_balance(&mut self, address: &Address, amount: u64)
        ensures
            final(self)@ == old(self)@.insert(
                *address,
                old(self)@[*address].with_balance(amount),
            ),
    {
        proof {
            use_type_invariant(&*self);
        }
        let mut cells: Vec<Cell> = Vec::new();
        std::mem::swap(&mut cells, &mut self.cells);
        let ghost before = cells@;
        match find(&cells, address) {
            Some(i) => {
                cells[i].balance = amount;
                proof {
                    lemma_lookup_hit(before, *address, i as int);
                    assert forall|a: Address| #[trigger]
                        lookup(cells@, a) == if a == *address {
                            lookup(before, a).with_balance(amount)
                        } else {
                            lookup(before, a)
                        } by {
                        lemma_lookup_changed(before, cells@, i as int, a);
                    }
                    lemma_lookup_changed(before, cells@, i as int, *address);
                }
            },
            None => {
                let c = Cell { address: *address, balance: amount, data: Vec::new() };
                cells.push(c);
                proof {
                    lemma_lookup_miss(before, *address);
                    assert forall|a: Address| #[trigger]
                        lookup(cells@, a) == if a == *address {
                            lookup(before, a).with_balance(amount)
                        } else {
                            lookup(before, a)
                        } by {
                        lemma_lookup_pushed(before, c, a);
                    }
                    lemma_lookup_pushed(before, c, *address);
                }
            },
        }
        self.cells = cells;
        assert(self@ =~= old(self)@.insert(*address, old(self)@[*address].with_balance(amount)));
    }

    /// Replaces the bytes of the cell at the address. Nothing else changes.
    pub fn write(&mut self, address: &Address, bytes: Vec<u8>)
        ensures
            final(self)@ == old(self)@.insert(*address, old(self)@[*address].with_data(bytes@)),
    {
        proof {
            use_type_invariant(&*self);
        }
        let mut cells: Vec<Cell> = Vec::new();
        std::mem::swap(&mut cells, &mut self.cells);
        let ghost before = cells@;
        let ghost data = bytes@;
        match find(&cells, address) {
            Some(i) => {
                cells[i].data = bytes;
                proof {
                    lemma_lookup_hit(before, *address, i as int);
                    assert forall|a: Address| #[trigger]
                        lookup(cells@, a) == if a == *address {
                            lookup(before, a).with_data(data)
                        } else {
                            lookup(before, a)
                        } by {
                        lemma_lookup_changed(before, cells@, i as int, a);
                    }
                    lemma_lookup_changed(before, cells@, i as int, *address);
                }
            },
            None => {
                let c = Cell { address: *address, balance: 0, data: bytes };
                cells.push(c);
                proof {
                    lemma_lookup_miss(before, *address);
                    assert forall|a: Address| #[trigger]
                        lookup(cells@, a) == if a == *address {
                            lookup(before, a).with_data(data)
                        } else {
                            lookup(before, a)
                        } by {
                        lemma_lookup_pushed(before, c, a);
                    }
                    lemma_lookup_pushed(before, c, *address);
                }
            },
        }
        self.cells = cells;
        assert(self@ =~= old(self)@.insert(*address, old(self)@[*address].with_data(data)));
    }

    /// Adds to the balance of the cell at the address, as anybody may at
    /// any time. Fails with `ArithmeticOverflow`, and changes nothing,
    /// where the sum does not fit.
    pub fn credit(&mut self, address: &Address, amount: u64) -> (r: Result<(), MyError>)
        ensures
            r == credit_result(old(self)@, *address, amount),
            final(self)@ == credit_effect(old(self)@, *address, amount),
    {
        let balance = self.get_balance(address);
        match balance.checked_add(amount) {
            Some(sum) => {
                self.set_balance(address, sum);
                Ok(())
            },
            None => Err(MyError::ArithmeticOverflow),
        }
    }
}

/// Whether a refund of `amount` to the cell at the address is accepted.
pub open spec fn credit_result(s: LedgerState, address: Address, amount: u64) -> Result<
    (),
    MyError,
> {
    if s[address].balance + amount > u64::MAX {
        Err(MyError::ArithmeticOverflow)
    } else {
        Ok(())
    }
}

/// The ledger after a refund of `amount` to the cell at the address.
pub open spec fn credit_effect(s: LedgerState, address: Address, amount: u64) -> LedgerState {
    if s[address].balance + amount > u64::MAX {
        s
    } else {
        s.insert(address, s[address].with_balance((s[address].balance + amount) as u64))
    }
}

} // verus!
