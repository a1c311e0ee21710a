//! The register banks of the simulated controller, held in rmodbus's storage.
//!
//! Every access checks its address range: a cell or a range that does not lie
//! wholly inside its bank is refused with [`RegisterError::OutOfRange`] and
//! leaves the banks as they were.

use rmodbus::server::context::ModbusContext;
use rmodbus::server::storage::ModbusStorage;
use vstd::prelude::*;

verus! {

/// Number of coils of the simulated controller.
pub const COIL_COUNT: usize = 20;

/// Number of discrete inputs of the simulated controller.
pub const DISCRETE_COUNT: usize = 0;

/// Number of input registers of the simulated controller.
pub const INPUT_COUNT: usize = 0;

/// Number of holding registers of the simulated controller.
pub const HOLDING_COUNT: usize = 5;

/// The four register banks: 20 coils, no discrete inputs, no input
/// registers and 5 holding registers.
pub type Registers = ModbusStorage<20, 0, 0, 5>;

#[verifier::external_type_specification]
pub struct ExModbusStorage<const C: usize, const D: usize, const I: usize, const H: usize>(
    ModbusStorage<C, D, I, H>,
);

#[verifier::external_type_specification]
#[verifier::external_body]
pub struct ExErrorKind(rmodbus::ErrorKind);

/// Why a register access was refused.
#[derive(Debug, Clone, Copy, PartialEq, Eq, Structural)]
pub enum RegisterError {
    /// The cell or range does not lie wholly inside its bank.
    OutOfRange,
}

/// `count` cells from `reg` lie inside a bank of `len` cells.
pub open spec fn range_fits(len: int, reg: int, count: int) -> bool {
    reg + count <= len
}

/// The cells `reg .. reg + count` of `bank`.
pub open spec fn bank_range<T>(bank: Seq<T>, reg: int, count: int) -> Seq<T> {
    bank.subrange(reg, reg + count)
}

/// `bank` with `values` written over the cells from `reg` on.
pub open spec fn bulk_written<T>(bank: Seq<T>, reg: int, values: Seq<T>) -> Seq<T> {
    Seq::new(
        bank.len(),
        |i: int|
            if reg <= i < reg + values.len() {
                values[i - reg]
            } else {
                bank[i]
            },
    )
}

/// Relies on rmodbus's `ModbusStorage::new`: every bank starts cleared.
#[verifier::external_body]
fn storage_new() -> (r: Registers)
    ensures
        r.coils@ == Seq::new(20, |i: int| false),
        r.discretes@.len() == 0,
        r.inputs@.len() == 0,
        r.holdings@ == Seq::new(5, |i: int| 0u16),
{
    ModbusStorage::new()
}

/// Relies on rmodbus's `ModbusContext::get_coil`: the coil at `reg`, or an
/// error past the bank.
#[verifier::external_body]
fn storage_get_coil(s: &Registers, reg: u16) -> (r: Result<bool, rmodbus::ErrorKind>)
    ensures
        r is Ok <==> (reg as int) < s.coils@.len(),
        r is Ok ==> r->Ok_0 == s.coils@[reg as int],
{
    s.get_coil(reg)
}

/// Relies on rmodbus's `ModbusContext::get_holding`: the holding register at
/// `reg`, or an error past the bank.
#[verifier::external_body]
fn storage_get_holding(s: &Registers, reg: u16) -> (r: Result<u16, rmodbus::ErrorKind>)
    ensures
        r is Ok <==> (reg as int) < s.holdings@.len(),
        r is Ok ==> r->Ok_0 == s.holdings@[reg as int],
{
    s.get_holding(reg)
}

/// Relies on rmodbus's `ModbusContext::set_coil`: sets the coil at `reg`, or
/// fails past the bank and changes nothing.
#[verifier::external_body]
fn storage_set_coil(s: &mut Registers, reg: u16, value: bool) -> (r: Result<(), rmodbus::ErrorKind>)
    ensures
        r is Ok <==> (reg as int) < old(s).coils@.len(),
        r is Ok ==> final(s).coils@ == old(s).coils@.update(reg as int, value),
        r is Ok ==> final(s).discretes@ == old(s).discretes@,
        r is Ok ==> final(s).inputs@ == old(s).inputs@,
        r is Ok ==> final(s).holdings@ == old(s).holdings@,
        r is Err ==> *final(s) == *old(s),
{
    s.set_coil(reg, value)
}

/// Relies on rmodbus's `ModbusContext::set_holding`: sets the holding
/// register at `reg`, or fails past the bank and changes nothing.
#[verifier::external_body]
fn storage_set_holding(s: &mut Registers, reg: u16, value: u16) -> (r: Result<(), rmodbus::ErrorKind>)
    ensures
        r is Ok <==> (reg as int) < old(s).holdings@.len(),
        r is Ok ==> final(s).holdings@ == old(s).holdings@.update(reg as int, value),
        r is Ok ==> final(s).coils@ == old(s).coils@,
        r is Ok ==> final(s).discretes@ == old(s).discretes@,
        r is Ok ==> final(s).inputs@ == old(s).inputs@,
        r is Err ==> *final(s) == *old(s),
{
    s.set_holding(reg, value)
}

/// Relies on rmodbus's `ModbusContext::get_coils_bulk`: appends the `count`
/// coils from `reg` to an empty vector, or fails when they pass the bank.
#[verifier::external_body]
fn storage_get_coils_bulk(s: &Registers, reg: u16, count: u16) -> (r: Result<Vec<bool>, rmodbus::ErrorKind>)
    ensures
        r is Ok <==> range_fits(s.coils@.len() as int, reg as int, count as int),
        r is Ok ==> r->Ok_0@ == bank_range(s.coils@, reg as int, count as int),
{
    let mut out: Vec<bool> = Vec::new();
    s.get_coils_bulk(reg, count, &mut out).map(|()| out)
}

/// Relies on rmodbus's `ModbusContext::get_holdings_bulk`: appends the
/// `count` holding registers from `reg` to an empty vector, or fails when they
/// pass the bank.
#[verifier::external_body]
fn storage_get_holdings_bulk(s: &Registers, reg: u16, count: u16) -> (r: Result<Vec<u16>, rmodbus::ErrorKind>)
    ensures
        r is Ok <==> range_fits(s.holdings@.len() as int, reg as int, count as int),
        r is Ok ==> r->Ok_0@ == bank_range(s.holdings@, reg as int, count as int),
{
    let mut out: Vec<u16> = Vec::new();
    s.get_holdings_bulk(reg, count, &mut out).map(|()| out)
}

/// Relies on rmodbus's `ModbusContext::set_coils_bulk`: writes `values` over
/// the coils from `reg`, or fails when they pass the bank and changes nothing.
#[verifier::external_body]
fn storage_set_coils_bulk(s: &mut Registers, reg: u16, values: &[bool]) -> (r: Result<(), rmodbus::ErrorKind>)
    ensures
        r is Ok <==> range_fits(old(s).coils@.len() as int, reg as int, values@.len() as int),
        r is Ok ==> final(s).coils@ == bulk_written(old(s).coils@, reg as int, values@),
        r is Ok ==> final(s).discretes@ == old(s).discretes@,
        r is Ok ==> final(s).inputs@ == old(s).inputs@,
        r is Ok ==> final(s).holdings@ == old(s).holdings@,
        r is Err ==> *final(s) == *old(s),
{
    s.set_coils_bulk(reg, values)
}

/// Relies on rmodbus's `ModbusContext::set_holdings_bulk`: writes `values`
/// over the holding registers from `reg`, or fails when they pass the bank and
/// changes nothing.
#[verifier::external_body]
fn storage_set_holdings_bulk(s: &mut Registers, reg: u16, values: &[u16]) -> (r: Result<(), rmodbus::ErrorKind>)
    ensures
        r is Ok <==> range_fits(old(s).holdings@.len() as int, reg as int, values@.len() as int),
        r is Ok ==> final(s).holdings@ == bulk_written(old(s).holdings@, reg as int, values@),
        r is Ok ==> final(s).coils@ == old(s).coils@,
        r is Ok ==> final(s).discretes@ == old(s).discretes@,
        r is Ok ==> final(s).inputs@ == old(s).inputs@,
        r is Err ==> *final(s) == *old(s),
{
    s.set_holdings_bulk(reg, values)
}

/// Banks with every coil off and every register at zero.
pub fn new_registers() -> (r: Registers)
    ensures
        r.coils@ == Seq::new(COIL_COUNT as nat, |i: int| false),
        r.discretes@.len() == DISCRETE_COUNT,
        r.inputs@.len() == INPUT_COUNT,
        r.holdings@ == Seq::new(HOLDING_COUNT as nat, |i: int| 0u16),
{
    storage_new()
}

/// The coil at `reg`.
pub fn read_coil(s: &Registers, reg: u16) -> (r: Result<bool, RegisterError>)
    ensures
        r is Ok <==> (reg as int) < s.coils@.len(),
        r is Ok ==> r->Ok_0 == s.coils@[reg as int],
        r is Err ==> r == Err::<bool, RegisterError>(RegisterError::OutOfRange),
{
    match storage_get_coil(s, reg) {
        Ok(v) => Ok(v),
        Err(_) => Err(RegisterError::OutOfRange),
    }
}

/// The holding register at `reg`.
pub fn read_holding(s: &Registers, reg: u16) -> (r: Result<u16, RegisterError>)
    ensures
        r is Ok <==> (reg as int) < s.holdings@.len(),
        r is Ok ==> r->Ok_0 == s.holdings@[reg as int],
        r is Err ==> r == Err::<u16, RegisterError>(RegisterError::OutOfRange),
{
    match storage_get_holding(s, reg) {
        Ok(v) => Ok(v),
        Err(_) => Err(RegisterError::OutOfRange),
    }
}

/// Sets the coil at `reg` to `value`.
pub fn write_coil(s: &mut Registers, reg: u16, value: bool) -> (r: Result<(), RegisterError>)
    ensures
        r is Ok <==> (reg as int) < old(s).coils@.len(),
        r is Ok ==> final(s).coils@ == old(s).coils@.update(reg as int, value),
        r is Ok ==> final(s).holdings@ == old(s).holdings@,
        r is Err ==> r == Err::<(), RegisterError>(RegisterError::OutOfRange) && *final(s) == *old(s),
{
    match storage_set_coil(s, reg, value) {
        Ok(()) => Ok(()),
        Err(_) => Err(RegisterError::OutOfRange),
    }
}

/// Sets the holding register at `reg` to `value`.
pub fn write_holding(s: &mut Registers, reg: u16, value: u16) -> (r: Result<(), RegisterError>)
    ensures
        r is Ok <==> (reg as int) < old(s).holdings@.len(),
        r is Ok ==> final(s).holdings@ == old(s).holdings@.update(reg as int, value),
        r is Ok ==> final(s).coils@ == old(s).coils@,
        r is Err ==> r == Err::<(), RegisterError>(RegisterError::OutOfRange) && *final(s) == *old(s),
{
    match storage_set_holding(s, reg, value) {
        Ok(()) => Ok(()),
        Err(_) => Err(RegisterError::OutOfRange),
    }
}

/// The `count` coils from `reg` on.
pub fn read_coils(s: &Registers, reg: u16, count: u16) -> (r: Result<Vec<bool>, RegisterError>)
    ensures
        r is Ok <==> range_fits(s.coils@.len() as int, reg as int, count as int),
        r is Ok ==> r->Ok_0@ == bank_range(s.coils@, reg as int, count as int),
        r is Err ==> r == Err::<Vec<bool>, RegisterError>(RegisterError::OutOfRange),
{
    match storage_get_coils_bulk(s, reg, count) {
        Ok(v) => Ok(v),
        Err(_) => Err(RegisterError::OutOfRange),
    }
}

/// The `count` holding registers from `reg` on.
pub fn read_holdings(s: &Registers, reg: u16, count: u16) -> (r: Result<Vec<u16>, RegisterError>)
    ensures
        r is Ok <==> range_fits(s.holdings@.len() as int, reg as int, count as int),
        r is Ok ==> r->Ok_0@ == bank_range(s.holdings@, reg as int, count as int),
        r is Err ==> r == Err::<Vec<u16>, RegisterError>(RegisterError::OutOfRange),
{
    match storage_get_holdings_bulk(s, reg, count) {
        Ok(v) => Ok(v),
        Err(_) => Err(RegisterError::OutOfRange),
    }
}

/// Writes `values` over the coils from `reg` on, all of them or none.
pub fn write_coils(s: &mut Registers, reg: u16, values: &[bool]) -> (r: Result<(), RegisterError>)
    ensures
        r is Ok <==> range_fits(old(s).coils@.len() as int, reg as int, values@.len() as int),
        r is Ok ==> final(s).coils@ == bulk_written(old(s).coils@, reg as int, values@),
        r is Ok ==> final(s).holdings@ == old(s).holdings@,
        r is Err ==> r == Err::<(), RegisterError>(RegisterError::OutOfRange) && *final(s) == *old(s),
{
    match storage_set_coils_bulk(s, reg, values) {
        Ok(()) => Ok(()),
        Err(_) => Err(RegisterError::OutOfRange),
    }
}

/// Writes `values` over the holding registers from `reg` on, all of them or
/// none.
pub fn write_holdings(s: &mut Registers, reg: u16, values: &[u16]) -> (r: Result<(), RegisterError>)
    ensures
        r is Ok <==> range_fits(old(s).holdings@.len() as int, reg as int, values@.len() as int),
        r is Ok ==> final(s).holdings@ == bulk_written(old(s).holdings@, reg as int, values@),
        r is Ok ==> final(s).coils@ == old(s).coils@,
        r is Err ==> r == Err::<(), RegisterError>(RegisterError::OutOfRange) && *final(s) == *old(s),
{
    match storage_set_holdings_bulk(s, reg, values) {
        Ok(()) => Ok(()),
        Err(_) => Err(RegisterError::OutOfRange),
    }
}

/// The banks the controller starts with: coils off, and the first four
/// holding registers announcing the size of each bank in turn.
pub fn init_registers() -> (r: Registers)
    ensures
        r.coils@ == Seq::new(COIL_COUNT as nat, |i: int| false),
        r.discretes@.len() == DISCRETE_COUNT,
        r.inputs@.len() == INPUT_COUNT,
        r.holdings@ == seq![
            COIL_COUNT as u16,
            DISCRETE_COUNT as u16,
            INPUT_COUNT as u16,
            HOLDING_COUNT as u16,
            0u16,
        ],
{
    let mut s = new_registers();
    let sizes: [u16; 4] = [COIL_COUNT as u16, DISCRETE_COUNT as u16, INPUT_COUNT as u16, HOLDING_COUNT as u16];
    let r = write_holdings(&mut s, 0, sizes.as_slice());
    assert(r is Ok);
    assert(s.holdings@ =~= seq![20u16, 0u16, 0u16, 5u16, 0u16]);
    s
}

/// A read of exactly the range of an accepted bulk write returns the values
/// written, and a read of any cell outside that range returns what the cell
/// held before.
pub proof fn lemma_read_after_bulk_write<T>(bank: Seq<T>, reg: int, values: Seq<T>)
    requires
        0 <= reg,
        range_fits(bank.len() as int, reg, values.len() as int),
    ensures
        bank_range(bulk_written(bank, reg, values), reg, values.len() as int) == values,
        forall|i: int|
            0 <= i < bank.len() && !(reg <= i < reg + values.len())
                ==> #[trigger] bulk_written(bank, reg, values)[i] == bank[i],
{
    assert(bank_range(bulk_written(bank, reg, values), reg, values.len() as int) =~= values);
}

/// A read of a single cell after an accepted single write of it returns the
/// value written, and every other cell keeps what it held.
pub proof fn lemma_read_after_write<T>(bank: Seq<T>, reg: int, value: T)
    requires
        0 <= reg < bank.len(),
    ensures
        bank_range(bank.update(reg, value), reg, 1) == seq![value],
        forall|i: int| 0 <= i < bank.len() && i != reg ==> #[trigger] bank.update(reg, value)[i] == bank[i],
{
    assert(bank_range(bank.update(reg, value), reg, 1) =~= seq![value]);
}

} // verus!
