//! Answers to Modbus-TCP requests: rmodbus's frame processor parses each
//! request and reads or writes the register banks for it; the contracts here
//! say which answer comes back for the requests the controller serves.

use crate::frame::{be_u16, header_length, header_protocol};
use crate::storage::{bank_range, bulk_written, range_fits, Registers};
use rmodbus::server::ModbusFrame;
use rmodbus::ModbusProto;
use vstd::prelude::*;

verus! {

/// Why a request got no answer from the frame processor.
#[derive(Debug, Clone, Copy, PartialEq, Eq, Structural)]
pub enum AnswerError {
    /// The request is not one this function answers, or the frame processor
    /// refused it.
    Unanswerable,
}

/// A request whose MBAP header the frame processor accepts.
pub open spec fn header_valid(q: Seq<u8>) -> bool {
    &&& q.len() >= 8
    &&& header_protocol(q) == 0
    &&& 6 <= header_length(q) <= 250
}

/// A request too short to name its unit, or whose header the frame
/// processor refuses.
pub open spec fn header_broken(q: Seq<u8>) -> bool {
    q.len() < 7 || header_protocol(q) != 0 || !(6 <= header_length(q) <= 250)
}

/// A request with a valid header, addressed to `unit` and not broadcast.
pub open spec fn to_unit(q: Seq<u8>, unit: u8) -> bool {
    &&& header_valid(q)
    &&& q[6] == unit
    &&& unit != 0
    &&& unit != 255
}

/// A request with a valid header, addressed to another unit and not
/// broadcast.
pub open spec fn to_other_unit(q: Seq<u8>, unit: u8) -> bool {
    &&& header_valid(q)
    &&& q[6] != unit
    &&& q[6] != 0
    &&& q[6] != 255
}

/// The function codes the frame processor knows.
pub open spec fn known_function(fc: u8) -> bool {
    fc == 1 || fc == 2 || fc == 3 || fc == 4 || fc == 5 || fc == 6 || fc == 15 || fc == 16
}

/// The first register of a request.
pub open spec fn req_reg(q: Seq<u8>) -> int {
    be_u16(q[8], q[9])
}

/// The register count of a request.
pub open spec fn req_count(q: Seq<u8>) -> int {
    be_u16(q[10], q[11])
}

/// The most cells one read of function `fc` may ask for.
pub open spec fn read_limit(fc: u8) -> int {
    if fc == 1 || fc == 2 {
        2000
    } else {
        125
    }
}

/// A whole read request (codes 1 to 4) to `unit`.
pub open spec fn read_request(q: Seq<u8>, unit: u8) -> bool {
    &&& to_unit(q, unit)
    &&& 1 <= q[7] <= 4
    &&& q.len() >= 12
}

/// A read request within its count limit: it is processed.
pub open spec fn valid_read(q: Seq<u8>, unit: u8) -> bool {
    read_request(q, unit) && req_count(q) <= read_limit(q[7])
}

/// A request that every unit takes: unit id 0 or 255.
pub open spec fn broadcast(q: Seq<u8>) -> bool {
    q[6] == 0 || q[6] == 255
}

/// A request with a valid header, addressed to `unit` or broadcast.
pub open spec fn addressed(q: Seq<u8>, unit: u8) -> bool {
    header_valid(q) && (q[6] == unit || broadcast(q))
}

/// A single write (code 5 or 6) for `unit`, long enough to be processed.
pub open spec fn single_request(q: Seq<u8>, unit: u8) -> bool {
    &&& addressed(q, unit)
    &&& (q[7] == 5 || q[7] == 6)
    &&& q.len() >= 10
}

/// A single write that holds its value.
pub open spec fn single_write(q: Seq<u8>, unit: u8) -> bool {
    single_request(q, unit) && q.len() >= 12
}

/// The data byte count of a bulk write.
pub open spec fn req_bytes(q: Seq<u8>) -> int {
    q[12] as int
}

/// A bulk write (code 15 or 16) for `unit` that names its byte count.
pub open spec fn bulk_request(q: Seq<u8>, unit: u8) -> bool {
    &&& addressed(q, unit)
    &&& (q[7] == 15 || q[7] == 16)
    &&& q.len() >= 13
}

/// A bulk write within the protocol's limits on its count and byte count.
pub open spec fn bulk_within_limits(q: Seq<u8>) -> bool {
    &&& req_count(q) <= if q[7] == 15 { 1968int } else { 123int }
    &&& req_bytes(q) <= 246
}

/// The byte count that a bulk write of its count needs: one bit per coil,
/// two bytes per register.
pub open spec fn bulk_bytes_needed(q: Seq<u8>) -> int {
    if q[7] == 15 {
        (req_count(q) + 7) / 8
    } else {
        2 * req_count(q)
    }
}

/// A bulk write within its limits whose data matches its count and which
/// the request holds whole.
pub open spec fn bulk_write(q: Seq<u8>, unit: u8) -> bool {
    &&& bulk_request(q, unit)
    &&& bulk_within_limits(q)
    &&& req_bytes(q) == bulk_bytes_needed(q)
    &&& q.len() >= 13 + req_bytes(q)
}

/// A bulk write past the protocol's limits: it is answered with an
/// exception and nothing is processed.
pub open spec fn bulk_over_limit(q: Seq<u8>, unit: u8) -> bool {
    bulk_request(q, unit) && !bulk_within_limits(q)
}

/// A write that the frame processor marks for processing.
pub open spec fn write_request(q: Seq<u8>, unit: u8) -> bool {
    single_request(q, unit) || (bulk_request(q, unit) && bulk_within_limits(q))
}

/// A write request whose data is whole and consistent: it is processed.
pub open spec fn valid_write(q: Seq<u8>, unit: u8) -> bool {
    single_write(q, unit) || bulk_write(q, unit)
}

/// An exception answer to `q` from `unit` with exception `code`.
pub open spec fn exception_answer(q: Seq<u8>, unit: u8, code: u8) -> Seq<u8> {
    seq![q[0], q[1], 0u8, 0u8, 0u8, 3u8, unit, q[7] | 0x80u8, code]
}

/// A normal answer to read `q` from `unit`, carrying `data`.
pub open spec fn read_answer(q: Seq<u8>, unit: u8, data: Seq<u8>) -> Seq<u8> {
    seq![
        q[0],
        q[1],
        0u8,
        0u8,
        ((data.len() + 3) / 256) as u8,
        ((data.len() + 3) % 256) as u8,
        unit,
        q[7],
        data.len() as u8,
    ] + data
}

/// `w` if cell `i` of `bits` exists and is on, else 0.
pub open spec fn bit_weight(bits: Seq<bool>, i: int, w: int) -> int {
    if 0 <= i < bits.len() && bits[i] {
        w
    } else {
        0
    }
}

/// Bit cells packed eight to a byte, the first cell in the lowest bit.
pub open spec fn bit_bytes(bits: Seq<bool>) -> Seq<u8> {
    Seq::new(
        ((bits.len() + 7) / 8) as nat,
        |j: int|
            (bit_weight(bits, 8 * j, 1) + bit_weight(bits, 8 * j + 1, 2) + bit_weight(bits, 8 * j + 2, 4)
                + bit_weight(bits, 8 * j + 3, 8) + bit_weight(bits, 8 * j + 4, 16) + bit_weight(
                bits,
                8 * j + 5,
                32,
            ) + bit_weight(bits, 8 * j + 6, 64) + bit_weight(bits, 8 * j + 7, 128)) as u8,
    )
}

/// Word cells as big-endian byte pairs.
pub open spec fn word_bytes(words: Seq<u16>) -> Seq<u8> {
    Seq::new(
        2 * words.len(),
        |i: int|
            if i % 2 == 0 {
                (words[i / 2] / 256) as u8
            } else {
                (words[i / 2] % 256) as u8
            },
    )
}

/// Byte pairs read as big-endian words.
pub open spec fn words_of(bytes: Seq<u8>) -> Seq<u16> {
    Seq::new(bytes.len() / 2, |i: int| be_u16(bytes[2 * i], bytes[2 * i + 1]) as u16)
}

/// The answer to bit read `q` on `bank`: the cells, or an illegal-address
/// exception when they pass the bank.
pub open spec fn bits_read_answer(q: Seq<u8>, unit: u8, bank: Seq<bool>) -> Seq<u8> {
    if range_fits(bank.len() as int, req_reg(q), req_count(q)) {
        read_answer(q, unit, bit_bytes(bank_range(bank, req_reg(q), req_count(q))))
    } else {
        exception_answer(q, unit, 2)
    }
}

/// The answer to word read `q` on `bank`: the cells, or an illegal-address
/// exception when they pass the bank.
pub open spec fn words_read_answer(q: Seq<u8>, unit: u8, bank: Seq<u16>) -> Seq<u8> {
    if range_fits(bank.len() as int, req_reg(q), req_count(q)) {
        read_answer(q, unit, word_bytes(bank_range(bank, req_reg(q), req_count(q))))
    } else {
        exception_answer(q, unit, 2)
    }
}

/// The answer to read `q` on `regs`, by function code.
pub open spec fn read_answer_on(q: Seq<u8>, unit: u8, regs: Registers) -> Seq<u8> {
    if q[7] == 1 {
        bits_read_answer(q, unit, regs.coils@)
    } else if q[7] == 2 {
        bits_read_answer(q, unit, regs.discretes@)
    } else if q[7] == 3 {
        words_read_answer(q, unit, regs.holdings@)
    } else {
        words_read_answer(q, unit, regs.inputs@)
    }
}

/// The acknowledgement of write `q`: its first twelve bytes, with protocol
/// id 0 and length 6.
pub open spec fn write_ack(q: Seq<u8>) -> Seq<u8> {
    seq![q[0], q[1], 0u8, 0u8, 0u8, 6u8] + q.subrange(6, 12)
}

/// The value of a single-coil write: `Some(on)` for 0xFF00 or 0x0000.
pub open spec fn coil_value(q: Seq<u8>) -> Option<bool> {
    if q[10] == 0xFF && q[11] == 0 {
        Some(true)
    } else if q[10] == 0 && q[11] == 0 {
        Some(false)
    } else {
        None
    }
}

/// The data of a bulk holding write.
pub open spec fn bulk_words(q: Seq<u8>) -> Seq<u16> {
    words_of(q.subrange(13, 13 + req_bytes(q)))
}

/// The data of a bulk coil write: its count of bits, the lowest bit of each
/// byte first.
pub open spec fn bulk_bits(q: Seq<u8>) -> Seq<bool> {
    Seq::new(req_count(q) as nat, |i: int| (q[13 + i / 8] >> ((i % 8) as u8)) & 1u8 == 1u8)
}

/// Banks `after` are banks `before` with `holdings` and `coils` in place of
/// theirs.
pub open spec fn banks_become(before: Registers, after: Registers, coils: Seq<bool>, holdings: Seq<u16>) -> bool {
    &&& after.coils@ == coils
    &&& after.holdings@ == holdings
    &&& after.discretes@ == before.discretes@
    &&& after.inputs@ == before.inputs@
}

/// A write that fits its bank: the banks change as given and the request is
/// acknowledged when it is not broadcast.
pub open spec fn write_done(q: Seq<u8>, unit: u8, before: Registers, after: Registers, answer: Seq<u8>, coils: Seq<bool>, holdings: Seq<u16>) -> bool {
    banks_become(before, after, coils, holdings) && (to_unit(q, unit) ==> answer == write_ack(q))
}

/// A write refused with exception `code`: the banks are unchanged, and the
/// exception is the answer when the request is not broadcast.
pub open spec fn write_refused(q: Seq<u8>, unit: u8, before: Registers, after: Registers, answer: Seq<u8>, code: u8) -> bool {
    after == before && (to_unit(q, unit) ==> answer == exception_answer(q, unit, code))
}

/// What processing valid write `q` does to banks `before`, leaving `after`
/// and answering `answer`: a write that fits its bank is made whole, one
/// that does not changes nothing and gets an illegal-address exception, and
/// a single coil write of a value other than on or off gets an illegal-value
/// exception.
pub open spec fn write_effect(q: Seq<u8>, unit: u8, before: Registers, after: Registers, answer: Seq<u8>) -> bool {
    let reg = req_reg(q);
    if q[7] == 5 {
        match coil_value(q) {
            Some(on) => if reg < before.coils@.len() {
                write_done(q, unit, before, after, answer, before.coils@.update(reg, on), before.holdings@)
            } else {
                write_refused(q, unit, before, after, answer, 2)
            },
            None => write_refused(q, unit, before, after, answer, 3),
        }
    } else if q[7] == 6 {
        if reg < before.holdings@.len() {
            write_done(
                q,
                unit,
                before,
                after,
                answer,
                before.coils@,
                before.holdings@.update(reg, be_u16(q[10], q[11]) as u16),
            )
        } else {
            write_refused(q, unit, before, after, answer, 2)
        }
    } else if q[7] == 15 {
        if range_fits(before.coils@.len() as int, reg, req_count(q)) {
            write_done(q, unit, before, after, answer, bulk_written(before.coils@, reg, bulk_bits(q)), before.holdings@)
        } else {
            write_refused(q, unit, before, after, answer, 2)
        }
    } else {
        if range_fits(before.holdings@.len() as int, reg, req_count(q)) {
            write_done(q, unit, before, after, answer, before.coils@, bulk_written(before.holdings@, reg, bulk_words(q)))
        } else {
            write_refused(q, unit, before, after, answer, 2)
        }
    }
}

/// Relies on rmodbus's `ModbusFrame::parse` over a TCP frame: it refuses a
/// bad header, ignores other units, and flags (processing required, read-only,
/// response required) by function code and limits.
#[verifier::external_body]
fn frame_flags(unit_id: u8, q: &[u8]) -> (r: Result<(bool, bool, bool), rmodbus::ErrorKind>)
    ensures
        header_broken(q@) ==> (r is Err),
        to_other_unit(q@, unit_id) ==> (r is Ok && r->Ok_0 == (false, true, false)),
        (to_unit(q@, unit_id) && !known_function(q@[7])) ==> (r is Ok && r->Ok_0 == (false, true, true)),
        valid_read(q@, unit_id) ==> (r is Ok && r->Ok_0 == (true, true, true)),
        (read_request(q@, unit_id) && !valid_read(q@, unit_id)) ==> (r is Ok && r->Ok_0 == (false, true, true)),
        (header_valid(q@) && broadcast(q@) && (!known_function(q@[7]) || 1 <= q@[7] <= 4)) ==> (r is Ok && r->Ok_0 == (false, true, false)),
        write_request(q@, unit_id) ==> (r is Ok && r->Ok_0 == (true, false, to_unit(q@, unit_id))),
        bulk_over_limit(q@, unit_id) ==> (r is Ok && r->Ok_0 == (false, true, to_unit(q@, unit_id))),
{
    let mut response: Vec<u8> = Vec::new();
    let mut frame = ModbusFrame::new(unit_id, q, ModbusProto::TcpUdp, &mut response);
    frame.parse()?;
    Ok((frame.processing_required, frame.readonly, frame.response_required))
}

/// Relies on rmodbus's `ModbusFrame` (`parse`, `process_read`,
/// `finalize_response`) over a TCP frame: a processed read is answered with
/// the cells asked for, or with an illegal-address exception past the bank.
#[verifier::external_body]
fn frame_answer_read(unit_id: u8, q: &[u8], regs: &Registers) -> (r: Result<Vec<u8>, rmodbus::ErrorKind>)
    requires
        valid_read(q@, unit_id),
    ensures
        r is Ok,
        r is Ok ==> r->Ok_0@ == read_answer_on(q@, unit_id, *regs),
{
    let mut response: Vec<u8> = Vec::new();
    let mut frame = ModbusFrame::new(unit_id, q, ModbusProto::TcpUdp, &mut response);
    frame.parse()?;
    frame.process_read(regs)?;
    frame.finalize_response()?;
    Ok(response)
}

/// Relies on rmodbus's `ModbusFrame` (`parse`, `process_write`,
/// `finalize_response`) over a TCP frame: a single coil or holding write, or
/// a bulk write whose byte count matches its count, changes the bank whole
/// and is acknowledged when it fits, and otherwise changes nothing and is
/// answered with an exception.
#[verifier::external_body]
fn frame_answer_write(unit_id: u8, q: &[u8], regs: &mut Registers) -> (r: Result<Vec<u8>, rmodbus::ErrorKind>)
    requires
        valid_write(q@, unit_id),
    ensures
        r is Ok,
        r is Ok ==> write_effect(q@, unit_id, *old(regs), *final(regs), r->Ok_0@),
{
    let mut response: Vec<u8> = Vec::new();
    let mut frame = ModbusFrame::new(unit_id, q, ModbusProto::TcpUdp, &mut response);
    frame.parse()?;
    frame.process_write(regs)?;
    frame.finalize_response()?;
    Ok(response)
}

/// Relies on rmodbus's `ModbusFrame` (`parse`, `finalize_response`) over a
/// TCP frame: an unknown function is answered with an illegal-function
/// exception, a read or a bulk write past its limits with an illegal-value
/// exception.
#[verifier::external_body]
fn frame_answer_unprocessed(unit_id: u8, q: &[u8]) -> (r: Result<Vec<u8>, rmodbus::ErrorKind>)
    requires
        to_unit(q@, unit_id),
        q@[7] < 0x80,
        !known_function(q@[7]) || (read_request(q@, unit_id) && !valid_read(q@, unit_id)) || bulk_over_limit(
            q@,
            unit_id,
        ),
    ensures
        r is Ok,
        !known_function(q@[7]) ==> r->Ok_0@ == exception_answer(q@, unit_id, 1),
        known_function(q@[7]) ==> r->Ok_0@ == exception_answer(q@, unit_id, 3),
{
    let mut response: Vec<u8> = Vec::new();
    let mut frame = ModbusFrame::new(unit_id, q, ModbusProto::TcpUdp, &mut response);
    frame.parse()?;
    frame.finalize_response()?;
    Ok(response)
}

fn read_be_u16(hi: u8, lo: u8) -> (r: u16)
    ensures
        r as int == be_u16(hi, lo),
{
    (hi as u16) * 256 + lo as u16
}

fn is_header_valid(q: &[u8]) -> (r: bool)
    ensures
        r == header_valid(q@),
{
    if q.len() < 8 {
        return false;
    }
    let length = read_be_u16(q[4], q[5]);
    read_be_u16(q[2], q[3]) == 0 && 6 <= length && length <= 250
}

fn is_to_unit(q: &[u8], unit: u8) -> (r: bool)
    ensures
        r == to_unit(q@, unit),
{
    is_header_valid(q) && q[6] == unit && unit != 0 && unit != 255
}

fn is_read_request(q: &[u8], unit: u8) -> (r: bool)
    ensures
        r == read_request(q@, unit),
{
    is_to_unit(q, unit) && 1 <= q[7] && q[7] <= 4 && q.len() >= 12
}

fn is_valid_read(q: &[u8], unit: u8) -> (r: bool)
    ensures
        r == valid_read(q@, unit),
{
    if !is_read_request(q, unit) {
        return false;
    }
    let limit: u16 = if q[7] == 1 || q[7] == 2 { 2000 } else { 125 };
    read_be_u16(q[10], q[11]) <= limit
}

fn is_addressed(q: &[u8], unit: u8) -> (r: bool)
    ensures
        r == addressed(q@, unit),
{
    is_header_valid(q) && (q[6] == unit || q[6] == 0 || q[6] == 255)
}

fn is_single_request(q: &[u8], unit: u8) -> (r: bool)
    ensures
        r == single_request(q@, unit),
{
    is_addressed(q, unit) && (q[7] == 5 || q[7] == 6) && q.len() >= 10
}

fn is_bulk_request(q: &[u8], unit: u8) -> (r: bool)
    ensures
        r == bulk_request(q@, unit),
{
    is_addressed(q, unit) && (q[7] == 15 || q[7] == 16) && q.len() >= 13
}

fn is_bulk_within_limits(q: &[u8]) -> (r: bool)
    requires
        q@.len() >= 13,
    ensures
        r == bulk_within_limits(q@),
{
    let limit: u16 = if q[7] == 15 { 1968 } else { 123 };
    read_be_u16(q[10], q[11]) <= limit && q[12] <= 246
}

fn is_valid_write(q: &[u8], unit: u8) -> (r: bool)
    ensures
        r == valid_write(q@, unit),
{
    if is_single_request(q, unit) {
        return q.len() >= 12;
    }
    if !is_bulk_request(q, unit) || !is_bulk_within_limits(q) {
        return false;
    }
    let count = read_be_u16(q[10], q[11]) as usize;
    let needed: usize = if q[7] == 15 { (count + 7) / 8 } else { 2 * count };
    q[12] as usize == needed && q.len() >= 13 + q[12] as usize
}

fn is_write_request(q: &[u8], unit: u8) -> (r: bool)
    ensures
        r == write_request(q@, unit),
{
    is_single_request(q, unit) || (is_bulk_request(q, unit) && is_bulk_within_limits(q))
}

/// The frame processor's reading of request `q` for `unit_id`: whether the
/// banks are to be read or written, whether only read, and whether an answer
/// is due.
pub fn parse_request(unit_id: u8, q: &[u8]) -> (r: Result<(bool, bool, bool), AnswerError>)
    ensures
        header_broken(q@) ==> r == Err::<(bool, bool, bool), AnswerError>(AnswerError::Unanswerable),
        to_other_unit(q@, unit_id) ==> r == Ok::<(bool, bool, bool), AnswerError>((false, true, false)),
        (header_valid(q@) && broadcast(q@) && (!known_function(q@[7]) || 1 <= q@[7] <= 4)) ==> r == Ok::<(bool, bool, bool), AnswerError>((false, true, false)),
        (to_unit(q@, unit_id) && !known_function(q@[7])) ==> r == Ok::<(bool, bool, bool), AnswerError>((false, true, true)),
        valid_read(q@, unit_id) ==> r == Ok::<(bool, bool, bool), AnswerError>((true, true, true)),
        (read_request(q@, unit_id) && !valid_read(q@, unit_id)) ==> r == Ok::<(bool, bool, bool), AnswerError>((false, true, true)),
        write_request(q@, unit_id) ==> r == Ok::<(bool, bool, bool), AnswerError>((true, false, to_unit(q@, unit_id))),
        bulk_over_limit(q@, unit_id) ==> r == Ok::<(bool, bool, bool), AnswerError>((false, true, to_unit(q@, unit_id))),
{
    match frame_flags(unit_id, q) {
        Ok(flags) => Ok(flags),
        Err(_) => Err(AnswerError::Unanswerable),
    }
}

/// The answer to read request `q` on `regs`: the cells asked for, or an
/// illegal-address exception when they pass their bank.
pub fn answer_read(unit_id: u8, q: &[u8], regs: &Registers) -> (r: Result<Vec<u8>, AnswerError>)
    ensures
        r is Ok <==> valid_read(q@, unit_id),
        r is Ok ==> r->Ok_0@ == read_answer_on(q@, unit_id, *regs),
        r is Err ==> r == Err::<Vec<u8>, AnswerError>(AnswerError::Unanswerable),
{
    if !is_valid_read(q, unit_id) {
        return Err(AnswerError::Unanswerable);
    }
    match frame_answer_read(unit_id, q, regs) {
        Ok(answer) => Ok(answer),
        Err(_) => Err(AnswerError::Unanswerable),
    }
}

/// Applies write request `q` to `regs` and returns its answer: the
/// acknowledgement when the write fits its bank, else an exception with the
/// banks unchanged. A bulk write whose data does not match its count, or
/// that the request does not hold whole, is refused with an illegal-value
/// exception before anything is written.
pub fn answer_write(unit_id: u8, q: &[u8], regs: &mut Registers) -> (r: Result<Vec<u8>, AnswerError>)
    ensures
        r is Ok <==> write_request(q@, unit_id),
        r is Err ==> r == Err::<Vec<u8>, AnswerError>(AnswerError::Unanswerable) && *final(regs) == *old(regs),
        valid_write(q@, unit_id) ==> write_effect(q@, unit_id, *old(regs), *final(regs), r->Ok_0@),
        (write_request(q@, unit_id) && !valid_write(q@, unit_id)) ==> (*final(regs) == *old(regs)
            && r->Ok_0@ == exception_answer(q@, unit_id, 3)),
{
    if !is_write_request(q, unit_id) {
        return Err(AnswerError::Unanswerable);
    }
    if !is_valid_write(q, unit_id) {
        return Ok(exception_bytes(q, unit_id, 3));
    }
    match frame_answer_write(unit_id, q, regs) {
        Ok(answer) => Ok(answer),
        Err(_) => Err(AnswerError::Unanswerable),
    }
}

/// The answer to request `q` when nothing is processed for it: an
/// illegal-function exception for an unknown function code, an
/// illegal-value exception for a read or a bulk write past its limits.
pub fn answer_unprocessed(unit_id: u8, q: &[u8]) -> (r: Result<Vec<u8>, AnswerError>)
    ensures
        r is Ok <==> (to_unit(q@, unit_id) && (!known_function(q@[7]) || (read_request(q@, unit_id)
            && !valid_read(q@, unit_id)) || bulk_over_limit(q@, unit_id))),
        (r is Ok && !known_function(q@[7])) ==> r->Ok_0@ == exception_answer(q@, unit_id, 1),
        (r is Ok && known_function(q@[7])) ==> r->Ok_0@ == exception_answer(q@, unit_id, 3),
        r is Err ==> r == Err::<Vec<u8>, AnswerError>(AnswerError::Unanswerable),
{
    if !is_to_unit(q, unit_id) {
        return Err(AnswerError::Unanswerable);
    }
    let fc = q[7];
    let known = fc == 1 || fc == 2 || fc == 3 || fc == 4 || fc == 5 || fc == 6 || fc == 15 || fc == 16;
    let over_limit = (is_read_request(q, unit_id) && !is_valid_read(q, unit_id)) || (is_bulk_request(q, unit_id)
        && !is_bulk_within_limits(q));
    if known && !over_limit {
        return Err(AnswerError::Unanswerable);
    }
    if fc >= 0x80 {
        return Ok(exception_bytes(q, unit_id, 1));
    }
    match frame_answer_unprocessed(unit_id, q) {
        Ok(answer) => Ok(answer),
        Err(_) => Err(AnswerError::Unanswerable),
    }
}

fn exception_bytes(q: &[u8], unit: u8, code: u8) -> (r: Vec<u8>)
    requires
        q@.len() >= 8,
    ensures
        r@ == exception_answer(q@, unit, code),
{
    let r = vec![q[0], q[1], 0, 0, 0, 3, unit, q[7] | 0x80, code];
    assert(r@ =~= exception_answer(q@, unit, code));
    r
}

/// The answer to a request whose frame is whole but that the frame processor
/// refuses: an illegal-value exception from the unit it names.
pub fn malformed_answer(q: &[u8]) -> (r: Vec<u8>)
    requires
        q@.len() >= 8,
    ensures
        r@ == exception_answer(q@, q@[6], 3),
{
    exception_bytes(q, q[6], 3)
}

/// A read of exactly the range that an accepted bulk write of holding
/// registers covered answers with the values written.
pub proof fn lemma_answer_after_bulk_write(q: Seq<u8>, unit: u8, bank: Seq<u16>, values: Seq<u16>)
    requires
        valid_read(q, unit),
        q[7] == 3,
        req_count(q) == values.len(),
        range_fits(bank.len() as int, req_reg(q), values.len() as int),
    ensures
        words_read_answer(q, unit, bulk_written(bank, req_reg(q), values)) == read_answer(q, unit, word_bytes(values)),
{
    crate::storage::lemma_read_after_bulk_write(bank, req_reg(q), values);
}

/// A bulk write request that fits its bank, followed by a read request of
/// exactly its range, has the read answered with the data written: holding
/// registers as big-endian words, coils packed low bit first.
pub proof fn lemma_read_answer_after_write_request(
    w: Seq<u8>,
    q: Seq<u8>,
    unit: u8,
    before: Registers,
    after: Registers,
    ack: Seq<u8>,
)
    requires
        bulk_write(w, unit),
        write_effect(w, unit, before, after, ack),
        valid_read(q, unit),
        req_reg(q) == req_reg(w),
        req_count(q) == req_count(w),
        (w[7] == 16 && q[7] == 3) || (w[7] == 15 && q[7] == 1),
        w[7] == 16 ==> range_fits(before.holdings@.len() as int, req_reg(w), req_count(w)),
        w[7] == 15 ==> range_fits(before.coils@.len() as int, req_reg(w), req_count(w)),
    ensures
        w[7] == 16 ==> read_answer_on(q, unit, after) == read_answer(q, unit, word_bytes(bulk_words(w))),
        w[7] == 15 ==> read_answer_on(q, unit, after) == read_answer(q, unit, bit_bytes(bulk_bits(w))),
{
    if w[7] == 16 {
        assert(bulk_words(w).len() == req_count(w));
        crate::storage::lemma_read_after_bulk_write(before.holdings@, req_reg(w), bulk_words(w));
    } else {
        crate::storage::lemma_read_after_bulk_write(before.coils@, req_reg(w), bulk_bits(w));
    }
}

/// A read whose range passes its bank answers with an illegal-address
/// exception: nine bytes echoing the transaction id, the unit and the
/// function code with its high bit set.
pub proof fn lemma_out_of_range_read_is_exception(q: Seq<u8>, unit: u8, regs: Registers)
    requires
        valid_read(q, unit),
        !range_fits(
            (if q[7] == 1 { regs.coils@.len() } else if q[7] == 2 { regs.discretes@.len() } else if q[7] == 3 {
                regs.holdings@.len()
            } else {
                regs.inputs@.len()
            }) as int,
            req_reg(q),
            req_count(q),
        ),
    ensures
        read_answer_on(q, unit, regs) == exception_answer(q, unit, 2),
        read_answer_on(q, unit, regs).len() == 9,
{
}

} // verus!
