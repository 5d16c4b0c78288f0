//! The two-byte prefix that marks every application frame, and the field
//! layouts shared by the control protocol's frames.
use crate::can_frame::DataFrame;
use vstd::prelude::*;

verus! {

pub const OSCC_MAGIC_BYTE_0: u8 = 0x05;

pub const OSCC_MAGIC_BYTE_1: u8 = 0xCC;

/// Data length of every frame the controller transmits.
pub const OSCC_FRAME_DLC: usize = 8;

/// Whether a payload starts with the magic bytes.
pub open spec fn has_magic(data: Seq<u8>) -> bool {
    data.len() >= 2 && data[0] == OSCC_MAGIC_BYTE_0 && data[1] == OSCC_MAGIC_BYTE_1
}

/// The value of four bytes read little-endian.
pub open spec fn le_u32_value(b0: u8, b1: u8, b2: u8, b3: u8) -> int {
    b0 + b1 * 0x100 + b2 * 0x1_0000 + b3 * 0x100_0000
}

/// The value of the four bytes of `data` from `offset` on, little-endian.
pub open spec fn le_u32_at(data: Seq<u8>, offset: int) -> int
    recommends
        0 <= offset,
        offset + 4 <= data.len(),
{
    le_u32_value(data[offset], data[offset + 1], data[offset + 2], data[offset + 3])
}

/// The four bytes of `v`, least significant first.
pub open spec fn le_u32_bytes(v: u32) -> Seq<u8> {
    seq![
        (v % 0x100) as u8,
        (v / 0x100 % 0x100) as u8,
        (v / 0x1_0000 % 0x100) as u8,
        (v / 0x100_0000) as u8,
    ]
}

/// The payload of a report frame: magic, enabled, operator override, DTCs,
/// padded with zeros.
pub open spec fn report_payload(enabled: bool, operator_override: bool, dtcs: u8) -> Seq<u8> {
    seq![
        OSCC_MAGIC_BYTE_0,
        OSCC_MAGIC_BYTE_1,
        if enabled { 1u8 } else { 0u8 },
        if operator_override { 1u8 } else { 0u8 },
        dtcs,
        0u8,
        0u8,
        0u8,
    ]
}

/// The payload of a command frame: magic, then the request's IEEE-754 bit
/// pattern little-endian, padded with zeros.
pub open spec fn command_payload(request_bits: u32) -> Seq<u8> {
    seq![OSCC_MAGIC_BYTE_0, OSCC_MAGIC_BYTE_1] + le_u32_bytes(request_bits) + seq![0u8, 0u8]
}

/// The payload of a fault report frame: magic, the origin little-endian,
/// the DTCs, padded with a zero.
pub open spec fn fault_payload(fault_origin_id: u32, dtcs: u8) -> Seq<u8> {
    seq![OSCC_MAGIC_BYTE_0, OSCC_MAGIC_BYTE_1] + le_u32_bytes(fault_origin_id) + seq![dtcs, 0u8]
}

/// Reading back the little-endian bytes of a value gives the value.
pub proof fn lemma_le_u32_round_trip(v: u32)
    ensures
        le_u32_at(le_u32_bytes(v), 0) == v,
{
    let b = le_u32_bytes(v);
    assert(b[0] as int == v % 0x100);
    assert(b[1] as int == v / 0x100 % 0x100);
    assert(b[2] as int == v / 0x1_0000 % 0x100);
    assert(b[3] as int == v / 0x100_0000);
    let x = v as int;
    assert(x % 0x100 + (x / 0x100 % 0x100) * 0x100 + (x / 0x1_0000 % 0x100) * 0x1_0000 + (x / 0x100_0000) * 0x100_0000 == x)
        by (nonlinear_arith)
        requires
            0 <= x < 0x1_0000_0000,
    ;
}

/// What a report decoder reads from a frame with identifier `frame_id` and
/// payload `data` when it expects identifier `id`: nothing where the
/// identifier differs, the magic bytes are missing or the payload is
/// shorter than a report.
pub open spec fn decoded_report(frame_id: u32, data: Seq<u8>, id: u32) -> Option<(bool, bool, u8)> {
    if frame_id == id && has_magic(data) && data.len() >= 5 {
        Some((data[2] != 0, data[3] != 0, data[4]))
    } else {
        None
    }
}

/// What a command decoder reads: the request bit pattern, under the same
/// conditions as a report with a six-byte minimum.
pub open spec fn decoded_command(frame_id: u32, data: Seq<u8>, id: u32) -> Option<u32> {
    if frame_id == id && has_magic(data) && data.len() >= 6 {
        Some(le_u32_at(data, 2) as u32)
    } else {
        None
    }
}

/// What a fault report decoder reads: the origin and the DTCs, under the
/// same conditions with a seven-byte minimum.
pub open spec fn decoded_fault(frame_id: u32, data: Seq<u8>, id: u32) -> Option<(u32, u8)> {
    if frame_id == id && has_magic(data) && data.len() >= 7 {
        Some((le_u32_at(data, 2) as u32, data[6]))
    } else {
        None
    }
}

/// Decoding an encoded report gives back the state it was encoded from.
pub proof fn lemma_report_round_trip(id: u32, enabled: bool, operator_override: bool, dtcs: u8)
    ensures
        decoded_report(id, report_payload(enabled, operator_override, dtcs), id)
            == Some((enabled, operator_override, dtcs)),
{
}

/// Decoding an encoded command gives back the exact request bit pattern.
pub proof fn lemma_command_round_trip(id: u32, request_bits: u32)
    ensures
        decoded_command(id, command_payload(request_bits), id) == Some(request_bits),
{
    let p = command_payload(request_bits);
    lemma_le_u32_round_trip(request_bits);
    assert(p.subrange(2, 6) =~= le_u32_bytes(request_bits));
    assert(le_u32_at(p, 2) == le_u32_at(le_u32_bytes(request_bits), 0));
}

/// Decoding an encoded fault report gives back its origin and DTCs.
pub proof fn lemma_fault_round_trip(id: u32, fault_origin_id: u32, dtcs: u8)
    ensures
        decoded_fault(id, fault_payload(fault_origin_id, dtcs), id) == Some((fault_origin_id, dtcs)),
{
    let p = fault_payload(fault_origin_id, dtcs);
    lemma_le_u32_round_trip(fault_origin_id);
    assert(p.subrange(2, 6) =~= le_u32_bytes(fault_origin_id));
    assert(le_u32_at(p, 2) == le_u32_at(le_u32_bytes(fault_origin_id), 0));
}

/// Whether the frame's payload starts with the magic bytes.
pub fn has_magic_bytes(frame: &DataFrame) -> (r: bool)
    ensures
        r == has_magic(frame.data@),
{
    frame.data.len() >= 2 && frame.data[0] == OSCC_MAGIC_BYTE_0 && frame.data[1] == OSCC_MAGIC_BYTE_1
}

/// The four bytes of `data` from `offset` on, read little-endian.
pub fn read_u32_le(data: &Vec<u8>, offset: usize) -> (r: u32)
    requires
        offset + 4 <= data@.len(),
    ensures
        r as int == le_u32_at(data@, offset as int),
{
    let len = data.len();
    assert(offset + 3 < len);
    let b0 = data[offset] as u32;
    let b1 = data[offset + 1] as u32;
    let b2 = data[offset + 2] as u32;
    let b3 = data[offset + 3] as u32;
    b0 + b1 * 0x100 + b2 * 0x1_0000 + b3 * 0x100_0000
}

/// Appends the four bytes of `v`, least significant first.
pub fn push_u32_le(data: &mut Vec<u8>, v: u32)
    ensures
        final(data)@ == old(data)@ + le_u32_bytes(v),
{
    data.push((v % 0x100) as u8);
    data.push((v / 0x100 % 0x100) as u8);
    data.push((v / 0x1_0000 % 0x100) as u8);
    data.push((v / 0x100_0000) as u8);
    assert(data@ =~= old(data)@ + le_u32_bytes(v));
}

/// A report frame for the given state.
pub fn encode_report(id: u32, enabled: bool, operator_override: bool, dtcs: u8) -> (r: DataFrame)
    ensures
        r.id == id,
        r.data@ == report_payload(enabled, operator_override, dtcs),
{
    let data: Vec<u8> = vec![
        OSCC_MAGIC_BYTE_0,
        OSCC_MAGIC_BYTE_1,
        if enabled { 1u8 } else { 0u8 },
        if operator_override { 1u8 } else { 0u8 },
        dtcs,
        0u8,
        0u8,
        0u8,
    ];
    assert(data@ =~= report_payload(enabled, operator_override, dtcs));
    DataFrame { id, data }
}

/// The state carried by a report frame, or `None` where the frame has
/// another identifier, lacks the magic bytes, or is shorter than a report.
pub fn decode_report(frame: &DataFrame, id: u32) -> (r: Option<(bool, bool, u8)>)
    ensures
        r == decoded_report(frame.id, frame.data@, id),
{
    if frame.id == id && has_magic_bytes(frame) && frame.data.len() >= 5 {
        Some((frame.data[2] != 0, frame.data[3] != 0, frame.data[4]))
    } else {
        None
    }
}

/// A command frame carrying the bit pattern of a request.
pub fn encode_command(id: u32, request_bits: u32) -> (r: DataFrame)
    ensures
        r.id == id,
        r.data@ == command_payload(request_bits),
{
    let mut data: Vec<u8> = Vec::new();
    data.push(OSCC_MAGIC_BYTE_0);
    data.push(OSCC_MAGIC_BYTE_1);
    push_u32_le(&mut data, request_bits);
    data.push(0u8);
    data.push(0u8);
    assert(data@ =~= command_payload(request_bits));
    DataFrame { id, data }
}

/// The request bit pattern of a command frame, or `None` where the frame
/// has another identifier, lacks the magic bytes, or is shorter than a
/// command.
pub fn decode_command(frame: &DataFrame, id: u32) -> (r: Option<u32>)
    ensures
        r == decoded_command(frame.id, frame.data@, id),
{
    if frame.id == id && has_magic_bytes(frame) && frame.data.len() >= 6 {
        Some(read_u32_le(&frame.data, 2))
    } else {
        None
    }
}

/// A fault report frame.
pub fn encode_fault(id: u32, fault_origin_id: u32, dtcs: u8) -> (r: DataFrame)
    ensures
        r.id == id,
        r.data@ == fault_payload(fault_origin_id, dtcs),
{
    let mut data: Vec<u8> = Vec::new();
    data.push(OSCC_MAGIC_BYTE_0);
    data.push(OSCC_MAGIC_BYTE_1);
    push_u32_le(&mut data, fault_origin_id);
    data.push(dtcs);
    data.push(0u8);
    assert(data@ =~= fault_payload(fault_origin_id, dtcs));
    DataFrame { id, data }
}

/// The origin and DTCs of a fault report frame, where the frame is one.
pub fn decode_fault(frame: &DataFrame, id: u32) -> (r: Option<(u32, u8)>)
    ensures
        r == decoded_fault(frame.id, frame.data@, id),
{
    if frame.id == id && has_magic_bytes(frame) && frame.data.len() >= 7 {
        Some((read_u32_le(&frame.data, 2), frame.data[6]))
    } else {
        None
    }
}

} // verus!
