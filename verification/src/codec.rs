use vstd::prelude::*;

use crate::base::MbErrors;

verus! {

/// The value of a big-endian 16-bit field given its two bytes.
pub open spec fn spec_be16(hi: u8, lo: u8) -> u16 {
    ((hi as int) * 256 + (lo as int)) as u16
}

/// The full outgoing frame of a read-holding-registers request: the 6-byte
/// MBAP header (transaction id, protocol id 0, length 6) followed by the PDU
/// (unit id, function code 3, big-endian address, big-endian quantity).
pub open spec fn spec_request_frame(tr_id: u16, unit_id: u8, address: u16, quantity: u16) -> Seq<
    u8,
> {
    seq![
        (tr_id / 256) as u8,
        (tr_id % 256) as u8,
        0u8,
        0u8,
        0u8,
        6u8,
        unit_id,
        3u8,
        (address / 256) as u8,
        (address % 256) as u8,
        (quantity / 256) as u8,
        (quantity % 256) as u8,
    ]
}

/// The address field read back out of an encoded request frame.
pub open spec fn spec_request_address(frame: Seq<u8>) -> u16 {
    spec_be16(frame[8], frame[9])
}

/// The quantity field read back out of an encoded request frame.
pub open spec fn spec_request_quantity(frame: Seq<u8>) -> u16 {
    spec_be16(frame[10], frame[11])
}

/// A response header the codec accepts: protocol id 0 and a length field
/// that covers at least the unit id and the two shortest PDU bytes, while
/// keeping the whole frame within the 255-byte bound of the frame resolver.
pub open spec fn spec_header_valid(header: Seq<u8>) -> bool {
    &&& header[2] == 0
    &&& header[3] == 0
    &&& 3 <= spec_be16(header[4], header[5]) <= 249
}

/// The total frame length a valid header declares: its length field plus the
/// six header bytes themselves.
pub open spec fn spec_frame_length(header: Seq<u8>) -> int {
    6 + spec_be16(header[4], header[5])
}

/// What `rmodbus` accepts as a response to a read-holdings request: matching
/// transaction id, protocol id 0, matching unit id, function code 3, and a
/// byte-count field of at least half the data bytes present.
pub open spec fn spec_response_accepted(buf: Seq<u8>, tr_id: u16, unit_id: u8) -> bool {
    &&& buf.len() >= 9
    &&& spec_be16(buf[0], buf[1]) == tr_id
    &&& buf[2] == 0
    &&& buf[3] == 0
    &&& buf[6] == unit_id
    &&& buf[7] == 3
    &&& 2 * (buf[8] as int) >= buf.len() - 9
}

/// The registers `rmodbus` extracts from a response buffer: the big-endian
/// 16-bit pairs of the data bytes after the byte-count field, capped at the
/// requested quantity.
pub open spec fn spec_raw_registers(buf: Seq<u8>, quantity: u16) -> Seq<u16> {
    let pairs = (buf.len() - 9) / 2;
    let n = if pairs <= quantity as int {
        pairs
    } else {
        quantity as int
    };
    Seq::new(n as nat, |i: int| spec_be16(buf[9 + 2 * i], buf[10 + 2 * i]))
}

/// A well-formed response to a read-holdings request: the request's
/// transaction id and unit id, protocol id 0, function code 3 (so no
/// exception response), and an even byte count that equals the data bytes
/// present and asks for no more registers than the request did.
pub open spec fn spec_response_wf(buf: Seq<u8>, tr_id: u16, unit_id: u8, quantity: u16) -> bool {
    &&& buf.len() >= 11
    &&& spec_be16(buf[0], buf[1]) == tr_id
    &&& buf[2] == 0
    &&& buf[3] == 0
    &&& buf[6] == unit_id
    &&& buf[7] == 3
    &&& buf[8] % 2 == 0
    &&& buf[8] == buf.len() - 9
    &&& buf[8] <= 2 * (quantity as int)
}

/// The register values a well-formed response carries: one per big-endian
/// byte pair of its data section.
pub open spec fn spec_response_registers(buf: Seq<u8>) -> Seq<u16> {
    Seq::new(((buf.len() - 9) / 2) as nat, |i: int| spec_be16(buf[9 + 2 * i], buf[10 + 2 * i]))
}

/// Declares `rmodbus::ErrorKind` so the trusted wrappers can hand its errors
/// through; verified code maps every one of them to an `MbErrors` value.
#[verifier::external_type_specification]
#[verifier::external_body]
pub struct ExRmErrorKind(rmodbus::ErrorKind);

/// Relies on `rmodbus::client::ModbusRequest::new_tcp_udp` and
/// `ModbusRequest::generate_get_holdings`: for Modbus TCP the generated
/// request is always the 6-byte MBAP header with length field 6 followed by
/// unit id, function code 3, and the big-endian address and quantity, and
/// generation into a `Vec` cannot fail.
#[verifier::external_body]
fn rm_generate_get_holdings(tr_id: u16, unit_id: u8, address: u16, quantity: u16) -> (r: Result<
    Vec<u8>,
    rmodbus::ErrorKind,
>)
    ensures
        r is Ok,
        (r matches Ok(frame) ==> frame@ == spec_request_frame(tr_id, unit_id, address, quantity)),
{
    let mut request = rmodbus::client::ModbusRequest::new_tcp_udp(unit_id, tr_id);
    let mut frame: Vec<u8> = Vec::new();
    match request.generate_get_holdings(address, quantity, &mut frame) {
        Ok(()) => Ok(frame),
        Err(e) => Err(e),
    }
}

/// Relies on `rmodbus::guess_response_frame_len` for Modbus TCP: with a
/// length field of at most 249 it returns the length field plus 6 when the
/// header's protocol id is 0, and an error otherwise.
#[verifier::external_body]
fn rm_guess_response_frame_len(header: &[u8; 6]) -> (r: Result<u8, rmodbus::ErrorKind>)
    requires
        spec_be16(header[4], header[5]) <= 249,
    ensures
        r is Ok <==> (header[2] == 0 && header[3] == 0),
        (r matches Ok(total) ==> total == 6 + spec_be16(header@[4], header@[5])),
{
    rmodbus::guess_response_frame_len(header.as_slice(), rmodbus::ModbusProto::TcpUdp)
}

/// Relies on `rmodbus::client::ModbusRequest::new_tcp_udp` and
/// `ModbusRequest::parse_u16` with function code 3 set: the parse succeeds
/// exactly on the frames `spec_response_accepted` describes and then yields
/// the big-endian register pairs of the data section, capped at `quantity`.
#[verifier::external_body]
fn rm_parse_u16(tr_id: u16, unit_id: u8, quantity: u16, buf: &Vec<u8>) -> (r: Result<
    Vec<u16>,
    rmodbus::ErrorKind,
>)
    requires
        buf@.len() >= 10,
    ensures
        r is Ok <==> spec_response_accepted(buf@, tr_id, unit_id),
        (r matches Ok(regs) ==> regs@ == spec_raw_registers(buf@, quantity)),
{
    let mut request = rmodbus::client::ModbusRequest::new_tcp_udp(unit_id, tr_id);
    request.func = rmodbus::consts::ModbusFunction::GetHoldings;
    request.count = quantity;
    let mut registers: Vec<u16> = Vec::new();
    match request.parse_u16(buf.as_slice(), &mut registers) {
        Ok(()) => Ok(registers),
        Err(e) => Err(e),
    }
}

/// Encodes a read-holding-registers request as a full Modbus TCP frame.
/// Quantities outside the protocol's 1..=125 register bound are refused at
/// encode time, before anything is sent.
pub fn encode_read_holding_registers(
    tr_id: u16,
    unit_id: u8,
    address: u16,
    quantity: u16,
) -> (r: Result<Vec<u8>, MbErrors>)
    ensures
        r is Ok <==> 1 <= quantity <= 125,
        (r matches Ok(frame) ==> frame@ == spec_request_frame(tr_id, unit_id, address, quantity)),
        (r matches Err(e) ==> e is RequestError),
{
    if quantity < 1 || quantity > 125 {
        return Err(MbErrors::RequestError);
    }
    match rm_generate_get_holdings(tr_id, unit_id, address, quantity) {
        Ok(frame) => Ok(frame),
        Err(_) => Err(MbErrors::RequestError),
    }
}

/// Given the six header bytes of a response, resolves the total frame
/// length that the header's length field declares, refusing headers whose
/// protocol id is not 0 or whose length field falls outside 3..=249.
pub fn resolve_frame_length(header: &[u8; 6]) -> (r: Result<usize, MbErrors>)
    ensures
        r is Ok <==> spec_header_valid(header@),
        (r matches Ok(total) ==> total == spec_frame_length(header@)),
        (r matches Err(e) ==> e is InvalidResponse),
{
    if header[4] != 0 || header[5] < 3 || header[5] > 249 {
        return Err(MbErrors::InvalidResponse);
    }
    match rm_guess_response_frame_len(header) {
        Ok(total) => Ok(total as usize),
        Err(_) => Err(MbErrors::InvalidResponse),
    }
}

/// Decodes a full response frame to a read-holding-registers request,
/// validating the transaction id, protocol id, unit id and function code
/// (an exception response's code never matches) and the byte count, then
/// unpacking the data bytes as big-endian 16-bit registers.
pub fn decode_read_holding_registers_response(
    frame: &Vec<u8>,
    tr_id: u16,
    unit_id: u8,
    quantity: u16,
) -> (r: Result<Vec<u16>, MbErrors>)
    ensures
        r is Ok <==> spec_response_wf(frame@, tr_id, unit_id, quantity),
        (r matches Ok(registers) ==> registers@ == spec_response_registers(frame@)),
        (r matches Err(e) ==> e is InvalidResponse),
{
    let total = frame.len();
    if total < 11 {
        return Err(MbErrors::InvalidResponse);
    }
    let byte_count = frame[8];
    if byte_count % 2 != 0 || byte_count as usize != total - 9 {
        return Err(MbErrors::InvalidResponse);
    }
    if byte_count as u32 > 2 * (quantity as u32) {
        return Err(MbErrors::InvalidResponse);
    }
    match rm_parse_u16(tr_id, unit_id, quantity, frame) {
        Ok(registers) => {
            proof {
                assert(spec_raw_registers(frame@, quantity) =~= spec_response_registers(frame@));
            }
            Ok(registers)
        },
        Err(_) => Err(MbErrors::InvalidResponse),
    }
}

/// Law: encoding a read-holding-registers request and reading the address
/// and quantity fields back out of the frame recovers the values the frame
/// was built from, for every address and quantity.
pub proof fn lemma_request_round_trip(tr_id: u16, unit_id: u8, address: u16, quantity: u16)
    ensures
        spec_request_address(spec_request_frame(tr_id, unit_id, address, quantity)) == address,
        spec_request_quantity(spec_request_frame(tr_id, unit_id, address, quantity)) == quantity,
{
    vstd::arithmetic::div_mod::lemma_fundamental_div_mod(address as int, 256);
    vstd::arithmetic::div_mod::lemma_fundamental_div_mod(quantity as int, 256);
}

} // verus!
