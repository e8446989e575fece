use vstd::prelude::*;

verus! {

/// A Modbus register address, as carried in a request PDU.
pub type MbAddress = u16;

/// A register count, as carried in a request PDU.
pub type MbQuantity = u16;

/// The system's answer for "how many milliseconds since the Unix epoch".
///
/// Relies on `std::time::SystemTime::now` and
/// `SystemTime::duration_since(UNIX_EPOCH)`: the wall clock alone decides the
/// value, so nothing is promised of it. A clock that stands before the epoch
/// has no such count and is reported as zero.
#[verifier::external_body]
pub fn timestamp() -> u128 {
    match std::time::SystemTime::now().duration_since(std::time::UNIX_EPOCH) {
        Ok(elapsed) => elapsed.as_millis(),
        Err(_) => 0,
    }
}

/// Declares `std::io::Error` so that `MbErrors` can carry the cause of a
/// transport failure; the library itself never inspects it.
#[verifier::external_type_specification]
#[verifier::external_body]
pub struct ExIoError(std::io::Error);

/// The Modbus read functions a request can ask for, each over a starting
/// address and a register or bit count. Only holding-register reads have an
/// execution path; dispatching any other tag is refused with
/// `MbErrors::InvalidFunction`.
pub enum MbFunctions {
    ReadCoils(MbAddress, MbQuantity),
    ReadDiscreteInputs(MbAddress, MbQuantity),
    ReadHoldingRegisters(MbAddress, MbQuantity),
    ReadInputRegisters(MbAddress, MbQuantity),
}

/// Combination of Modbus, IO and data corruption errors.
#[derive(Debug)]
pub enum MbErrors {
    /// A transport-level failure, with the underlying socket error.
    Io(std::io::Error),
    /// The response frame could not be resolved or decoded.
    InvalidResponse,
    /// The requested operation has no implementation.
    InvalidFunction,
    /// The request could not be encoded, e.g. a quantity out of bounds.
    RequestError,
}

/// The result envelope of a successful read: the register values in the order
/// the device returned them, the wall-clock moment of construction, and the
/// round-trip time where the read completed.
#[derive(Debug)]
pub struct MbData {
    pub result: Vec<u16>,
    pub ts: u64,
    pub elapsed: Option<u64>,
}

impl MbData {
    /// Wraps decoded register values, stamping the current wall-clock time;
    /// the elapsed round-trip time is the caller's to supply.
    pub fn new(result: Vec<u16>, elapsed: Option<u64>) -> (r: Self)
        ensures
            r.result == result,
            r.elapsed == elapsed,
    {
        let ts = #[verifier::truncate] (timestamp() as u64);
        Self { result, ts, elapsed }
    }
}

/// Basic client structure: what every Modbus client transport offers.
pub trait MbClientBase {
    fn connect(&mut self) -> bool;

    fn disconnect(&mut self) -> bool;

    fn set_unit_id(&mut self, uid: u8);

    fn read_holding_registers(&mut self, address: u16, length: u16) -> Result<MbData, MbErrors>;
}

} // verus!
