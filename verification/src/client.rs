use vstd::prelude::*;

use crate::base::MbErrors;
use crate::base::MbFunctions;
use crate::codec::encode_read_holding_registers;
use crate::codec::spec_request_frame;

verus! {

/// The connection-state core of a Modbus TCP client: the target address,
/// the unit id and transaction id carried in each frame, and whether a
/// connection is currently held. The socket itself is the caller's; every
/// transition of this state is verified here.
pub struct Client {
    pub ip: String,
    pub port: u16,
    pub uid: u8,
    pub tr_id: u16,
    pub connected: bool,
}

/// The client state after a disconnect: the same target and ids, with no
/// connection held.
pub open spec fn spec_after_disconnect(c: Client) -> Client {
    Client { connected: false, ..c }
}

/// Whether a disconnect of this client still owes the socket a shutdown:
/// only when a connection is held.
pub open spec fn spec_needs_shutdown(c: Client) -> bool {
    c.connected
}

impl Client {
    /// A client for the given target, starting disconnected, with the
    /// transaction id fixed at 1: the design keeps one request in flight,
    /// so the id never needs to vary.
    pub fn new(ip: String, port: u16, uid: u8) -> (r: Client)
        ensures
            r.ip == ip,
            r.port == port,
            r.uid == uid,
            r.tr_id == 1,
            !r.connected,
    {
        Client { ip, port, uid, tr_id: 1, connected: false }
    }

    /// Sets the unit id used by subsequent requests; nothing else of the
    /// client changes, an open connection in particular stays as it is,
    /// since the unit id is carried per frame.
    pub fn set_unit_id(&mut self, uid: u8)
        ensures
            *final(self) == (Client { uid, ..*old(self) }),
    {
        self.uid = uid;
    }

    /// Records the outcome of a connection attempt: the client is connected
    /// exactly when the attempt succeeded, and nothing else changes.
    pub fn note_connect_result(&mut self, success: bool)
        ensures
            *final(self) == (Client { connected: success, ..*old(self) }),
    {
        self.connected = success;
    }

    /// Takes the client to the disconnected state and reports whether a
    /// socket shutdown is still owed, that is, whether a connection was
    /// held. On a client that holds none, nothing changes and no shutdown
    /// is owed, so a disconnect succeeds without touching any socket.
    pub fn begin_disconnect(&mut self) -> (needs_shutdown: bool)
        ensures
            *final(self) == spec_after_disconnect(*old(self)),
            needs_shutdown == spec_needs_shutdown(*old(self)),
            !old(self).connected ==> *final(self) == *old(self),
    {
        let was_connected = self.connected;
        self.connected = false;
        was_connected
    }

    /// Dispatches a read request to its encoder: a read of holding
    /// registers becomes a full request frame (or `RequestError` when the
    /// quantity is out of bounds); every other function is refused with
    /// `InvalidFunction` before anything could reach a socket.
    pub fn prepare_request(&self, function: &MbFunctions) -> (r: Result<Vec<u8>, MbErrors>)
        ensures
            match *function {
                MbFunctions::ReadHoldingRegisters(address, quantity) => {
                    &&& (r is Ok <==> 1 <= quantity <= 125)
                    &&& (r matches Ok(frame) ==> frame@ == spec_request_frame(
                        self.tr_id,
                        self.uid,
                        address,
                        quantity,
                    ))
                    &&& (r matches Err(e) ==> e is RequestError)
                },
                _ => r matches Err(e) && e is InvalidFunction,
            },
    {
        match function {
            MbFunctions::ReadHoldingRegisters(address, quantity) => {
                encode_read_holding_registers(self.tr_id, self.uid, *address, *quantity)
            },
            _ => Err(MbErrors::InvalidFunction),
        }
    }
}

/// Law: one disconnect leaves the client disconnected, so a second
/// disconnect finds a client that holds no connection, changes nothing and
/// owes no shutdown — it succeeds the same way, on any starting state.
pub proof fn lemma_disconnect_idempotent(c: Client)
    ensures
        spec_after_disconnect(spec_after_disconnect(c)) == spec_after_disconnect(c),
        !spec_needs_shutdown(spec_after_disconnect(c)),
{
}

} // verus!
