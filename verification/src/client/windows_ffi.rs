//! The broker's named pipe on Windows: its name, who may open it, and what goes
//! through it.

use vstd::prelude::*;

use crate::platform::broker::{MAX_WIRE_REQUEST_BYTES, MAX_WIRE_RESPONSE_BYTES};
use crate::text::{concat, tell, told};

use super::broker_session::{frame_read, read_frame, write_frame};
use super::broker::framed;

verus! {

/// The fixed broker pipe name. Only the broker and the client daemon may open it;
/// the DACL is set at pipe creation time.
pub const PIPE_NAME: &'static str = "\\\\.\\pipe\\CentralDBroker";

pub const SERVICE_ACCOUNT: &'static str = "NT SERVICE\\CentralDClient";

/// Sized to fit the largest encoded session frame (1 MiB of data expands to
/// ~1.4 MiB of base64 JSON plus envelope overhead).
pub const PIPE_BUFFER_BYTES: u32 = 1_600_000;

/// How many times a busy pipe is waited for.
pub const PIPE_ATTEMPTS: u32 = 3;

/// Describes who may open the pipe: Local System, which is the broker itself, and
/// the account with this identifier.
pub fn pipe_security_descriptor(service_sid: &str) -> (result: String)
    ensures
        result@ == "D:P(A;;FRFW;;;SY)(A;;FRFW;;;"@ + service_sid@ + ")"@,
{
    let mut text = concat("D:P(A;;FRFW;;;SY)(A;;FRFW;;;", service_sid);
    text.append(")");
    text
}

/// Why a busy pipe is not waited for again, if it is not.
pub open spec fn busy_fault(attempts: int) -> Option<Seq<char>> {
    if attempts >= PIPE_ATTEMPTS {
        Some("broker pipe remained busy after repeated attempts"@)
    } else {
        None
    }
}

/// Whether a pipe that was busy, and waited for this many times, is tried again.
pub fn retry_busy_pipe(attempts: u32) -> (result: Result<(), String>)
    ensures
        told(result, busy_fault(attempts as int)),
{
    if attempts >= PIPE_ATTEMPTS {
        return tell("broker pipe remained busy after repeated attempts");
    }
    Ok(())
}

/// Why a request of this many bytes is not sent, if it is not.
pub open spec fn request_fault(bytes: int) -> Option<Seq<char>> {
    if bytes > MAX_WIRE_REQUEST_BYTES {
        Some("broker pipe request exceeds the wire bound"@)
    } else {
        None
    }
}

/// Frames one bounded request to the broker.
pub fn pipe_request(request: &[u8]) -> (result: Result<Vec<u8>, String>)
    ensures
        told(result, request_fault(request@.len() as int)),
        result is Ok ==> result->Ok_0@ == framed(request@),
{
    if request.len() > MAX_WIRE_REQUEST_BYTES {
        return tell("broker pipe request exceeds the wire bound");
    }
    match write_frame(request) {
        Ok(bytes) => Ok(bytes),
        Err(error) => tell(error.message()),
    }
}

/// Reads one bounded response from what the broker sent.
pub fn pipe_response(stream: &[u8]) -> (result: Result<Vec<u8>, String>)
    ensures
        match frame_read(stream@, MAX_WIRE_RESPONSE_BYTES as int) {
            Ok(body) => result is Ok && result->Ok_0@ == body,
            Err(error) => told(result, Some(error.message_spec())),
        },
{
    match read_frame(stream, MAX_WIRE_RESPONSE_BYTES) {
        Ok(body) => Ok(body),
        Err(error) => tell(error.message()),
    }
}

/// A busy pipe is waited for three times and no more.
pub proof fn busy_pipes_are_given_up(attempts: int)
    ensures
        busy_fault(attempts) is None <==> attempts < 3,
{
}

/// A request is sent exactly if it holds at most 16 KiB.
pub proof fn bounded_requests_are_sent(bytes: int)
    ensures
        request_fault(bytes) is None <==> bytes <= 16 * 1024,
{
}

} // verus!
