//! The native checksum benchmark endpoint's decision core.
//!
//! The endpoint receives an execution request whose allowed-helper count
//! encodes, as a quick convention, how many bytes the native checksum should
//! run over: one helper for 80 bytes, doubling with each further helper up
//! to 2560.  The host performs the timed native call; this core decides
//! which size to run, records the measurement, and builds the JSON response.

use vstd::prelude::*;
use crate::requests::VMExecutionRequest;
use crate::textfmt::{format_execution_response, spec_execution_response};

verus! {

/// The CoAP response code 2.04, reporting a performed request.
pub const COAP_CHANGED: u8 = 68;

/// The CoAP response code 4.00, rejecting a malformed request.
pub const COAP_BAD_REQUEST: u8 = 128;

/// The number of bytes the checksum runs over for a given allowed-helper
/// count: 80 bytes for one helper, doubling up to 2560 for six; any other
/// count selects nothing.
pub open spec fn spec_checksum_data_size(count: int) -> Option<u32> {
    if count == 1 {
        Some(80u32)
    } else if count == 2 {
        Some(160u32)
    } else if count == 3 {
        Some(320u32)
    } else if count == 4 {
        Some(640u32)
    } else if count == 5 {
        Some(1280u32)
    } else if count == 6 {
        Some(2560u32)
    } else {
        None
    }
}

/// Maps an allowed-helper count to the checksum input size it encodes.
pub fn checksum_data_size(count: usize) -> (r: Option<u32>)
    ensures
        r == spec_checksum_data_size(count as int),
{
    if count == 1 {
        Some(80)
    } else if count == 2 {
        Some(160)
    } else if count == 3 {
        Some(320)
    } else if count == 4 {
        Some(640)
    } else if count == 5 {
        Some(1280)
    } else if count == 6 {
        Some(2560)
    } else {
        None
    }
}

/// The endpoint's state across one request: the measured execution time and
/// the checksum the native code returned.
pub struct Fletcher16NativeHandler {
    pub execution_time: u32,
    pub result: i64,
}

impl Fletcher16NativeHandler {
    pub fn new() -> (r: Fletcher16NativeHandler)
        ensures
            r.execution_time == 0,
            r.result == 0,
    {
        Fletcher16NativeHandler { execution_time: 0, result: 0 }
    }

    /// Decides what one request payload asks for: the checksum input size,
    /// or the bad-request code when the payload does not decode or its
    /// helper count encodes no size.
    pub fn plan_request(&self, payload: &[u8]) -> (r: Result<u32, u8>)
        ensures
            match VMExecutionRequest::spec_decoded(payload@) {
                Ok(req) => match spec_checksum_data_size(req.allowed_helpers.len() as int) {
                    Some(size) => r == Ok::<u32, u8>(size),
                    Option::None => r == Err::<u32, u8>(COAP_BAD_REQUEST),
                },
                Err(_) => r == Err::<u32, u8>(COAP_BAD_REQUEST),
            },
    {
        let request = match VMExecutionRequest::decode(payload) {
            Ok(req) => req,
            Err(_) => {
                return Err(COAP_BAD_REQUEST);
            },
        };
        match checksum_data_size(request.allowed_helpers.len()) {
            Some(size) => Ok(size),
            None => Err(COAP_BAD_REQUEST),
        }
    }

    /// Records one timed native run: the clock readings around the call and
    /// the checksum it returned.  The duration is the wrap-around difference
    /// of the two readings, as a free-running microsecond timer gives it.
    pub fn record_measurement(&mut self, start: u32, end: u32, checksum: u32)
        ensures
            final(self).execution_time == vstd::wrapping::u32_specs::wrapping_sub(end, start),
            final(self).result == checksum as i64,
    {
        self.execution_time = end.wrapping_sub(start);
        self.result = checksum as i64;
    }

    /// How many bytes the response needs beyond its payload: one, the
    /// response code.
    pub fn estimate_length(&self) -> (r: usize)
        ensures
            r == 1,
    {
        1
    }

    /// The JSON payload reporting the recorded measurement.
    pub fn build_response_payload(&self) -> (r: String)
        ensures
            r@ == spec_execution_response(self.execution_time, self.result),
    {
        format_execution_response(self.execution_time, self.result)
    }
}

} // verus!
