//! Timings, register addresses and the failure texts the classifier knows.

use vstd::prelude::*;

verus! {

/// Time allowed to a network operation where nothing shorter is set.
pub const DEFAULT_NETWORK_TIMEOUT_MS: u64 = 10000_u64;

/// Base of the exponential backoff between two attempts of one read.
pub const DEFAULT_BACKOFF_BASE_MS: u64 = 100_u64;

/// Time allowed to a single read attempt.
pub const READ_TIMEOUT_MS: u64 = 500_u64;

/// How often a read is repeated after a transient failure.
pub const MAX_RETRIES: usize = 1_usize;

/// Holding register that stores a meter's own bus address.
pub const SLAVE_ADDRESS_REGISTER: u16 = 0x2_u16;

/// First register of the measurement block.
pub const MEASUREMENT_BASE_REGISTER: u16 = 0x0_u16;

/// Number of registers in the measurement block.
pub const MEASUREMENT_REGISTER_COUNT: u16 = 9_u16;

/// OS error code of a connection that is gone for good.
pub const OS_ERROR_BROKEN_PIPE: i32 = 32_i32;

/// Text of the failure that reports a request with an illegal value.
pub const ERROR_ILLEGAL_DATA_VALUE: &'static str = "illegal data value";

/// Text of the failure that reports a device that stayed silent.
pub const ERROR_GATEWAY_DEVICE_FAILED_TO_RESPOND: &'static str =
    "gateway target device failed to respond";

/// Start of the failure text that reports a response to another request.
pub const ERROR_INVALID_RESPONSE_HEADER: &'static str = "Invalid response header: expected/request";

/// Text carried by the error that reports an answer too short to decode.
pub const ERROR_SHORT_ANSWER: &'static str = "answer holds fewer registers than requested";

/// Text carried by the error that reports a desynchronised stream.
pub const ERROR_OUT_OF_ORDER_RESPONSE: &'static str = "out of order response";

} // verus!
