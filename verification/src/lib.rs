//! A verified client core for the Mooncake Transfer Engine: the arguments
//! handed to each call of the engine's C interface and the meaning of each
//! call's answer.
pub mod cstr;
pub mod engine;
pub mod error;
pub mod types;

pub use cstr::{c_string, string_from_c_buffer};
pub use engine::{CreateArgs, RegisterBatchArgs, TransferEngine, SESSION_BUFFER_LEN};
pub use error::{decimal_i32, EngineError};
pub use types::{
    buffer_entry_t, transfer_request_t, transfer_status_t, BatchId, BufferEntry, OpcodeEnum,
    TransferRequest, TransferStatusEnum,
};
