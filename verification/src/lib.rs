//! Verified core of asynchronous UCX bindings: status and error handling,
//! request parameters, and the decision logic of the stream, tag and
//! worker operations.  The calls into the UCX C library itself are made by
//! the caller, which hands the results of those calls to this crate.

pub mod address;
pub mod endpoint;
pub mod param;
pub mod status;
pub mod streams;
pub mod worker;

pub use address::WorkerAddress;
pub use endpoint::{Endpoint, StreamCall, TagSendCall, iov_total_len, send_result};
pub use param::{RequestCallback, RequestParam};
pub use status::{Error, Poll, Status, TagRecvInfo, poll_normal, poll_stream, poll_tag};
pub use streams::{
    fill_buffer, ReadEvent, ReadOutcome, ReadStep, ReadStream, TagReadEvent, TagReadStream, TagWriteStream, WriteEvent,
    WriteStep, WriteStream,
};
pub use worker::{
    EventPollAction, EventPollEvent, PollingAction, PollingEvent, TagRecvCall, Worker,     tag_recv_mask_result, tag_recv_result,
};
