//! UCX status codes, the library's `Error` type, status pointers and the
//! polling decisions that turn a status into an outcome.

use vstd::prelude::*;

verus! {

/// `UCS_OK`: the operation completed successfully.
pub const UCS_OK: i8 = 0;
/// `UCS_INPROGRESS`: the operation is still in progress.
pub const UCS_INPROGRESS: i8 = 1;
/// `UCS_ERR_BUSY`: the resource is busy.
pub const UCS_ERR_BUSY: i8 = -15;
/// `UCS_ERR_CONNECTION_RESET`: the connection was reset by the peer.
pub const UCS_ERR_CONNECTION_RESET: i8 = -25;
/// `UCS_ERR_LAST`: the smallest status code; a status pointer whose
/// address is at or above this value, read as unsigned, holds an error.
pub const UCS_ERR_LAST: i8 = -100;

/// An error reported by UCX.  Each named UCX error status has a variant of
/// its own; any other failing status is `Unknown`.
#[derive(Debug, Clone, Copy, PartialEq, Eq, Structural)]
pub enum Error {
    NoMessage,
    NoResource,
    IoError,
    NoMemory,
    InvalidParam,
    Unreachable,
    InvalidAddr,
    NotImplemented,
    MessageTruncated,
    NoProgress,
    BufferTooSmall,
    NoElem,
    SomeConnectsFailed,
    NoDevice,
    Busy,
    Canceled,
    ShmemSegment,
    AlreadyExists,
    OutOfRange,
    Timeout,
    ExceedsLimit,
    Unsupported,
    Rejected,
    NotConnected,
    ConnectionReset,
    FirstLinkFailure,
    LastLinkFailure,
    FirstEndpointFailure,
    EndpointTimeout,
    LastEndpointFailure,
    Unknown,
}

/// The error that a failing status code stands for.
pub open spec fn error_of(status: i8) -> Error {
    if status == -1 { Error::NoMessage }
    else if status == -2 { Error::NoResource }
    else if status == -3 { Error::IoError }
    else if status == -4 { Error::NoMemory }
    else if status == -5 { Error::InvalidParam }
    else if status == -6 { Error::Unreachable }
    else if status == -7 { Error::InvalidAddr }
    else if status == -8 { Error::NotImplemented }
    else if status == -9 { Error::MessageTruncated }
    else if status == -10 { Error::NoProgress }
    else if status == -11 { Error::BufferTooSmall }
    else if status == -12 { Error::NoElem }
    else if status == -13 { Error::SomeConnectsFailed }
    else if status == -14 { Error::NoDevice }
    else if status == -15 { Error::Busy }
    else if status == -16 { Error::Canceled }
    else if status == -17 { Error::ShmemSegment }
    else if status == -18 { Error::AlreadyExists }
    else if status == -19 { Error::OutOfRange }
    else if status == -20 { Error::Timeout }
    else if status == -21 { Error::ExceedsLimit }
    else if status == -22 { Error::Unsupported }
    else if status == -23 { Error::Rejected }
    else if status == -24 { Error::NotConnected }
    else if status == -25 { Error::ConnectionReset }
    else if status == -40 { Error::FirstLinkFailure }
    else if status == -59 { Error::LastLinkFailure }
    else if status == -60 { Error::FirstEndpointFailure }
    else if status == -80 { Error::EndpointTimeout }
    else if status == -89 { Error::LastEndpointFailure }
    else { Error::Unknown }
}

/// The result that a plain status code stands for.
pub open spec fn result_of(status: i8) -> Result<(), Error> {
    if status == UCS_OK { Ok(()) } else { Err(error_of(status)) }
}

/// A status is a success exactly when it is `UCS_OK`; every other status,
/// `UCS_INPROGRESS` included, is the error of that status.
pub proof fn lemma_only_ok_succeeds(status: i8)
    ensures
        result_of(status) is Ok <==> status == UCS_OK,
        status != UCS_OK ==> result_of(status) == Err::<(), Error>(error_of(status)),
{
}

/// Distinct failing statuses that UCX names give distinct errors, none of
/// them `Unknown`, and only failing statuses are named: the error tells
/// which status it came from.
pub proof fn lemma_error_of_distinguishes(a: i8, b: i8)
    ensures
        error_of(a) != Error::Unknown ==> -89 <= a <= -1,
        error_of(a) != Error::Unknown && error_of(a) == error_of(b) ==> a == b,
        -25 <= a <= -1 ==> error_of(a) != Error::Unknown,
        error_of(-15i8) == Error::Busy,
        error_of(-25i8) == Error::ConnectionReset,
        error_of(-80i8) == Error::EndpointTimeout,
{
}

impl Error {
    /// Converts a failing status code into an `Error`.
    pub fn from_error(status: i8) -> (e: Error)
        ensures
            e == error_of(status),
    {
        match status {
            -1 => Error::NoMessage,
            -2 => Error::NoResource,
            -3 => Error::IoError,
            -4 => Error::NoMemory,
            -5 => Error::InvalidParam,
            -6 => Error::Unreachable,
            -7 => Error::InvalidAddr,
            -8 => Error::NotImplemented,
            -9 => Error::MessageTruncated,
            -10 => Error::NoProgress,
            -11 => Error::BufferTooSmall,
            -12 => Error::NoElem,
            -13 => Error::SomeConnectsFailed,
            -14 => Error::NoDevice,
            -15 => Error::Busy,
            -16 => Error::Canceled,
            -17 => Error::ShmemSegment,
            -18 => Error::AlreadyExists,
            -19 => Error::OutOfRange,
            -20 => Error::Timeout,
            -21 => Error::ExceedsLimit,
            -22 => Error::Unsupported,
            -23 => Error::Rejected,
            -24 => Error::NotConnected,
            -25 => Error::ConnectionReset,
            -40 => Error::FirstLinkFailure,
            -59 => Error::LastLinkFailure,
            -60 => Error::FirstEndpointFailure,
            -80 => Error::EndpointTimeout,
            -89 => Error::LastEndpointFailure,
            _ => Error::Unknown,
        }
    }

    /// Converts a status code into a result: `Ok` exactly for `UCS_OK`.
    pub fn from_status(status: i8) -> (r: Result<(), Error>)
        ensures
            r == result_of(status),
    {
        if status == UCS_OK {
            Ok(())
        } else {
            Err(Error::from_error(status))
        }
    }
}


/// A status pointer (`ucs_status_ptr_t`, read as an address) holds an error
/// status: its address is one of the top `-UCS_ERR_LAST` addresses.
pub open spec fn spec_ptr_is_err(ptr: usize) -> bool {
    ptr >= usize::MAX - 99
}

/// A status pointer points at an outstanding request: it is neither null
/// nor an error status.
pub open spec fn spec_ptr_is_ptr(ptr: usize) -> bool {
    ptr != 0 && !spec_ptr_is_err(ptr)
}

/// The status held by an error status pointer: its address read as a
/// signed integer.
pub open spec fn spec_ptr_raw_status(ptr: usize) -> int {
    ptr - usize::MAX - 1
}

/// The result that a status pointer stands for once no request is pending:
/// `Ok` unless the pointer holds an error status.
pub open spec fn ptr_result(ptr: usize) -> Result<(), Error> {
    if spec_ptr_is_err(ptr) {
        Err(error_of(spec_ptr_raw_status(ptr) as i8))
    } else {
        Ok(())
    }
}

/// Whether a status pointer holds an error status (`UCS_PTR_IS_ERR`).
pub fn ptr_is_err(ptr: usize) -> (r: bool)
    ensures
        r == spec_ptr_is_err(ptr),
{
    ptr >= usize::MAX - 99
}

/// Whether a status pointer points at an outstanding request
/// (`UCS_PTR_IS_PTR`).
pub fn ptr_is_ptr(ptr: usize) -> (r: bool)
    ensures
        r == spec_ptr_is_ptr(ptr),
{
    ptr != 0 && !ptr_is_err(ptr)
}

/// The status code held by an error status pointer
/// (`UCS_PTR_RAW_STATUS`).
pub fn ptr_raw_status(ptr: usize) -> (status: i8)
    requires
        spec_ptr_is_err(ptr),
    ensures
        status == spec_ptr_raw_status(ptr),
        UCS_ERR_LAST <= status < UCS_OK,
{
    let back: usize = usize::MAX - ptr;
    let back_small: i8 = back as i8;
    -1 - back_small
}

impl Error {
    /// Converts a status pointer into a result: an error exactly when the
    /// pointer holds an error status, and then the error of that status.
    pub fn from_ptr(ptr: usize) -> (r: Result<(), Error>)
        ensures
            r == ptr_result(ptr),
    {
        if ptr_is_err(ptr) {
            Err(Error::from_error(ptr_raw_status(ptr)))
        } else {
            Ok(())
        }
    }
}

/// What a non-blocking UCX operation returned: either it completed at once
/// (with its result), or it was scheduled as a request, identified by the
/// request's address, that completes later.
#[derive(Debug, PartialEq, Eq)]
pub enum Status<T> {
    Completed(Result<T, Error>),
    Scheduled(usize),
}

/// The status that a status pointer stands for, given the value that an
/// immediately completed operation produced.
pub open spec fn status_of<T>(ptr: usize, immediate: T) -> Status<T> {
    if spec_ptr_is_ptr(ptr) {
        Status::Scheduled(ptr)
    } else if spec_ptr_is_err(ptr) {
        Status::Completed(Err(error_of(spec_ptr_raw_status(ptr) as i8)))
    } else {
        Status::Completed(Ok(immediate))
    }
}

impl<T> Status<T> {
    /// Classifies the status pointer that an operation returned: a request
    /// pointer is scheduled; otherwise the operation completed, with the
    /// error that the pointer holds or with `immediate`.
    pub fn from(ptr: usize, immediate: T) -> (s: Status<T>)
        ensures
            s == status_of(ptr, immediate),
    {
        if ptr_is_ptr(ptr) {
            Status::Scheduled(ptr)
        } else {
            match Error::from_ptr(ptr) {
                Ok(()) => Status::Completed(Ok(immediate)),
                Err(e) => Status::Completed(Err(e)),
            }
        }
    }
}

/// The state of an operation that is being polled.
#[derive(Debug, PartialEq, Eq)]
pub enum Poll<T> {
    Ready(T),
    Pending,
}

/// The information about a received tagged message (`ucp_tag_recv_info`).
#[derive(Debug, Clone, Copy, PartialEq, Eq, Structural)]
pub struct TagRecvInfo {
    pub sender_tag: u64,
    pub length: usize,
}

/// Polls a send request, given the status that testing it returned: pending
/// while in progress, otherwise ready with the result of the status.
pub fn poll_normal(status: i8) -> (p: Poll<Result<(), Error>>)
    ensures
        p == (if status == UCS_INPROGRESS { Poll::Pending } else { Poll::Ready(result_of(status)) }),
{
    if status == UCS_INPROGRESS {
        Poll::Pending
    } else {
        Poll::Ready(Error::from_status(status))
    }
}

/// Polls a stream receive request, given the status that testing it
/// returned and the length that the test reported: pending while in
/// progress, ready with the length on success, ready with the error
/// otherwise.
pub fn poll_stream(status: i8, len: usize) -> (p: Poll<Result<usize, Error>>)
    ensures
        p == (if status == UCS_INPROGRESS {
            Poll::Pending
        } else if status == UCS_OK {
            Poll::Ready(Ok(len))
        } else {
            Poll::Ready(Err(error_of(status)))
        }),
{
    if status == UCS_INPROGRESS {
        Poll::Pending
    } else {
        match Error::from_status(status) {
            Ok(()) => Poll::Ready(Ok(len)),
            Err(e) => Poll::Ready(Err(e)),
        }
    }
}

/// Polls a tag receive request, given the status that testing it returned
/// and the information that the test reported: pending while in progress,
/// ready with the information on success, ready with the error otherwise.
pub fn poll_tag(status: i8, info: TagRecvInfo) -> (p: Poll<Result<TagRecvInfo, Error>>)
    ensures
        p == (if status == UCS_INPROGRESS {
            Poll::Pending
        } else if status == UCS_OK {
            Poll::Ready(Ok(info))
        } else {
            Poll::Ready(Err(error_of(status)))
        }),
{
    if status == UCS_INPROGRESS {
        Poll::Pending
    } else if status == UCS_OK {
        Poll::Ready(Ok(info))
    } else {
        Poll::Ready(Err(Error::from_error(status)))
    }
}

/// Every status pointer is exactly one of three things: null (the operation
/// completed successfully), a request pointer, or an error status; and a
/// null pointer stands for success.
pub proof fn lemma_status_ptr_trichotomy(ptr: usize)
    ensures
        ptr == 0 || spec_ptr_is_ptr(ptr) || spec_ptr_is_err(ptr),
        !(ptr == 0 && spec_ptr_is_err(ptr)),
        !(spec_ptr_is_ptr(ptr) && (ptr == 0 || spec_ptr_is_err(ptr))),
        ptr_result(0) == Ok::<(), Error>(()),
{
}

/// An error status encoded as a status pointer (its code read as an
/// address) is recognised as an error, decodes to the same code, and turns
/// into the error of that code.
pub proof fn lemma_error_ptr_roundtrip(status: i8)
    requires
        UCS_ERR_LAST <= status < UCS_OK,
    ensures
        spec_ptr_is_err((usize::MAX + 1 + status) as usize),
        !spec_ptr_is_ptr((usize::MAX + 1 + status) as usize),
        spec_ptr_raw_status((usize::MAX + 1 + status) as usize) == status,
        ptr_result((usize::MAX + 1 + status) as usize) == Err::<(), Error>(error_of(status)),
{
}

/// How a status pointer, read as an address, classifies: null completes
/// with the immediate value; an address among the top hundred holds the
/// error of the status it encodes; any other address is a scheduled request
/// at that address.
pub proof fn lemma_status_of_addresses<T>(ptr: usize, immediate: T)
    ensures
        ptr == 0 ==> status_of(ptr, immediate) == Status::Completed(Ok::<T, Error>(immediate)),
        0 < ptr < usize::MAX - 99 ==> status_of(ptr, immediate) == Status::<T>::Scheduled(ptr),
        ptr >= usize::MAX - 99 ==> status_of(ptr, immediate) == Status::<T>::Completed(
            Err(error_of((ptr - usize::MAX - 1) as i8)),
        ),
        ptr >= usize::MAX - 99 ==> -100 <= ptr - usize::MAX - 1 <= -1,
        ptr == 0 || ptr >= usize::MAX - 99 <==> !(status_of(ptr, immediate) is Scheduled),
        ptr < usize::MAX - 99 ==> ptr_result(ptr) == Ok::<(), Error>(()),
        ptr >= usize::MAX - 99 ==> ptr_result(ptr) == Err::<(), Error>(
            error_of((ptr - usize::MAX - 1) as i8),
        ),
{
}

/// Classifying a status pointer as a `Status` agrees with testing it
/// directly: it is scheduled exactly when it is a request pointer, and
/// otherwise it completed with the result that the pointer stands for.
pub proof fn lemma_status_agrees_with_ptr<T>(ptr: usize, immediate: T)
    ensures
        status_of(ptr, immediate) is Scheduled <==> spec_ptr_is_ptr(ptr),
        !spec_ptr_is_ptr(ptr) ==> status_of(ptr, immediate) == Status::Completed(
            match ptr_result(ptr) {
                Ok(()) => Ok(immediate),
                Err(e) => Err(e),
            },
        ),
{
}

} // verus!
