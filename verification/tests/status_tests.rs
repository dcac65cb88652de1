use async_ucx::status::{
    ptr_is_err, ptr_is_ptr, ptr_raw_status, UCS_ERR_BUSY, UCS_ERR_CONNECTION_RESET, UCS_ERR_LAST,
    UCS_INPROGRESS, UCS_OK,
};
use async_ucx::{poll_normal, poll_stream, poll_tag, Error, Poll, Status, TagRecvInfo};

fn err_ptr(status: i8) -> usize {
    (status as isize) as usize
}

#[test]
fn from_error_maps_every_named_status() {
    let table: Vec<(i8, Error)> = vec![
        (-1, Error::NoMessage),
        (-2, Error::NoResource),
        (-3, Error::IoError),
        (-4, Error::NoMemory),
        (-5, Error::InvalidParam),
        (-6, Error::Unreachable),
        (-7, Error::InvalidAddr),
        (-8, Error::NotImplemented),
        (-9, Error::MessageTruncated),
        (-10, Error::NoProgress),
        (-11, Error::BufferTooSmall),
        (-12, Error::NoElem),
        (-13, Error::SomeConnectsFailed),
        (-14, Error::NoDevice),
        (-15, Error::Busy),
        (-16, Error::Canceled),
        (-17, Error::ShmemSegment),
        (-18, Error::AlreadyExists),
        (-19, Error::OutOfRange),
        (-20, Error::Timeout),
        (-21, Error::ExceedsLimit),
        (-22, Error::Unsupported),
        (-23, Error::Rejected),
        (-24, Error::NotConnected),
        (-25, Error::ConnectionReset),
        (-40, Error::FirstLinkFailure),
        (-59, Error::LastLinkFailure),
        (-60, Error::FirstEndpointFailure),
        (-80, Error::EndpointTimeout),
        (-89, Error::LastEndpointFailure),
    ];
    for (code, err) in table {
        assert_eq!(Error::from_error(code), err);
    }
}

#[test]
fn from_error_unknown_statuses() {
    assert_eq!(Error::from_error(-26), Error::Unknown);
    assert_eq!(Error::from_error(-41), Error::Unknown);
    assert_eq!(Error::from_error(-100), Error::Unknown);
    assert_eq!(Error::from_error(UCS_INPROGRESS), Error::Unknown);
}

#[test]
fn from_status_ok_only_for_ucs_ok() {
    assert_eq!(Error::from_status(UCS_OK), Ok(()));
    assert_eq!(Error::from_status(UCS_ERR_BUSY), Err(Error::Busy));
    assert_eq!(Error::from_status(UCS_ERR_CONNECTION_RESET), Err(Error::ConnectionReset));
    assert_eq!(Error::from_status(UCS_INPROGRESS), Err(Error::Unknown));
}

#[test]
fn status_pointer_classification() {
    assert!(!ptr_is_ptr(0));
    assert!(!ptr_is_err(0));
    assert!(ptr_is_ptr(0x7f00_1234));
    assert!(!ptr_is_err(0x7f00_1234));
    assert!(ptr_is_err(usize::MAX));
    assert!(!ptr_is_ptr(usize::MAX));
    assert!(ptr_is_err(usize::MAX - 99));
    assert!(!ptr_is_err(usize::MAX - 100));
    assert!(ptr_is_ptr(usize::MAX - 100));
}

#[test]
fn error_pointer_round_trip() {
    for code in UCS_ERR_LAST..UCS_OK {
        let p = err_ptr(code);
        assert!(ptr_is_err(p));
        assert!(!ptr_is_ptr(p));
        assert_eq!(ptr_raw_status(p), code);
        assert_eq!(Error::from_ptr(p), Err(Error::from_error(code)));
    }
}

#[test]
fn from_ptr_results() {
    assert_eq!(Error::from_ptr(0), Ok(()));
    assert_eq!(Error::from_ptr(0x1000), Ok(()));
    assert_eq!(Error::from_ptr(err_ptr(-25)), Err(Error::ConnectionReset));
}

#[test]
fn status_from_pointer() {
    assert_eq!(Status::from(0, 42usize), Status::Completed(Ok(42)));
    assert_eq!(Status::from(0x5000, 42usize), Status::Scheduled(0x5000));
    assert_eq!(
        Status::from(err_ptr(-3), 42usize),
        Status::Completed(Err(Error::IoError))
    );
    assert_eq!(Status::from(0, ()), Status::Completed(Ok(())));
}

#[test]
fn poll_normal_outcomes() {
    assert_eq!(poll_normal(UCS_INPROGRESS), Poll::Pending);
    assert_eq!(poll_normal(UCS_OK), Poll::Ready(Ok(())));
    assert_eq!(poll_normal(-16), Poll::Ready(Err(Error::Canceled)));
}

#[test]
fn poll_stream_outcomes() {
    assert_eq!(poll_stream(UCS_INPROGRESS, 9), Poll::Pending);
    assert_eq!(poll_stream(UCS_OK, 9), Poll::Ready(Ok(9)));
    assert_eq!(poll_stream(-25, 9), Poll::Ready(Err(Error::ConnectionReset)));
}

#[test]
fn poll_tag_outcomes() {
    let info = TagRecvInfo { sender_tag: 3, length: 64 };
    assert_eq!(poll_tag(UCS_INPROGRESS, info), Poll::Pending);
    assert_eq!(poll_tag(UCS_OK, info), Poll::Ready(Ok(info)));
    assert_eq!(poll_tag(-9, info), Poll::Ready(Err(Error::MessageTruncated)));
}
