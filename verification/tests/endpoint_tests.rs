use async_ucx::{iov_total_len, send_result, Endpoint, Error, RequestParam, StreamCall, TagSendCall};

#[test]
fn calls_on_a_healthy_endpoint() {
    let ep = Endpoint::new(0xabc0);
    assert_eq!(ep.get_handle(), Ok(0xabc0));
    assert_eq!(
        ep.stream_send_call(),
        Ok(StreamCall { handle: 0xabc0, param: RequestParam::new().cb_send() })
    );
    assert_eq!(
        ep.stream_recv_call(),
        Ok(StreamCall { handle: 0xabc0, param: RequestParam::new().cb_stream_recv() })
    );
    assert_eq!(
        ep.tag_send_call(7),
        Ok(TagSendCall { handle: 0xabc0, tag: 7, param: RequestParam::new().cb_send() })
    );
    assert_eq!(
        ep.tag_send_vectored_call(7),
        Ok(TagSendCall { handle: 0xabc0, tag: 7, param: RequestParam::new().cb_send().iov() })
    );
}

#[test]
fn calls_on_a_failed_endpoint() {
    let mut ep = Endpoint::new(0xabc0);
    ep.mark_failed(Error::ConnectionReset);
    assert_eq!(ep.handle, 0xabc0);
    assert_eq!(ep.get_handle(), Err(Error::ConnectionReset));
    assert_eq!(ep.stream_send_call(), Err(Error::ConnectionReset));
    assert_eq!(ep.stream_recv_call(), Err(Error::ConnectionReset));
    assert_eq!(ep.tag_send_call(1), Err(Error::ConnectionReset));
    assert_eq!(ep.tag_send_vectored_call(1), Err(Error::ConnectionReset));
}

#[test]
fn send_reports_whole_length() {
    assert_eq!(send_result(Ok(()), 4096), Ok(4096));
    assert_eq!(send_result(Ok(()), 0), Ok(0));
    assert_eq!(send_result(Err(Error::Canceled), 4096), Err(Error::Canceled));
}

#[test]
fn vectored_total_length() {
    assert_eq!(iov_total_len(&[]), 0);
    assert_eq!(iov_total_len(&[5]), 5);
    assert_eq!(iov_total_len(&[1, 2, 3, 4]), 10);
    assert_eq!(iov_total_len(&[0, 128, 0, 1024]), 1152);
}
