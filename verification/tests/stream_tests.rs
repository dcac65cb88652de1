use async_ucx::{fill_buffer, ReadOutcome};
use async_ucx::{
    Endpoint, Error, Poll, ReadEvent, ReadStep, RequestParam, Status, StreamCall, TagReadEvent,
    TagRecvInfo, TagSendCall, WriteEvent, WriteStep, Worker,
};

#[test]
fn write_completes_at_once() {
    let ep = Endpoint::new(1);
    let mut w = ep.write_stream();
    assert_eq!(w.pending_request(), None);
    assert_eq!(w.send_call(), Ok(StreamCall { handle: 1, param: RequestParam::new().cb_send() }));
    let step = w.poll_write(WriteEvent::Started(Ok(Status::Completed(Ok(())))), 5);
    assert_eq!(step, WriteStep::Done(Poll::Ready(Ok(5))));
    assert_eq!(w.pending_request(), None);
}

#[test]
fn write_scheduled_then_pending_then_ready() {
    let ep = Endpoint::new(1);
    let mut w = ep.write_stream();
    let step = w.poll_write(WriteEvent::Started(Ok(Status::Scheduled(0x900))), 128);
    assert_eq!(step, WriteStep::Again);
    assert_eq!(w.pending_request(), Some(0x900));
    let step = w.poll_write(WriteEvent::Polled(Poll::Pending), 128);
    assert_eq!(step, WriteStep::Done(Poll::Pending));
    assert_eq!(w.pending_request(), Some(0x900));
    let step = w.poll_write(WriteEvent::Polled(Poll::Ready(Ok(()))), 128);
    assert_eq!(step, WriteStep::Done(Poll::Ready(Ok(128))));
    assert_eq!(w.pending_request(), None);
}

#[test]
fn write_errors() {
    let mut ep = Endpoint::new(1);
    ep.mark_failed(Error::ConnectionReset);
    let mut w = ep.write_stream();
    let call = w.send_call();
    assert_eq!(call, Err(Error::ConnectionReset));
    let step = w.poll_write(WriteEvent::Started(Err(Error::ConnectionReset)), 3);
    assert_eq!(step, WriteStep::Done(Poll::Ready(Err(Error::ConnectionReset))));
    let step = w.poll_write(WriteEvent::Started(Ok(Status::Scheduled(8))), 3);
    assert_eq!(step, WriteStep::Again);
    let step = w.poll_write(WriteEvent::Polled(Poll::Ready(Err(Error::Timeout))), 3);
    assert_eq!(step, WriteStep::Done(Poll::Ready(Err(Error::Timeout))));
    assert_eq!(w.pending_request(), None);
}

#[test]
fn flush_and_shutdown() {
    let ep = Endpoint::new(1);
    let mut w = ep.write_stream();
    assert_eq!(w.poll_flush(None), Poll::Ready(Ok(())));
    w.poll_write(WriteEvent::Started(Ok(Status::Scheduled(8))), 3);
    assert_eq!(w.poll_flush(Some(Poll::Pending)), Poll::Pending);
    assert_eq!(w.pending_request(), Some(8));
    assert_eq!(w.poll_flush(Some(Poll::Ready(Err(Error::Canceled)))), Poll::Ready(Err(Error::Canceled)));
    assert_eq!(w.pending_request(), None);
    assert_eq!(w.poll_shutdown(), Poll::Ready(Ok(())));
}

#[test]
fn read_stream_steps() {
    let ep = Endpoint::new(2);
    let mut r = ep.read_stream();
    assert_eq!(r.recv_call(), Ok(StreamCall { handle: 2, param: RequestParam::new().cb_stream_recv() }));
    assert_eq!(
        r.poll_read(ReadEvent::Started(Ok(Status::Completed(Ok(17))))),
        ReadStep::Done(Poll::Ready(Ok(17)))
    );
    assert_eq!(r.poll_read(ReadEvent::Started(Ok(Status::Scheduled(0x40)))), ReadStep::WakeAndWait);
    assert_eq!(r.pending_request(), Some(0x40));
    assert_eq!(r.poll_read(ReadEvent::Polled(Poll::Pending)), ReadStep::Done(Poll::Pending));
    assert_eq!(r.pending_request(), Some(0x40));
    assert_eq!(r.poll_read(ReadEvent::Polled(Poll::Ready(Ok(4)))), ReadStep::Done(Poll::Ready(Ok(4))));
    assert_eq!(r.pending_request(), None);
    assert_eq!(
        r.poll_read(ReadEvent::Started(Err(Error::NotConnected))),
        ReadStep::Done(Poll::Ready(Err(Error::NotConnected)))
    );
}

#[test]
fn tag_write_stream_steps() {
    let ep = Endpoint::new(3);
    let mut w = ep.tag_write_stream(6);
    assert_eq!(
        w.send_call(),
        Ok(TagSendCall { handle: 3, tag: 6, param: RequestParam::new().cb_send() })
    );
    assert_eq!(w.poll_write(WriteEvent::Started(Ok(Status::Scheduled(0x70))), 1024), WriteStep::Again);
    assert_eq!(
        w.poll_write(WriteEvent::Polled(Poll::Ready(Ok(()))), 1024),
        WriteStep::Done(Poll::Ready(Ok(1024)))
    );
    assert_eq!(w.poll_flush(), Poll::Ready(Ok(())));
    assert_eq!(w.poll_shutdown(), Poll::Ready(Ok(())));
}

#[test]
fn tag_read_stream_steps() {
    let worker = Worker { handle: 9 };
    let mut r = worker.tag_read_stream(4);
    let c = r.recv_call();
    assert_eq!(c.tag, 4);
    assert_eq!(c.tag_mask, u64::MAX);
    assert_eq!(c.handle, 9);
    let info = TagRecvInfo { sender_tag: 4, length: 128 };
    assert_eq!(
        r.poll_read(TagReadEvent::Started(Ok(Status::Completed(Ok(info))))),
        ReadStep::Done(Poll::Ready(Ok(128)))
    );
    assert_eq!(r.poll_read(TagReadEvent::Started(Ok(Status::Scheduled(0x33)))), ReadStep::WakeAndWait);
    assert_eq!(
        r.poll_read(TagReadEvent::Polled(Poll::Ready(Err(Error::MessageTruncated)))),
        ReadStep::Done(Poll::Ready(Err(Error::MessageTruncated)))
    );
    let masked = worker.tag_read_stream_mask(4, 0xff);
    assert_eq!(masked.recv_call().tag_mask, 0xff);
}

#[test]
fn fill_buffer_outcomes() {
    assert_eq!(
        fill_buffer(10, 20, ReadStep::Done(Poll::Ready(Ok(7)))),
        (17, ReadOutcome::Ready(Ok(())))
    );
    assert_eq!(
        fill_buffer(10, 20, ReadStep::Done(Poll::Ready(Ok(20)))),
        (30, ReadOutcome::Ready(Ok(())))
    );
    assert_eq!(
        fill_buffer(10, 20, ReadStep::Done(Poll::Ready(Err(Error::Canceled)))),
        (10, ReadOutcome::Ready(Err(Error::Canceled)))
    );
    assert_eq!(fill_buffer(10, 20, ReadStep::Done(Poll::Pending)), (10, ReadOutcome::Pending));
    assert_eq!(fill_buffer(0, 20, ReadStep::WakeAndWait), (0, ReadOutcome::WakeAndWait));
}
