use async_ucx::param::{
    UCP_AM_SEND_FLAG_EAGER, UCP_AM_SEND_FLAG_REPLY, UCP_AM_SEND_FLAG_RNDV,
    UCP_OP_ATTR_FIELD_CALLBACK, UCP_OP_ATTR_FIELD_DATATYPE, UCP_OP_ATTR_FIELD_FLAGS,
    UCP_OP_ATTR_FIELD_RECV_INFO, UCP_DATATYPE_IOV,
};
use async_ucx::{RequestCallback, RequestParam};

#[test]
fn new_param_is_zero() {
    let p = RequestParam::new();
    assert_eq!(p.op_attr_mask, 0);
    assert_eq!(p.flags, 0);
    assert_eq!(p.datatype, 0);
    assert_eq!(p.callback, None);
    assert!(!p.recv_tag_info);
}

#[test]
fn send_vectored_param() {
    let p = RequestParam::new().cb_send().iov();
    assert_eq!(p.op_attr_mask, 10);
    assert_eq!(p.datatype, UCP_DATATYPE_IOV);
    assert_eq!(p.callback, Some(RequestCallback::Send));
    assert!(!p.recv_tag_info);
}

#[test]
fn tag_recv_param() {
    let p = RequestParam::new().cb_tag_recv().recv_tag_info();
    assert_eq!(p.op_attr_mask, UCP_OP_ATTR_FIELD_CALLBACK | UCP_OP_ATTR_FIELD_RECV_INFO);
    assert_eq!(p.op_attr_mask, 130);
    assert_eq!(p.callback, Some(RequestCallback::TagRecv));
    assert!(p.recv_tag_info);
    assert_eq!(p.datatype, 0);
}

#[test]
fn stream_recv_and_am_callbacks() {
    assert_eq!(RequestParam::new().cb_stream_recv().callback, Some(RequestCallback::StreamRecv));
    assert_eq!(RequestParam::new().cb_recv_am().callback, Some(RequestCallback::RecvAm));
    assert_eq!(RequestParam::new().cb_recv_am().op_attr_mask, UCP_OP_ATTR_FIELD_CALLBACK);
}

#[test]
fn callback_last_wins() {
    let a = RequestParam::new().cb_send().cb_tag_recv();
    let b = RequestParam::new().cb_tag_recv();
    assert_eq!(a, b);
}

#[test]
fn selection_idempotent_and_commuting() {
    let p = RequestParam::new().cb_send();
    assert_eq!(p.iov().iov(), p.iov());
    assert_eq!(p.recv_tag_info().recv_tag_info(), p.recv_tag_info());
    assert_eq!(RequestParam::new().cb_send().iov(), RequestParam::new().iov().cb_send());
}

#[test]
fn am_flags_accumulate() {
    let p = RequestParam::new().set_flag_eager().set_flag_reply();
    assert_eq!(p.op_attr_mask, UCP_OP_ATTR_FIELD_FLAGS);
    assert_eq!(p.flags, UCP_AM_SEND_FLAG_EAGER | UCP_AM_SEND_FLAG_REPLY);
    assert_eq!(p.flags, 3);
    let q = RequestParam::new().set_flag_reply().set_flag_eager();
    assert_eq!(p, q);
    let r = RequestParam::new().set_flag_rndv();
    assert_eq!(r.flags, UCP_AM_SEND_FLAG_RNDV);
    assert_eq!(r.flags, 4);
}

#[test]
fn steps_keep_earlier_selection() {
    let p = RequestParam::new().cb_send().iov().set_flag_eager().recv_tag_info();
    let all = UCP_OP_ATTR_FIELD_CALLBACK
        | UCP_OP_ATTR_FIELD_DATATYPE
        | UCP_OP_ATTR_FIELD_FLAGS
        | UCP_OP_ATTR_FIELD_RECV_INFO;
    assert_eq!(p.op_attr_mask, all);
    assert_eq!(p.op_attr_mask, 154);
}
