use async_ucx::WorkerAddress;
use bytes::Bytes;

#[test]
fn worker_address_from_vec_and_bytes() {
    let raw: Vec<u8> = vec![1, 2, 3, 4, 5];
    let a = WorkerAddress::from(raw.clone());
    assert_eq!(a.as_ref(), &raw[..]);
    let b = WorkerAddress::from_bytes(Bytes::from(raw.clone()));
    assert_eq!(b.as_ref(), &raw[..]);
    let c = WorkerAddress::from(Bytes::from(raw.clone()));
    assert_eq!(c.as_bytes().as_ref(), &raw[..]);
}

#[test]
fn worker_address_clone_keeps_bytes() {
    let a = WorkerAddress::from_slice(b"worker-address");
    let b = a.clone();
    assert_eq!(a.as_ref(), b.as_ref());
    assert_eq!(b.as_ref(), b"worker-address");
    let again = WorkerAddress::from_bytes(a.as_bytes().clone());
    assert_eq!(again.as_ref(), a.as_ref());
    let v = a.as_bytes().to_vec();
    assert_eq!(WorkerAddress::from(v).as_ref(), a.as_ref());
}

#[test]
fn worker_address_empty() {
    let a = WorkerAddress::from(Vec::new());
    assert_eq!(a.as_ref().len(), 0);
}

#[test]
fn worker_address_from_bytes_keeps_buffer() {
    let b = Bytes::from(vec![9u8, 8, 7]);
    let ptr = b.as_ptr();
    let a = WorkerAddress::from_bytes(b);
    assert_eq!(a.as_bytes().as_ptr(), ptr);
    assert_eq!(a.as_bytes().as_ref(), &[9u8, 8, 7][..]);
    let back = WorkerAddress::from_bytes(a.as_bytes().clone());
    assert_eq!(back.as_bytes(), a.as_bytes());
}

#[test]
fn worker_address_round_trips_through_clones() {
    let v: Vec<u8> = vec![4, 5, 6];
    assert_eq!(WorkerAddress::from(v.clone()).as_ref(), &v[..]);
    let b = Bytes::from(v.clone());
    assert_eq!(WorkerAddress::from(b.clone()).as_bytes(), &b);
    assert_eq!(WorkerAddress::from_bytes(b.clone()).as_bytes(), &b);
    let a = WorkerAddress::from_bytes(b);
    assert_eq!(WorkerAddress::from_bytes(a.as_bytes().clone()).as_bytes(), a.as_bytes());
    assert_eq!(WorkerAddress::from(a.as_bytes().to_vec()).as_ref(), a.as_ref());
}
