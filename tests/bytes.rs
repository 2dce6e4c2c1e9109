use lazyext::bytes::{AsBytesMutRef, AsBytesRef};

#[test]
fn views_of_byte_containers() {
    let s = String::from("Hello, LazyExt!");
    assert_eq!(s.as_bytes_ref(), b"Hello, LazyExt!");
    let st: &str = "Hello";
    assert_eq!(st.as_bytes_ref(), b"Hello");
    let v: Vec<u8> = vec![1, 2, 3];
    assert_eq!(v.as_bytes_ref(), &[1u8, 2, 3][..]);
    assert_eq!((&v).as_bytes_ref(), &[1u8, 2, 3][..]);
    let a: [u8; 2] = [9, 8];
    assert_eq!(a.as_bytes_ref(), &[9u8, 8][..]);
    let b: Box<[u8]> = vec![4u8, 5].into_boxed_slice();
    assert_eq!(b.as_bytes_ref(), &[4u8, 5][..]);
    let sl: &[u8] = &[7, 7];
    assert_eq!(sl.as_bytes_ref(), &[7u8, 7][..]);
}

#[test]
fn mutable_view_writes_through() {
    let mut v: Vec<u8> = vec![1, 2, 3];
    v.as_bytes_mut_ref()[1] = 20;
    assert_eq!(v, vec![1, 20, 3]);
}
