use wdk::wdf::{nt_success, Object};

#[test]
/// F<T> is covariant over T if T being a subtype of U implies that F<T> is
/// a subtype of F<U>
fn test_covariance<'short, 'long: 'short>() {
    let long: Object<&'long u8> = Object {
        _data: [],
        _marker: core::marker::PhantomData,
        inner: &0,
    };

    let short: Object<&'short u8> = long;

    // get size
    assert_eq!(core::mem::size_of_val(&short), core::mem::size_of::<&u8>());
}

#[test]
fn object_new_keeps_the_handle() {
    let object: Object<u32> = Object::new(7);
    assert_eq!(object.inner, 7);
}

#[test]
fn nt_success_accepts_non_negative_statuses() {
    assert!(nt_success(0));
    assert!(nt_success(0x103));
    assert!(!nt_success(-1));
    assert!(!nt_success(i32::MIN));
    assert!(nt_success(i32::MAX));
}
