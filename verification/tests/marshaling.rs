use passthrough::marshal::{from_native, to_native};
use passthrough::NativePtr;

#[test]
fn absent_marshals_to_null() {
    let raw: NativePtr<u32> = to_native(None);
    assert!(raw.is_null());
}

#[test]
fn present_marshals_to_address_of_value() {
    let raw = to_native(Some(7u32));
    match raw {
        NativePtr::Addr(v) => assert_eq!(v, 7),
        NativePtr::Null => panic!("present argument marshaled to null"),
    }
}

#[test]
fn absent_round_trips() {
    let back: Option<u32> = from_native(to_native(None));
    assert_eq!(back, None);
}

#[test]
fn present_round_trips() {
    let back = from_native(to_native(Some(123u64)));
    assert_eq!(back, Some(123u64));
}

#[test]
fn null_round_trips_from_native_side() {
    let raw: NativePtr<i32> = NativePtr::Null;
    let raw_again = to_native(from_native(raw));
    assert!(raw_again.is_null());
}
