use openpit_ffi::string::{openpit_shared_string_view, BytePtr, OpenPitSharedString, OpenPitStringView};
use openpit_ffi::text::import_string;

fn string_view_to_string(view: OpenPitStringView) -> String {
    match view.ptr.bytes() {
        None => String::new(),
        Some(bytes) => std::str::from_utf8(&bytes[..view.len])
            .expect("utf8")
            .to_string(),
    }
}

#[test]
fn openpit_string_view_helpers_are_stable() {
    let not_set = OpenPitStringView::not_set();
    assert!(not_set.ptr.is_null());
    assert_eq!(not_set.len, 0);

    let value = "openpit";
    let view = OpenPitStringView::from_utf8(value);
    assert!(!view.ptr.is_null());
    assert_eq!(view.len, value.len());
}

#[test]
fn string_view_to_string_handles_null_pointer() {
    assert_eq!(string_view_to_string(OpenPitStringView::not_set()), "");
}

#[test]
fn new_handle_roundtrips_bytes() {
    let handle = OpenPitSharedString::new_handle("hello");
    assert_eq!(string_view_to_string(handle.string_view()), "hello");
    assert_eq!(handle.as_str(), "hello");
}

#[test]
fn null_inputs_are_safe() {
    let view = OpenPitStringView::not_set();
    assert!(view.ptr.is_null());
    assert_eq!(view.len, 0);
    assert_eq!(import_string(view), "");
}

#[test]
fn independent_handles_can_be_dropped_in_any_order() {
    let shared = std::sync::Arc::new("shared".to_owned());
    let a = OpenPitSharedString::from_arc(shared.clone());
    let b = OpenPitSharedString::from_arc(shared);
    assert_eq!(string_view_to_string(a.string_view()), "shared");
    drop(a);
    assert_eq!(string_view_to_string(b.string_view()), "shared");
    drop(b);
}

#[test]
fn view_of_empty_text_is_set_with_zero_length() {
    let view = OpenPitStringView::from_utf8("");
    assert!(!view.ptr.is_null());
    assert_eq!(view.len, 0);
}

#[test]
fn import_string_reads_only_the_designated_bytes() {
    let bytes = b"abcdef";
    let view = OpenPitStringView {
        ptr: BytePtr::to(bytes),
        len: 3,
    };
    assert_eq!(import_string(view), "abc");
}

#[test]
fn import_string_replaces_invalid_utf8() {
    let bytes = [b'a', 0xff, b'b'];
    let view = OpenPitStringView {
        ptr: BytePtr::to(&bytes),
        len: bytes.len(),
    };
    assert_eq!(import_string(view), "a\u{FFFD}b");
}

#[test]
fn shared_string_view_of_no_handle_is_unset() {
    let view = openpit_shared_string_view(None);
    assert!(view.ptr.is_null());
    assert_eq!(view.len, 0);
    let handle = OpenPitSharedString::new_handle("hello");
    assert_eq!(string_view_to_string(openpit_shared_string_view(Some(&handle))), "hello");
}
