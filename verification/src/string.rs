//! Borrowed UTF-8 string views and owning shared strings.

use std::sync::Arc;
use vstd::prelude::*;
use vstd::string::StringSliceAdditionalSpecFns;

verus! {

/// Position of a borrowed byte buffer: either null or the first byte of a
/// readable buffer.
#[derive(Clone, Copy, Debug, PartialEq, Eq, Default)]
pub struct BytePtr<'a> {
    target: Option<&'a [u8]>,
}

impl<'a> BytePtr<'a> {
    /// The bytes reachable from this position, or `None` for null.
    pub closed spec fn target(&self) -> Option<Seq<u8>> {
        match self.target {
            Some(bytes) => Some(bytes@),
            None => None,
        }
    }

    /// The null position.
    pub fn null() -> (res: Self)
        ensures
            res.target() is None,
    {
        BytePtr { target: None }
    }

    /// Position of the first byte of `bytes`.
    pub fn to(bytes: &'a [u8]) -> (res: Self)
        ensures
            res.target() == Some(bytes@),
    {
        BytePtr { target: Some(bytes) }
    }

    /// Whether this position is null.
    pub fn is_null(&self) -> (res: bool)
        ensures
            res == (self.target() is None),
    {
        self.target.is_none()
    }

    /// The bytes reachable from this position (`None` for null).
    pub fn bytes(&self) -> (res: Option<&'a [u8]>)
        ensures
            match res {
                Some(b) => self.target() == Some(b@),
                None => self.target() is None,
            },
    {
        self.target
    }
}

/// Non-owning UTF-8 string view.
///
/// `ptr` points to `len` readable bytes that the view borrows from another
/// object; a null `ptr` means "not set".
#[derive(Clone, Copy, Debug, PartialEq, Eq, Default)]
pub struct OpenPitStringView<'a> {
    /// Position of the first UTF-8 byte.
    pub ptr: BytePtr<'a>,
    /// Number of bytes at `ptr`.
    pub len: usize,
}

impl<'a> OpenPitStringView<'a> {
    /// A view is readable when its pointer is null or reaches at least `len`
    /// bytes.
    pub open spec fn readable(&self) -> bool {
        match self.ptr.target() {
            Some(bytes) => self.len <= bytes.len(),
            None => true,
        }
    }

    /// The `len` bytes the view designates (empty for a null view).
    pub open spec fn spec_bytes(&self) -> Seq<u8> {
        match self.ptr.target() {
            Some(bytes) => bytes.subrange(0, self.len as int),
            None => Seq::empty(),
        }
    }

    /// The unset view: null pointer and zero length.
    pub fn not_set() -> (res: Self)
        ensures
            res.ptr.target() is None,
            res.len == 0,
    {
        OpenPitStringView { ptr: BytePtr::null(), len: 0 }
    }

    /// A view of the UTF-8 bytes of `value`.
    pub fn from_utf8(value: &'a str) -> (res: Self)
        ensures
            res.ptr.target() == Some(value.spec_bytes()),
            res.len == value.spec_bytes().len(),
            res.readable(),
            res.spec_bytes() == value.spec_bytes(),
    {
        let bytes = value.as_bytes();
        let res = OpenPitStringView { ptr: BytePtr::to(bytes), len: bytes.len() };
        assert(res.spec_bytes() =~= value.spec_bytes());
        res
    }
}

/// Owning shared-string handle: holds a reference-counted copy of a string,
/// so several handles may share one value and be released independently.
pub struct OpenPitSharedString {
    inner: Arc<String>,
}

impl OpenPitSharedString {
    /// The characters held by the handle.
    pub closed spec fn spec_value(&self) -> Seq<char> {
        self.inner@
    }

    /// Builds a new handle that holds a fresh shared copy of `value`.
    pub fn new_handle(value: &str) -> (res: Box<Self>)
        ensures
            res.spec_value() == value@,
    {
        Self::from_arc(Arc::new(value.to_owned()))
    }

    /// Builds a new handle around an existing shared string without copying
    /// the bytes.
    pub fn from_arc(inner: Arc<String>) -> (res: Box<Self>)
        ensures
            res.spec_value() == inner@,
    {
        Box::new(OpenPitSharedString { inner })
    }

    /// The string held by the handle.
    pub fn as_str(&self) -> (res: &str)
        ensures
            res@ == self.spec_value(),
    {
        self.inner.as_str()
    }

    /// A read-only view of the bytes held by the handle, valid while the
    /// handle is alive.
    pub fn string_view(&self) -> (res: OpenPitStringView<'_>)
        ensures
            res.readable(),
            res.ptr.target() is Some,
            res.spec_bytes() == vstd::utf8::encode_utf8(self.spec_value()),
    {
        OpenPitStringView::from_utf8(self.inner.as_str())
    }
}

/// A view of the bytes a shared-string handle holds; the unset view for no
/// handle.
pub fn openpit_shared_string_view(handle: Option<&OpenPitSharedString>) -> (res: OpenPitStringView<'_>)
    ensures
        res.readable(),
        match handle {
            None => res.ptr.target() is None && res.len == 0,
            Some(h) => res.ptr.target() is Some && res.spec_bytes() == vstd::utf8::encode_utf8(
                h.spec_value(),
            ),
        },
{
    match handle {
        None => OpenPitStringView::not_set(),
        Some(h) => h.string_view(),
    }
}

} // verus!
