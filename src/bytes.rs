//! A uniform read-only view of byte containers as a `u8` slice.
use vstd::prelude::*;
use vstd::string::StringSliceAdditionalSpecFns;
use vstd::utf8::encode_utf8;

verus! {

/// Converts to `&[u8]`.
pub trait AsBytesRef {
    /// The bytes that the value holds.
    spec fn bytes_view(&self) -> Seq<u8>;

    /// The held bytes as a slice.
    fn as_bytes_ref(&self) -> (r: &[u8])
        ensures
            r@ == self.bytes_view(),
    ;
}

impl<'a> AsBytesRef for &'a [u8] {
    open spec fn bytes_view(&self) -> Seq<u8> {
        (*self)@
    }

    fn as_bytes_ref(&self) -> (r: &[u8]) {
        *self
    }
}

impl<const N: usize> AsBytesRef for [u8; N] {
    open spec fn bytes_view(&self) -> Seq<u8> {
        self@
    }

    fn as_bytes_ref(&self) -> (r: &[u8]) {
        self.as_slice()
    }
}

impl AsBytesRef for Vec<u8> {
    open spec fn bytes_view(&self) -> Seq<u8> {
        self@
    }

    fn as_bytes_ref(&self) -> (r: &[u8]) {
        self.as_slice()
    }
}

impl<'a> AsBytesRef for &'a Vec<u8> {
    open spec fn bytes_view(&self) -> Seq<u8> {
        (*self)@
    }

    fn as_bytes_ref(&self) -> (r: &[u8]) {
        self.as_slice()
    }
}

impl AsBytesRef for Box<[u8]> {
    open spec fn bytes_view(&self) -> Seq<u8> {
        (**self)@
    }

    fn as_bytes_ref(&self) -> (r: &[u8]) {
        &**self
    }
}

impl AsBytesRef for String {
    open spec fn bytes_view(&self) -> Seq<u8> {
        encode_utf8(self@)
    }

    fn as_bytes_ref(&self) -> (r: &[u8]) {
        self.as_str().as_bytes()
    }
}

impl<'a> AsBytesRef for &'a str {
    open spec fn bytes_view(&self) -> Seq<u8> {
        (*self).spec_bytes()
    }

    fn as_bytes_ref(&self) -> (r: &[u8]) {
        (*self).as_bytes()
    }
}

/// Converts to `&mut [u8]`.
pub trait AsBytesMutRef: AsBytesRef {
    /// The held bytes as a mutable slice: writes through it change the
    /// value's bytes.
    fn as_bytes_mut_ref(&mut self) -> (r: &mut [u8])
        ensures
            r@ == old(self).bytes_view(),
            final(self).bytes_view() == final(r)@,
    ;
}

impl AsBytesMutRef for Vec<u8> {
    fn as_bytes_mut_ref(&mut self) -> (r: &mut [u8]) {
        self.as_mut_slice()
    }
}

} // verus!
