//! Conversions between payload values and the raw bytes a transport carries.

use vstd::prelude::*;

use vstd::slice::slice_to_vec;
use vstd::string::StringSliceAdditionalSpecFns;
use vstd::utf8::{decode_utf8, encode_utf8, valid_utf8};

verus! {

/// Rejected byte input: the bytes do not decode to a value of the requested
/// shape.
#[derive(Debug)]
pub enum ConvertError {
    InvalidUtf8,
}

/// Views a value as the bytes a transport would carry for it.
pub trait ToBytes {
    /// The bytes as a mathematical value.
    spec fn bytes_spec(&self) -> Seq<u8>;

    /// Converts the provided data to bytes.
    fn to_bytes(&self) -> (r: &[u8])
        ensures
            r@ == self.bytes_spec(),
    ;
}

impl ToBytes for [u8] {
    open spec fn bytes_spec(&self) -> Seq<u8> {
        self@
    }

    fn to_bytes(&self) -> (r: &[u8]) {
        self
    }
}

impl ToBytes for str {
    open spec fn bytes_spec(&self) -> Seq<u8> {
        self.spec_bytes()
    }

    fn to_bytes(&self) -> (r: &[u8]) {
        self.as_bytes()
    }
}

impl ToBytes for Vec<u8> {
    open spec fn bytes_spec(&self) -> Seq<u8> {
        self@
    }

    fn to_bytes(&self) -> (r: &[u8]) {
        self.as_slice()
    }
}

impl ToBytes for String {
    open spec fn bytes_spec(&self) -> Seq<u8> {
        encode_utf8(self@)
    }

    fn to_bytes(&self) -> (r: &[u8]) {
        self.as_str().as_bytes()
    }
}

impl<const N: usize> ToBytes for [u8; N] {
    open spec fn bytes_spec(&self) -> Seq<u8> {
        self@
    }

    fn to_bytes(&self) -> (r: &[u8]) {
        let r = vstd::array::array_as_slice(self);
        proof {
            vstd::array::axiom_spec_array_as_slice(self);
        }
        r
    }
}

impl ToBytes for () {
    open spec fn bytes_spec(&self) -> Seq<u8> {
        Seq::empty()
    }

    fn to_bytes(&self) -> (r: &[u8]) {
        let empty: &[u8; 0] = &[];
        let r = vstd::array::array_as_slice(empty);
        proof {
            vstd::array::axiom_spec_array_as_slice(empty);
            assert(r@ =~= Seq::<u8>::empty());
        }
        r
    }
}

impl<T: ToBytes + ?Sized> ToBytes for &T {
    open spec fn bytes_spec(&self) -> Seq<u8> {
        (*self).bytes_spec()
    }

    fn to_bytes(&self) -> (r: &[u8]) {
        (*self).to_bytes()
    }
}

/// Builds a value of the implementing shape back out of transport bytes.
pub trait FromBytes: Sized + View {
    /// Whether the bytes decode to a value of this shape.
    spec fn decode_ok(bytes: Seq<u8>) -> bool;

    /// The decoded value, as its mathematical view.
    spec fn decode_spec(bytes: Seq<u8>) -> Self::V;

    /// Tries to convert the provided byte slice into a value of this shape.
    fn from_bytes(bytes: &[u8]) -> (r: Result<Self, ConvertError>)
        ensures
            r is Ok <==> Self::decode_ok(bytes@),
            r matches Ok(v) ==> v@ == Self::decode_spec(bytes@),
    ;
}

/// Relies on `String::from_utf8`: it succeeds exactly on valid UTF-8 input
/// and returns the string those bytes encode.
#[verifier::external_body]
fn string_from_utf8(bytes: Vec<u8>) -> (r: Option<String>)
    ensures
        r is Some <==> valid_utf8(bytes@),
        r matches Some(s) ==> s@ == decode_utf8(bytes@),
{
    String::from_utf8(bytes).ok()
}

impl FromBytes for String {
    open spec fn decode_ok(bytes: Seq<u8>) -> bool {
        valid_utf8(bytes)
    }

    open spec fn decode_spec(bytes: Seq<u8>) -> Seq<char> {
        decode_utf8(bytes)
    }

    fn from_bytes(bytes: &[u8]) -> (r: Result<Self, ConvertError>) {
        match string_from_utf8(slice_to_vec(bytes)) {
            Some(s) => Ok(s),
            None => Err(ConvertError::InvalidUtf8),
        }
    }
}

} // verus!
