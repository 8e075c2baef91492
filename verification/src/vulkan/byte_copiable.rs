//! Values that are written to and read from device memory as their bytes.

use vstd::bytes::{
    lemma_auto_spec_u128_to_from_le_bytes, lemma_auto_spec_u16_to_from_le_bytes,
    lemma_auto_spec_u32_to_from_le_bytes, lemma_auto_spec_u64_to_from_le_bytes,
    spec_u128_from_le_bytes, spec_u128_to_le_bytes, spec_u16_from_le_bytes,
    spec_u16_to_le_bytes, spec_u32_from_le_bytes, spec_u32_to_le_bytes, spec_u64_from_le_bytes,
    spec_u64_to_le_bytes, u128_from_le_bytes, u128_to_le_bytes, u16_from_le_bytes,
    u16_to_le_bytes, u32_from_le_bytes, u32_to_le_bytes, u64_from_le_bytes, u64_to_le_bytes,
};
use vstd::prelude::*;

verus! {

/// A value of a fixed size that is copied to and from device memory byte by
/// byte. Its bytes are laid out as a little-endian machine holds them.
pub trait ByteCopiable: Sized {
    /// The number of bytes that a value of the type takes up.
    spec fn size() -> nat;

    /// The bytes of the value.
    spec fn bytes(&self) -> Seq<u8>;

    /// The bytes are those of a value of the type.
    spec fn represents(bytes: Seq<u8>) -> bool;

    /// A value has as many bytes as its type says, its bytes are those of a
    /// value of the type, and no other value has the same bytes.
    proof fn bytes_are_faithful(&self, other: &Self)
        ensures
            self.bytes().len() == Self::size(),
            Self::represents(self.bytes()),
            self.bytes() == other.bytes() ==> *self == *other,
    ;

    /// The bytes of the value.
    fn to_bytes(&self) -> (bytes: Vec<u8>)
        ensures
            bytes@ == self.bytes(),
    ;

    /// The value that has these bytes, if they are those of a value of the
    /// type.
    fn from_bytes(bytes: &[u8]) -> (value: Option<Self>)
        ensures
            value is Some == Self::represents(bytes@),
            value matches Some(read) ==> read.bytes() == bytes@,
    ;
}

/// What is read back from the bytes that a value was written as can always
/// be read, and is that value.
pub proof fn read_back_is_what_was_written<T: ByteCopiable>(written: T, read: T)
    requires
        read.bytes() == written.bytes(),
    ensures
        T::represents(written.bytes()),
        read == written,
{
    written.bytes_are_faithful(&read);
    read.bytes_are_faithful(&written);
}

impl ByteCopiable for u8 {
    open spec fn size() -> nat {
        1
    }

    open spec fn bytes(&self) -> Seq<u8> {
        seq![*self]
    }

    open spec fn represents(bytes: Seq<u8>) -> bool {
        bytes.len() == 1
    }

    proof fn bytes_are_faithful(&self, other: &Self) {
        if self.bytes() == other.bytes() {
            assert(self.bytes()[0] == other.bytes()[0]);
        }
    }

    fn to_bytes(&self) -> (bytes: Vec<u8>) {
        let mut bytes: Vec<u8> = Vec::new();
        bytes.push(*self);
        assert(bytes@ =~= seq![*self]);
        bytes
    }

    fn from_bytes(bytes: &[u8]) -> (value: Option<Self>) {
        if bytes.len() == 1 {
            assert(seq![bytes[0]] =~= bytes@);
            Some(bytes[0])
        } else {
            None
        }
    }
}

impl ByteCopiable for bool {
    open spec fn size() -> nat {
        1
    }

    open spec fn bytes(&self) -> Seq<u8> {
        seq![if *self { 1u8 } else { 0u8 }]
    }

    open spec fn represents(bytes: Seq<u8>) -> bool {
        bytes.len() == 1 && bytes[0] <= 1
    }

    proof fn bytes_are_faithful(&self, other: &Self) {
        if self.bytes() == other.bytes() {
            assert(self.bytes()[0] == other.bytes()[0]);
        }
    }

    fn to_bytes(&self) -> (bytes: Vec<u8>) {
        let mut bytes: Vec<u8> = Vec::new();
        bytes.push(if *self { 1 } else { 0 });
        assert(bytes@ =~= self.bytes());
        bytes
    }

    fn from_bytes(bytes: &[u8]) -> (value: Option<Self>) {
        if bytes.len() == 1 && bytes[0] <= 1 {
            let value = bytes[0] == 1;
            assert(value.bytes() =~= bytes@);
            Some(value)
        } else {
            None
        }
    }
}

impl ByteCopiable for u16 {
    open spec fn size() -> nat {
        2
    }

    open spec fn bytes(&self) -> Seq<u8> {
        spec_u16_to_le_bytes(*self)
    }

    open spec fn represents(bytes: Seq<u8>) -> bool {
        bytes.len() == 2
    }

    proof fn bytes_are_faithful(&self, other: &Self) {
        lemma_auto_spec_u16_to_from_le_bytes();
        if self.bytes() == other.bytes() {
            assert(spec_u16_from_le_bytes(self.bytes()) == spec_u16_from_le_bytes(other.bytes()));
        }
    }

    fn to_bytes(&self) -> (bytes: Vec<u8>) {
        u16_to_le_bytes(*self)
    }

    fn from_bytes(bytes: &[u8]) -> (value: Option<Self>) {
        if bytes.len() == 2 {
            proof {
                lemma_auto_spec_u16_to_from_le_bytes();
            }
            Some(u16_from_le_bytes(bytes))
        } else {
            None
        }
    }
}

impl ByteCopiable for u32 {
    open spec fn size() -> nat {
        4
    }

    open spec fn bytes(&self) -> Seq<u8> {
        spec_u32_to_le_bytes(*self)
    }

    open spec fn represents(bytes: Seq<u8>) -> bool {
        bytes.len() == 4
    }

    proof fn bytes_are_faithful(&self, other: &Self) {
        lemma_auto_spec_u32_to_from_le_bytes();
        if self.bytes() == other.bytes() {
            assert(spec_u32_from_le_bytes(self.bytes()) == spec_u32_from_le_bytes(other.bytes()));
        }
    }

    fn to_bytes(&self) -> (bytes: Vec<u8>) {
        u32_to_le_bytes(*self)
    }

    fn from_bytes(bytes: &[u8]) -> (value: Option<Self>) {
        if bytes.len() == 4 {
            proof {
                lemma_auto_spec_u32_to_from_le_bytes();
            }
            Some(u32_from_le_bytes(bytes))
        } else {
            None
        }
    }
}

impl ByteCopiable for u64 {
    open spec fn size() -> nat {
        8
    }

    open spec fn bytes(&self) -> Seq<u8> {
        spec_u64_to_le_bytes(*self)
    }

    open spec fn represents(bytes: Seq<u8>) -> bool {
        bytes.len() == 8
    }

    proof fn bytes_are_faithful(&self, other: &Self) {
        lemma_auto_spec_u64_to_from_le_bytes();
        if self.bytes() == other.bytes() {
            assert(spec_u64_from_le_bytes(self.bytes()) == spec_u64_from_le_bytes(other.bytes()));
        }
    }

    fn to_bytes(&self) -> (bytes: Vec<u8>) {
        u64_to_le_bytes(*self)
    }

    fn from_bytes(bytes: &[u8]) -> (value: Option<Self>) {
        if bytes.len() == 8 {
            proof {
                lemma_auto_spec_u64_to_from_le_bytes();
            }
            Some(u64_from_le_bytes(bytes))
        } else {
            None
        }
    }
}

impl ByteCopiable for u128 {
    open spec fn size() -> nat {
        16
    }

    open spec fn bytes(&self) -> Seq<u8> {
        spec_u128_to_le_bytes(*self)
    }

    open spec fn represents(bytes: Seq<u8>) -> bool {
        bytes.len() == 16
    }

    proof fn bytes_are_faithful(&self, other: &Self) {
        lemma_auto_spec_u128_to_from_le_bytes();
        if self.bytes() == other.bytes() {
            assert(spec_u128_from_le_bytes(self.bytes()) == spec_u128_from_le_bytes(
                other.bytes(),
            ));
        }
    }

    fn to_bytes(&self) -> (bytes: Vec<u8>) {
        u128_to_le_bytes(*self)
    }

    fn from_bytes(bytes: &[u8]) -> (value: Option<Self>) {
        if bytes.len() == 16 {
            proof {
                lemma_auto_spec_u128_to_from_le_bytes();
            }
            Some(u128_from_le_bytes(bytes))
        } else {
            None
        }
    }
}

impl ByteCopiable for i8 {
    open spec fn size() -> nat {
        1
    }

    open spec fn bytes(&self) -> Seq<u8> {
        (*self as u8).bytes()
    }

    open spec fn represents(bytes: Seq<u8>) -> bool {
        bytes.len() == 1
    }

    proof fn bytes_are_faithful(&self, other: &Self) {
        let a = *self;
        let b = *other;
        (a as u8).bytes_are_faithful(&(b as u8));
        assert((a as u8) as i8 == a) by (bit_vector);
        assert((b as u8) as i8 == b) by (bit_vector);
    }

    fn to_bytes(&self) -> (bytes: Vec<u8>) {
        (*self as u8).to_bytes()
    }

    fn from_bytes(bytes: &[u8]) -> (value: Option<Self>) {
        match u8::from_bytes(bytes) {
            Some(unsigned) => {
                assert((unsigned as i8) as u8 == unsigned) by (bit_vector);
                Some(unsigned as i8)
            },
            None => None,
        }
    }
}

impl ByteCopiable for i16 {
    open spec fn size() -> nat {
        2
    }

    open spec fn bytes(&self) -> Seq<u8> {
        (*self as u16).bytes()
    }

    open spec fn represents(bytes: Seq<u8>) -> bool {
        bytes.len() == 2
    }

    proof fn bytes_are_faithful(&self, other: &Self) {
        let a = *self;
        let b = *other;
        (a as u16).bytes_are_faithful(&(b as u16));
        assert((a as u16) as i16 == a) by (bit_vector);
        assert((b as u16) as i16 == b) by (bit_vector);
    }

    fn to_bytes(&self) -> (bytes: Vec<u8>) {
        (*self as u16).to_bytes()
    }

    fn from_bytes(bytes: &[u8]) -> (value: Option<Self>) {
        match u16::from_bytes(bytes) {
            Some(unsigned) => {
                assert((unsigned as i16) as u16 == unsigned) by (bit_vector);
                Some(unsigned as i16)
            },
            None => None,
        }
    }
}

impl ByteCopiable for i32 {
    open spec fn size() -> nat {
        4
    }

    open spec fn bytes(&self) -> Seq<u8> {
        (*self as u32).bytes()
    }

    open spec fn represents(bytes: Seq<u8>) -> bool {
        bytes.len() == 4
    }

    proof fn bytes_are_faithful(&self, other: &Self) {
        let a = *self;
        let b = *other;
        (a as u32).bytes_are_faithful(&(b as u32));
        assert((a as u32) as i32 == a) by (bit_vector);
        assert((b as u32) as i32 == b) by (bit_vector);
    }

    fn to_bytes(&self) -> (bytes: Vec<u8>) {
        (*self as u32).to_bytes()
    }

    fn from_bytes(bytes: &[u8]) -> (value: Option<Self>) {
        match u32::from_bytes(bytes) {
            Some(unsigned) => {
                assert((unsigned as i32) as u32 == unsigned) by (bit_vector);
                Some(unsigned as i32)
            },
            None => None,
        }
    }
}

impl ByteCopiable for i64 {
    open spec fn size() -> nat {
        8
    }

    open spec fn bytes(&self) -> Seq<u8> {
        (*self as u64).bytes()
    }

    open spec fn represents(bytes: Seq<u8>) -> bool {
        bytes.len() == 8
    }

    proof fn bytes_are_faithful(&self, other: &Self) {
        let a = *self;
        let b = *other;
        (a as u64).bytes_are_faithful(&(b as u64));
        assert((a as u64) as i64 == a) by (bit_vector);
        assert((b as u64) as i64 == b) by (bit_vector);
    }

    fn to_bytes(&self) -> (bytes: Vec<u8>) {
        (*self as u64).to_bytes()
    }

    fn from_bytes(bytes: &[u8]) -> (value: Option<Self>) {
        match u64::from_bytes(bytes) {
            Some(unsigned) => {
                assert((unsigned as i64) as u64 == unsigned) by (bit_vector);
                Some(unsigned as i64)
            },
            None => None,
        }
    }
}

impl ByteCopiable for i128 {
    open spec fn size() -> nat {
        16
    }

    open spec fn bytes(&self) -> Seq<u8> {
        (*self as u128).bytes()
    }

    open spec fn represents(bytes: Seq<u8>) -> bool {
        bytes.len() == 16
    }

    proof fn bytes_are_faithful(&self, other: &Self) {
        let a = *self;
        let b = *other;
        (a as u128).bytes_are_faithful(&(b as u128));
        assert((a as u128) as i128 == a) by (bit_vector);
        assert((b as u128) as i128 == b) by (bit_vector);
    }

    fn to_bytes(&self) -> (bytes: Vec<u8>) {
        (*self as u128).to_bytes()
    }

    fn from_bytes(bytes: &[u8]) -> (value: Option<Self>) {
        match u128::from_bytes(bytes) {
            Some(unsigned) => {
                assert((unsigned as i128) as u128 == unsigned) by (bit_vector);
                Some(unsigned as i128)
            },
            None => None,
        }
    }
}

} // verus!
