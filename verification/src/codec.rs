//! The stored form of conversation keys and settings: `bincode` with its default configuration,
//! in which integers have a fixed width and are little-endian, a byte slice is preceded by its
//! length, and tuples and arrays are the encodings of their parts in order.
use vstd::prelude::*;

verus! {

/// The `width` low bytes of `n`, least significant first.
pub open spec fn le_bytes(n: nat, width: nat) -> Seq<u8>
    decreases width,
{
    if width == 0 {
        Seq::empty()
    } else {
        seq![(n % 256) as u8] + le_bytes(n / 256, (width - 1) as nat)
    }
}

/// The number that the bytes of `s` write, least significant first.
pub open spec fn le_value(s: Seq<u8>) -> nat
    decreases s.len(),
{
    if s.len() == 0 {
        0
    } else {
        s[0] as nat + 256 * le_value(s.skip(1))
    }
}

/// `256` to the power of `width`: how many numbers `width` bytes can write.
pub open spec fn byte_span(width: nat) -> nat
    decreases width,
{
    if width == 0 {
        1
    } else {
        256 * byte_span((width - 1) as nat)
    }
}

/// A number that fits in `width` bytes is read back from the bytes that write it.
pub proof fn lemma_le_round_trip(n: nat, width: nat)
    requires
        n < byte_span(width),
    ensures
        le_bytes(n, width).len() == width,
        le_value(le_bytes(n, width)) == n,
    decreases width,
{
    if width > 0 {
        let rest = le_bytes(n / 256, (width - 1) as nat);
        lemma_le_round_trip(n / 256, (width - 1) as nat);
        assert(le_bytes(n, width).skip(1) =~= rest);
    }
}

/// The encoding of a byte slice that follows a tag.
pub open spec fn tagged_slice(tag: u32, bytes: Seq<u8>) -> Seq<u8> {
    le_bytes(tag as nat, 4) + le_bytes(bytes.len(), 8) + bytes
}

/// The encoding of an array of bytes that follows a tag.
pub open spec fn tagged_array(tag: u32, bytes: Seq<u8>) -> Seq<u8> {
    le_bytes(tag as nat, 4) + bytes
}

/// The encoding of a flag and a number.
pub open spec fn flag_and_number(flag: bool, number: u32) -> Seq<u8> {
    seq![if flag { 1u8 } else { 0u8 }] + le_bytes(number as nat, 4)
}

/// What a flag and a number decode to: the first byte has to be one or zero, four more bytes
/// have to follow it, and what comes after those is left unread.
pub open spec fn read_flag_and_number(bytes: Seq<u8>) -> Option<(bool, u32)> {
    if bytes.len() >= 5 && bytes[0] <= 1 {
        Some((bytes[0] == 1, le_value(bytes.subrange(1, 5)) as u32))
    } else {
        None
    }
}

/// The error of `bincode`.
#[verifier::external_type_specification]
#[verifier::external_body]
pub struct ExErrorKind(bincode::ErrorKind);

/// `bincode::serialize` on a tag and a byte slice. It succeeds, for neither part has a form that
/// cannot be written and nothing limits the size: the bytes are the tag in four bytes, the
/// slice's length in eight, then the slice.
#[verifier::external_body]
pub(crate) fn serialize_tagged_slice(tag: u32, bytes: &[u8]) -> (encoded: Result<
    Vec<u8>,
    Box<bincode::ErrorKind>,
>)
    ensures
        encoded is Ok,
        encoded->Ok_0@ == tagged_slice(tag, bytes@),
{
    bincode::serialize(&(tag, bytes))
}

/// `bincode::serialize` on a tag and an array of 32 bytes. It succeeds: the bytes are the tag in
/// four bytes, then the array, whose length is not written.
#[verifier::external_body]
pub(crate) fn serialize_tagged_array(tag: u32, bytes: &[u8; 32]) -> (encoded: Result<
    Vec<u8>,
    Box<bincode::ErrorKind>,
>)
    ensures
        encoded is Ok,
        encoded->Ok_0@ == tagged_array(tag, bytes@),
{
    bincode::serialize(&(tag, bytes))
}

/// `bincode::serialize` on a flag and a number. It succeeds: the bytes are one for the flag and
/// four for the number.
#[verifier::external_body]
pub(crate) fn serialize_flag_and_number(flag: bool, number: u32) -> (encoded: Result<
    Vec<u8>,
    Box<bincode::ErrorKind>,
>)
    ensures
        encoded is Ok,
        encoded->Ok_0@ == flag_and_number(flag, number),
{
    bincode::serialize(&(flag, number))
}

/// `bincode::deserialize` to a flag and a number. It fails where the bytes run out or the first
/// is neither one nor zero; bytes after the fifth are not looked at.
#[verifier::external_body]
pub(crate) fn deserialize_flag_and_number(bytes: &[u8]) -> (decoded: Result<
    (bool, u32),
    Box<bincode::ErrorKind>,
>)
    ensures
        match read_flag_and_number(bytes@) {
            Some(value) => decoded == Ok::<(bool, u32), Box<bincode::ErrorKind>>(value),
            None => decoded is Err,
        },
{
    bincode::deserialize(bytes)
}

/// The bytes of a number are its digits to the base of two hundred and fifty-six, the lowest first.
pub proof fn law_bytes_are_digits(n: nat, width: nat, i: nat)
    requires
        i < width,
    ensures
        le_bytes(n, width).len() == width,
        le_bytes(n, width)[0] == n % 256,
        i > 0 ==> le_bytes(n, width)[i as int] == le_bytes(n / 256, (width - 1) as nat)[i - 1],
    decreases width,
{
    if width > 1 {
        law_bytes_are_digits(n / 256, (width - 1) as nat, 0);
    } else {
        assert(le_bytes(n / 256, 0).len() == 0);
    }
}

} // verus!
