//! The name field of a user record: 32 bytes that hold a name of at most 31
//! bytes followed by zeros.

use vstd::prelude::*;
use vstd::slice::slice_subrange;
use vstd::string::StringSliceAdditionalSpecFns;
use vstd::utf8::{decode_utf8, encode_utf8, length_of_first_scalar, pop_first_scalar, valid_utf8};
use vstd::utf8::{decode_utf8_encode_utf8, encode_utf8_decode_utf8, encode_utf8_valid_utf8};

verus! {

/// Longest name, in bytes, that the field holds whole. The byte after it is
/// the terminator.
pub const MAX_NAME_BYTES: usize = 31;

/// The field that stores a name whose encoding is `bytes`: the first 31 bytes
/// at most, and zero in every place after them.
pub open spec fn name_field(bytes: Seq<u8>) -> Seq<u8> {
    Seq::new(32, |i: int| if i < bytes.len() && i < 31 { bytes[i] } else { 0u8 })
}

/// Number of bytes of `field` that come before its first zero byte; the whole
/// length when it holds none.
pub open spec fn terminated_len(field: Seq<u8>) -> int
    decreases field.len(),
{
    if field.len() == 0 || field[0] == 0 {
        0
    } else {
        1 + terminated_len(field.drop_first())
    }
}

/// The bytes of the name that `field` stores: those before its first zero
/// byte.
pub open spec fn name_bytes(field: Seq<u8>) -> Seq<u8> {
    field.take(terminated_len(field))
}

/// The text that `String::from_utf8_lossy` makes of `bytes`.
pub uninterp spec fn utf8_lossy(bytes: Seq<u8>) -> Seq<char>;

/// `String::from_utf8_lossy`: the text is a function of the bytes alone, and
/// bytes that are valid UTF-8 come back as the text they encode. What becomes
/// of invalid sequences is left to the name `utf8_lossy`.
#[verifier::external_body]
fn decode_lossy(bytes: &[u8]) -> (text: String)
    ensures
        text@ == utf8_lossy(bytes@),
        valid_utf8(bytes@) ==> text@ == decode_utf8(bytes@),
{
    String::from_utf8_lossy(bytes).into_owned()
}

/// `n` is the place of the first zero byte of `field`, or its length when it
/// holds none.
pub open spec fn ends_at(field: Seq<u8>, n: int) -> bool {
    &&& 0 <= n <= field.len()
    &&& forall|j: int| 0 <= j < n ==> field[j] != 0
    &&& n < field.len() ==> field[n] == 0
}

/// The place of the first zero byte is the terminated length.
pub proof fn lemma_terminated_len(field: Seq<u8>, n: int)
    requires
        ends_at(field, n),
    ensures
        terminated_len(field) == n,
    decreases n,
{
    if n > 0 {
        let rest = field.drop_first();
        assert forall|j: int| 0 <= j < n - 1 implies rest[j] != 0 by {
            assert(rest[j] == field[j + 1]);
        }
        lemma_terminated_len(rest, n - 1);
    }
}

/// Reads the name out of a name field: the bytes before the first zero byte,
/// decoded as UTF-8, with each invalid sequence replaced as
/// `String::from_utf8_lossy` does. Where the bytes are valid UTF-8 the text
/// is made of exactly those bytes, so it is as long in bytes as the name in
/// the field and no longer in characters.
pub fn safe_str_from_user_name(name: &[u8; 32]) -> (text: String)
    ensures
        text@ == utf8_lossy(name_bytes(name@)),
        valid_utf8(name_bytes(name@)) ==> {
            &&& text@ == decode_utf8(name_bytes(name@))
            &&& encode_utf8(text@) == name_bytes(name@)
            &&& encode_utf8(text@).len() <= 32
            &&& text@.len() <= 32
        },
{
    let mut len: usize = 0;
    while len < 32 && name[len] != 0
        invariant
            len <= 32,
            forall|j: int| 0 <= j < len ==> name@[j] != 0,
        decreases 32 - len,
    {
        len += 1;
    }
    proof {
        lemma_terminated_len(name@, len as int);
        if valid_utf8(name_bytes(name@)) {
            decoded_is_no_longer(name_bytes(name@));
            decode_utf8_encode_utf8(name_bytes(name@));
        }
    }
    decode_lossy(slice_subrange(name.as_slice(), 0, len))
}

/// Stores a name in a name field: its first 31 bytes at most, with at least
/// one zero byte behind them. A longer name is cut, also in the middle of a
/// character.
pub fn safe_str_to_user_name(s: &str) -> (name: [u8; 32])
    ensures
        name@ == name_field(s.spec_bytes()),
{
    let mut name = [0u8; 32];
    let bytes = s.as_bytes();
    let len: usize = if bytes.len() < MAX_NAME_BYTES {
        bytes.len()
    } else {
        MAX_NAME_BYTES
    };
    let mut i: usize = 0;
    while i < len
        invariant
            i <= len <= 31,
            len <= bytes@.len(),
            name@.len() == 32,
            forall|j: int| 0 <= j < i ==> name@[j] == bytes@[j],
            forall|j: int| i <= j < 32 ==> name@[j] == 0,
        decreases len - i,
    {
        name[i] = bytes[i];
        i += 1;
    }
    assert(name@ =~= name_field(s.spec_bytes()));
    name
}

/// What a field holds before its terminator is what went in, cut to 31 bytes
/// and to the bytes before the first zero byte.
pub proof fn stored_name_is_prefix(bytes: Seq<u8>)
    ensures
        name_bytes(name_field(bytes)).len() <= 31,
        name_bytes(name_field(bytes)).len() <= bytes.len(),
        name_bytes(name_field(bytes)) == bytes.take(name_bytes(name_field(bytes)).len() as int),
{
    let field = name_field(bytes);
    let n = terminated_len(field);
    lemma_terminated_len_bounds(field);
    lemma_prefix_nonzero(field, n);
    assert(field[31] == 0);
    if n > 31 {
        assert(field[31] != 0);
    }
    if n > bytes.len() {
        assert(field[bytes.len() as int] != 0);
    }
    assert(name_bytes(field) =~= bytes.take(n));
}

/// The terminated length lies within the field.
pub proof fn lemma_terminated_len_bounds(field: Seq<u8>)
    ensures
        0 <= terminated_len(field) <= field.len(),
    decreases field.len(),
{
    if field.len() > 0 && field[0] != 0 {
        lemma_terminated_len_bounds(field.drop_first());
    }
}

/// No byte before the terminated length is zero, and the byte at it is.
pub proof fn lemma_prefix_nonzero(field: Seq<u8>, n: int)
    requires
        n == terminated_len(field),
    ensures
        ends_at(field, n),
    decreases field.len(),
{
    lemma_terminated_len_bounds(field);
    if field.len() > 0 && field[0] != 0 {
        let rest = field.drop_first();
        lemma_prefix_nonzero(rest, n - 1);
        assert forall|j: int| 0 <= j < n implies field[j] != 0 by {
            if j > 0 {
                assert(rest[j - 1] == field[j]);
            }
        }
        if n < field.len() {
            assert(rest[n - 1] == field[n]);
        }
    }
}

/// Text has no more characters than its encoding has bytes.
pub proof fn decoded_is_no_longer(bytes: Seq<u8>)
    requires
        valid_utf8(bytes),
    ensures
        decode_utf8(bytes).len() <= bytes.len(),
    decreases bytes.len(),
{
    if bytes.len() > 0 {
        assert(1 <= length_of_first_scalar(bytes) <= bytes.len());
        decoded_is_no_longer(pop_first_scalar(bytes));
    }
}

/// Whatever name goes into a field, the text that is read back from it has at
/// most 31 bytes and at most 31 characters, provided the cut did not fall
/// inside a character.
pub proof fn stored_text_is_short(bytes: Seq<u8>)
    requires
        valid_utf8(name_bytes(name_field(bytes))),
    ensures
        encode_utf8(decode_utf8(name_bytes(name_field(bytes)))).len() <= 31,
        decode_utf8(name_bytes(name_field(bytes))).len() <= 31,
{
    stored_name_is_prefix(bytes);
    decoded_is_no_longer(name_bytes(name_field(bytes)));
    decode_utf8_encode_utf8(name_bytes(name_field(bytes)));
}

/// A name of at most 31 bytes that holds no zero byte comes back from the
/// field as it went in.
pub proof fn short_name_round_trip(text: Seq<char>)
    requires
        encode_utf8(text).len() <= 31,
        forall|i: int| 0 <= i < encode_utf8(text).len() ==> encode_utf8(text)[i] != 0,
    ensures
        name_bytes(name_field(encode_utf8(text))) == encode_utf8(text),
        valid_utf8(name_bytes(name_field(encode_utf8(text)))),
        decode_utf8(name_bytes(name_field(encode_utf8(text)))) == text,
{
    let bytes = encode_utf8(text);
    let field = name_field(bytes);
    assert(ends_at(field, bytes.len() as int));
    lemma_terminated_len(field, bytes.len() as int);
    assert(name_bytes(field) =~= bytes);
    encode_utf8_valid_utf8(text);
    encode_utf8_decode_utf8(text);
}

} // verus!
