//! From the bytes that a process printed to text.
//!
//! What a tool prints is in no fixed encoding: mostly UTF-8, often
//! Shift_JIS on a Japanese Windows. The bytes are tried as the encoding
//! that the platform's console uses by habit, then as the other one, and a
//! reading that meets a malformed sequence is passed over. If both are
//! passed over, the bytes are read as UTF-8 with every malformed sequence
//! replaced. So there is always a text.
//!
//! The three readings are made by the decoders of the standard library and
//! of `encoding_rs`; which of them counts is decided here, in
//! [`choose_reading`].

use vstd::prelude::*;
use vstd::utf8::decode_utf8;
use vstd::utf8::encode_utf8;
use vstd::utf8::is_ascii_chars;
use vstd::utf8::valid_utf8;

use crate::platform::Platform;

verus! {

/// What `encoding_rs` reads out of `bytes` as Shift_JIS: the text, and
/// whether a malformed sequence was met and replaced.
pub uninterp spec fn shift_jis_reading(bytes: Seq<u8>) -> (Seq<char>, bool);

/// What `String::from_utf8_lossy` reads out of `bytes`.
pub uninterp spec fn lossy_reading(bytes: Seq<u8>) -> Seq<char>;

/// Whether every byte is an ASCII character.
pub open spec fn all_ascii(bytes: Seq<u8>) -> bool {
    forall|i: int| 0 <= i < bytes.len() ==> #[trigger] bytes[i] < 0x80
}

/// Bytes as the characters of the same codes.
pub open spec fn ascii_text(bytes: Seq<u8>) -> Seq<char> {
    Seq::new(bytes.len(), |i: int| bytes[i] as char)
}

/// `std::str::from_utf8`: the text that `bytes` encode, if they are valid
/// UTF-8, and else nothing.
#[verifier::external_body]
fn read_utf8(bytes: &[u8]) -> (text: Option<String>)
    ensures
        text is Some <==> valid_utf8(bytes@),
        text is Some ==> text->Some_0@ == decode_utf8(bytes@),
{
    match std::str::from_utf8(bytes) {
        Ok(text) => Some(text.to_string()),
        Err(_) => None,
    }
}

/// `encoding_rs::Encoding::decode` on `SHIFT_JIS`: the text read out of
/// `bytes`, with each malformed sequence replaced, and whether there was
/// one. Bytes that are all ASCII are read as themselves, without a
/// malformed sequence. The encoding that a byte order mark may have chosen
/// instead is dropped. The call panics where three times the length
/// overflows, which the bound on the length excludes.
#[verifier::external_body]
fn read_shift_jis(bytes: &[u8]) -> (reading: (String, bool))
    requires
        4 * bytes@.len() <= isize::MAX,
    ensures
        (reading.0@, reading.1) == shift_jis_reading(bytes@),
        all_ascii(bytes@) ==> !reading.1 && reading.0@ == ascii_text(bytes@),
{
    let (text, _, had_errors) = encoding_rs::SHIFT_JIS.decode(bytes);
    (text.into_owned(), had_errors)
}

/// `String::from_utf8_lossy`: the text read out of `bytes` as UTF-8, with
/// each malformed sequence replaced; bytes that are valid UTF-8 are read
/// as what they encode. The text may take three times the room of the
/// bytes, which the bound on the length keeps within what can be
/// allocated.
#[verifier::external_body]
pub(crate) fn read_lossy(bytes: &[u8]) -> (text: String)
    requires
        4 * bytes@.len() <= isize::MAX,
    ensures
        text@ == lossy_reading(bytes@),
        valid_utf8(bytes@) ==> text@ == decode_utf8(bytes@),
{
    String::from_utf8_lossy(bytes).into_owned()
}

/// A reading counts if no malformed sequence was met.
pub open spec fn clean(reading: (Seq<char>, bool)) -> Option<Seq<char>> {
    if reading.1 {
        None
    } else {
        Some(reading.0)
    }
}

/// The text of a reading that met no malformed sequence.
pub fn accept_clean(reading: (String, bool)) -> (text: Option<String>)
    ensures
        text.deep_view() == clean((reading.0@, reading.1)),
{
    if reading.1 {
        None
    } else {
        Some(reading.0)
    }
}

/// The reading of `bytes` as strict UTF-8.
pub open spec fn utf8_reading(bytes: Seq<u8>) -> Option<Seq<char>> {
    if valid_utf8(bytes) {
        Some(decode_utf8(bytes))
    } else {
        None
    }
}

/// The first of the readings that counts, or else the last resort.
pub open spec fn first_reading(
    first: Option<Seq<char>>,
    second: Option<Seq<char>>,
    last: Seq<char>,
) -> Seq<char> {
    match first {
        Some(text) => text,
        None => match second {
            Some(text) => text,
            None => last,
        },
    }
}

/// The reading that counts on `platform`, given the three readings:
/// UTF-8 before Shift_JIS on Unix, Shift_JIS before UTF-8 on Windows, and
/// the lossy reading where neither counts.
pub open spec fn reading_for(
    platform: Platform,
    utf8: Option<Seq<char>>,
    shift_jis: Option<Seq<char>>,
    lossy: Seq<char>,
) -> Seq<char> {
    match platform {
        Platform::Unix => first_reading(utf8, shift_jis, lossy),
        Platform::Windows => first_reading(shift_jis, utf8, lossy),
    }
}

/// The text that `bytes` stand for on `platform`.
pub open spec fn decoded(platform: Platform, bytes: Seq<u8>) -> Seq<char> {
    reading_for(
        platform,
        utf8_reading(bytes),
        clean(shift_jis_reading(bytes)),
        lossy_reading(bytes),
    )
}

/// Chooses among the three readings of the same bytes the one that counts
/// on `platform`: `utf8` and `shift_jis` are there where the bytes could be
/// read without a malformed sequence, `lossy` is the last resort.
pub fn choose_reading(
    platform: Platform,
    utf8: Option<String>,
    shift_jis: Option<String>,
    lossy: String,
) -> (text: String)
    ensures
        text@ == reading_for(platform, utf8.deep_view(), shift_jis.deep_view(), lossy@),
{
    let (first, second) = match platform {
        Platform::Unix => (utf8, shift_jis),
        Platform::Windows => (shift_jis, utf8),
    };
    match first {
        Some(text) => text,
        None => match second {
            Some(text) => text,
            None => lossy,
        },
    }
}

/// The largest number of bytes that [`decode_buffer`] takes at once: a
/// text may need three times the room of its bytes.
pub open spec fn decodable(len: nat) -> bool {
    4 * len <= isize::MAX
}

/// ASCII bytes are valid UTF-8 and encode the characters of their codes.
pub proof fn lemma_ascii_is_utf8(bytes: Seq<u8>)
    requires
        all_ascii(bytes),
    ensures
        valid_utf8(bytes),
        decode_utf8(bytes) == ascii_text(bytes),
{
    let chars = ascii_text(bytes);
    assert(is_ascii_chars(chars)) by {
        assert forall|i: int| 0 <= i < chars.len() implies '\0' <= #[trigger] chars[i] <= '\u{7f}' by {
            assert(bytes[i] < 0x80);
        }
    }
    vstd::utf8::is_ascii_chars_encode_utf8(chars);
    assert(encode_utf8(chars) =~= bytes) by {
        assert forall|i: int| 0 <= i < bytes.len() implies encode_utf8(chars)[i] == bytes[i] by {
            assert(chars[i] as u8 == encode_utf8(chars)[i]);
            assert(bytes[i] < 0x80);
        }
    }
    vstd::utf8::encode_utf8_valid_utf8(chars);
    vstd::utf8::encode_utf8_decode_utf8(chars);
}

/// Turns bytes that a process printed into text. It never fails.
///
/// ASCII bytes are read as themselves on either platform.
pub fn decode_buffer(buffer: &[u8], platform: Platform) -> (text: String)
    requires
        decodable(buffer@.len()),
    ensures
        text@ == decoded(platform, buffer@),
        all_ascii(buffer@) ==> text@ == ascii_text(buffer@),
{
    proof {
        if all_ascii(buffer@) {
            lemma_ascii_is_utf8(buffer@);
        }
    }
    let utf8 = read_utf8(buffer);
    let shift_jis = accept_clean(read_shift_jis(buffer));
    let lossy = read_lossy(buffer);
    choose_reading(platform, utf8, shift_jis, lossy)
}

/// Valid UTF-8 is read as what it encodes on Unix, whatever the other
/// readings would give.
pub proof fn law_unix_reads_utf8(bytes: Seq<u8>)
    requires
        valid_utf8(bytes),
    ensures
        decoded(Platform::Unix, bytes) == decode_utf8(bytes),
{
}

} // verus!
