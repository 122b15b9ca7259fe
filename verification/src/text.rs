//! Text across the native boundary.
//!
//! Towards the native layer a text travels as its UTF-8 bytes with one
//! zero byte behind them, so it may hold no zero byte itself. From the
//! native layer a text comes back in a buffer of fixed size, ended by the
//! first zero byte, and has to be UTF-8. Numbers in messages are written
//! in decimal.

use vstd::prelude::*;
use vstd::string::*;
use vstd::utf8::*;
use crate::error::EncodingError;

verus! {

/// The offset of the first zero byte at or after `from`, or the length of
/// `bytes` where there is none.
pub open spec fn first_nul(bytes: Seq<u8>, from: int) -> int
    decreases bytes.len() - from,
{
    if from < 0 || from >= bytes.len() {
        bytes.len() as int
    } else if bytes[from] == 0 {
        from
    } else {
        first_nul(bytes, from + 1)
    }
}

/// No byte is zero.
pub open spec fn nul_free(bytes: Seq<u8>) -> bool {
    forall|i: int| 0 <= i < bytes.len() ==> bytes[i] != 0
}

/// `first_nul` finds the least offset of a zero byte.
pub proof fn lemma_first_nul(bytes: Seq<u8>, from: int)
    requires
        0 <= from <= bytes.len(),
    ensures
        from <= first_nul(bytes, from) <= bytes.len(),
        forall|i: int| from <= i < first_nul(bytes, from) ==> bytes[i] != 0,
        first_nul(bytes, from) < bytes.len() ==> bytes[first_nul(bytes, from)] == 0,
    decreases bytes.len() - from,
{
    if from < bytes.len() && bytes[from] != 0 {
        lemma_first_nul(bytes, from + 1);
    }
}

/// A text holds no zero byte exactly if the search for one runs to its end.
pub proof fn lemma_nul_free(bytes: Seq<u8>)
    ensures
        nul_free(bytes) <==> first_nul(bytes, 0) == bytes.len(),
{
    lemma_first_nul(bytes, 0);
}

/// The native form of a text: its bytes and a closing zero, or the place
/// of the zero byte that forbids it.
pub open spec fn c_string(bytes: Seq<u8>) -> Result<Seq<u8>, EncodingError> {
    if nul_free(bytes) {
        Ok(bytes.push(0u8))
    } else {
        Err(EncodingError::InteriorNul { position: first_nul(bytes, 0) as usize })
    }
}

/// The view of a marshalling result.
pub open spec fn marshalled(res: Result<Vec<u8>, EncodingError>) -> Result<Seq<u8>, EncodingError> {
    match res {
        Ok(out) => Ok(out@),
        Err(e) => Err(e),
    }
}

/// Marshals a text into an owned buffer that ends in a zero byte. Fails
/// where the text itself holds a zero byte, and says where the first one is.
pub fn to_c_string(bytes: &[u8]) -> (res: Result<Vec<u8>, EncodingError>)
    ensures
        marshalled(res) == c_string(bytes@),
{
    let mut out: Vec<u8> = Vec::new();
    let mut i: usize = 0;
    while i < bytes.len()
        invariant
            0 <= i <= bytes.len(),
            out@ == bytes@.take(i as int),
            first_nul(bytes@, 0) == first_nul(bytes@, i as int),
            forall|j: int| 0 <= j < i ==> bytes@[j] != 0,
        decreases bytes.len() - i,
    {
        let b = bytes[i];
        if b == 0 {
            return Err(EncodingError::InteriorNul { position: i });
        }
        out.push(b);
        assert(out@ =~= bytes@.take(i + 1));
        i += 1;
    }
    assert(bytes@.take(i as int) =~= bytes@);
    out.push(0);
    Ok(out)
}

/// The UTF-8 bytes of each text of a list.
pub open spec fn bytes_of(texts: Seq<Seq<char>>) -> Seq<Seq<u8>> {
    texts.map_values(|text: Seq<char>| encode_utf8(text))
}

/// The texts that a list of strings holds.
pub open spec fn texts_of(strings: Seq<String>) -> Seq<Seq<char>> {
    strings.map_values(|s: String| s@)
}

/// The texts that a list of string slices holds.
pub open spec fn texts_of_slices(slices: Seq<&str>) -> Seq<Seq<char>> {
    slices.map_values(|s: &str| s@)
}

/// The byte strings that a list of buffers holds.
pub open spec fn byte_strings(buffers: Seq<Vec<u8>>) -> Seq<Seq<u8>> {
    buffers.map_values(|b: Vec<u8>| b@)
}

/// Each byte string with a closing zero byte behind it.
pub open spec fn terminated(texts: Seq<Seq<u8>>) -> Seq<Seq<u8>> {
    texts.map_values(|b: Seq<u8>| b.push(0u8))
}

/// The error of the first text, at or behind `from`, that holds a zero
/// byte; nothing where none does.
pub open spec fn first_failure(texts: Seq<Seq<u8>>, from: int) -> Option<EncodingError>
    decreases texts.len() - from,
{
    if from < 0 || from >= texts.len() {
        None
    } else {
        match c_string(texts[from]) {
            Err(e) => Some(e),
            Ok(_) => first_failure(texts, from + 1),
        }
    }
}

/// Where no text of a list holds a zero byte, none fails to be marshalled.
pub proof fn lemma_no_failure(texts: Seq<Seq<u8>>, from: int)
    requires
        0 <= from,
        forall|i: int| 0 <= i < texts.len() ==> nul_free(#[trigger] texts[i]),
    ensures
        first_failure(texts, from) is None,
    decreases texts.len() - from,
{
    if from < texts.len() {
        assert(nul_free(texts[from]));
        lemma_no_failure(texts, from + 1);
    }
}

/// A text of ASCII characters other than the zero character has no zero
/// byte among its UTF-8 bytes.
pub proof fn lemma_ascii_nul_free(text: Seq<char>)
    requires
        forall|i: int| 0 <= i < text.len() ==> '\u{1}' <= #[trigger] text[i] <= '\u{7f}',
    ensures
        nul_free(encode_utf8(text)),
{
    assert(is_ascii_chars(text));
    is_ascii_chars_encode_utf8(text);
    assert forall|i: int| 0 <= i < encode_utf8(text).len() implies encode_utf8(text)[i] != 0 by {
        assert(text[i] as u8 == encode_utf8(text)[i]);
        assert(text[i] != '\0');
    }
}

/// What marshalling a list of texts gives: every text with its closing
/// zero byte, or the error of the first text that cannot be marshalled.
pub open spec fn c_strings(texts: Seq<Seq<u8>>) -> Result<Seq<Seq<u8>>, EncodingError> {
    match first_failure(texts, 0) {
        Some(e) => Err(e),
        None => Ok(terminated(texts)),
    }
}

/// The view of the result of marshalling a list.
pub open spec fn marshalled_list(res: Result<Vec<Vec<u8>>, EncodingError>) -> Result<
    Seq<Seq<u8>>,
    EncodingError,
> {
    match res {
        Ok(out) => Ok(byte_strings(out@)),
        Err(e) => Err(e),
    }
}

/// Marshals the texts of a list, in order, and stops at the first that
/// holds a zero byte.
pub fn to_c_strings(strings: &Vec<String>) -> (res: Result<Vec<Vec<u8>>, EncodingError>)
    ensures
        marshalled_list(res) == c_strings(bytes_of(texts_of(strings@))),
{
    let mut slices: Vec<&str> = Vec::new();
    let mut i: usize = 0;
    while i < strings.len()
        invariant
            0 <= i <= strings@.len(),
            slices@.len() == i,
            forall|k: int| 0 <= k < i ==> (#[trigger] slices@[k])@ == strings@[k]@,
        decreases strings@.len() - i,
    {
        slices.push(strings[i].as_str());
        i += 1;
    }
    assert(texts_of_slices(slices@) =~= texts_of(strings@));
    names_to_c_strings(&slices)
}

/// Marshals the names of a list, in order, and stops at the first that
/// holds a zero byte.
pub fn names_to_c_strings(names: &Vec<&str>) -> (res: Result<Vec<Vec<u8>>, EncodingError>)
    ensures
        marshalled_list(res) == c_strings(bytes_of(texts_of_slices(names@))),
{
    let ghost texts = bytes_of(texts_of_slices(names@));
    let mut out: Vec<Vec<u8>> = Vec::new();
    let mut i: usize = 0;
    while i < names.len()
        invariant
            0 <= i <= names@.len(),
            texts == bytes_of(texts_of_slices(names@)),
            first_failure(texts, 0) == first_failure(texts, i as int),
            out@.len() == i,
            texts.len() == names@.len(),
            byte_strings(out@) == terminated(texts.take(i as int)),
        decreases names@.len() - i,
    {
        let ghost before = out@;
        assert(texts[i as int] == encode_utf8(names@[i as int]@));
        match to_c_string(names[i].as_bytes()) {
            Ok(buffer) => {
                assert(c_string(texts[i as int]) == Ok::<Seq<u8>, EncodingError>(buffer@));
                out.push(buffer);
                proof {
                    assert(byte_strings(out@).len() == i + 1);
                    assert(terminated(texts.take(i + 1)).len() == i + 1);
                    assert forall|k: int| 0 <= k < i + 1 implies byte_strings(out@)[k]
                        == terminated(texts.take(i + 1))[k] by {
                        if k < i {
                            assert(out@[k] == before[k]);
                            assert(byte_strings(before)[k] == terminated(texts.take(i as int))[k]);
                            assert(texts.take(i as int)[k] == texts.take(i + 1)[k]);
                        } else {
                            assert(out@[k]@ == texts[k].push(0u8));
                            assert(texts.take(i + 1)[k] == texts[k]);
                        }
                    }
                    assert(byte_strings(out@) =~= terminated(texts.take(i + 1)));
                }
            },
            Err(e) => {
                assert(c_string(texts[i as int]) == Err::<Seq<u8>, EncodingError>(e));
                return Err(e);
            },
        }
        i += 1;
    }
    assert(texts.take(i as int) =~= texts);
    Ok(out)
}

/// The bytes of a native text buffer that stand before its first zero
/// byte; the whole buffer where it holds none.
pub open spec fn until_nul(buffer: Seq<u8>) -> Seq<u8> {
    buffer.take(first_nul(buffer, 0))
}

/// The part of a native text buffer that is the text.
pub fn text_bytes(buffer: &[u8]) -> (text: &[u8])
    ensures
        text@ == until_nul(buffer@),
{
    let mut i: usize = 0;
    while i < buffer.len() && buffer[i] != 0
        invariant
            0 <= i <= buffer.len(),
            first_nul(buffer@, 0) == first_nul(buffer@, i as int),
        decreases buffer.len() - i,
    {
        i += 1;
    }
    let text = &buffer[0..i];
    assert(text@ =~= buffer@.take(i as int));
    text
}

/// `n` bytes of `bytes`, from the start, are UTF-8, and no longer prefix is.
pub open spec fn longest_valid_prefix(bytes: Seq<u8>, n: int) -> bool {
    &&& 0 <= n <= bytes.len()
    &&& valid_utf8(bytes.take(n))
    &&& forall|m: int| n < m <= bytes.len() ==> !valid_utf8(#[trigger] bytes.take(m))
}

/// `res` is what strict decoding makes of `bytes`: their text where they
/// are UTF-8, else how far they are.
pub open spec fn strictly_decoded(bytes: Seq<u8>, res: Result<Seq<char>, EncodingError>) -> bool {
    match res {
        Ok(text) => valid_utf8(bytes) && text == decode_utf8(bytes),
        Err(EncodingError::InvalidUtf8 { valid_up_to }) => !valid_utf8(bytes)
            && longest_valid_prefix(bytes, valid_up_to as int),
        Err(_) => false,
    }
}

/// The view of a decoding result.
pub open spec fn decoded(res: Result<String, EncodingError>) -> Result<Seq<char>, EncodingError> {
    match res {
        Ok(text) => Ok(text@),
        Err(e) => Err(e),
    }
}

/// Calls `core::str::from_utf8` and, on failure, `Utf8Error::valid_up_to`.
/// Trusted: the call succeeds exactly on UTF-8 and then gives the text that
/// the bytes encode; otherwise the number that comes back is the length of
/// the longest prefix that is UTF-8.
#[verifier::external_body]
fn utf8_text(bytes: &[u8]) -> (res: Result<&str, usize>)
    ensures
        res matches Ok(text) ==> valid_utf8(bytes@) && text@ == decode_utf8(bytes@),
        res matches Err(n) ==> !valid_utf8(bytes@) && longest_valid_prefix(bytes@, n as int),
{
    match core::str::from_utf8(bytes) {
        Ok(text) => Ok(text),
        Err(e) => Err(e.valid_up_to()),
    }
}

/// What `String::from_utf8_lossy` makes of a byte sequence.
pub uninterp spec fn lossy_utf8(bytes: Seq<u8>) -> Seq<char>;

/// Calls `String::from_utf8_lossy`. Trusted: the result is a function of
/// the bytes alone, and UTF-8 comes back as the text that it encodes.
#[verifier::external_body]
fn utf8_text_lossy(bytes: &[u8]) -> (text: String)
    ensures
        text@ == lossy_utf8(bytes@),
        valid_utf8(bytes@) ==> text@ == decode_utf8(bytes@),
{
    String::from_utf8_lossy(bytes).into_owned()
}

/// Decodes the text in a native buffer. Invalid UTF-8 is rejected, never
/// replaced.
pub fn decode_text(buffer: &[u8]) -> (res: Result<String, EncodingError>)
    ensures
        strictly_decoded(until_nul(buffer@), decoded(res)),
{
    match utf8_text(text_bytes(buffer)) {
        Ok(text) => Ok(text.to_owned()),
        Err(n) => Err(EncodingError::InvalidUtf8 { valid_up_to: n }),
    }
}

/// Decodes the text in a native buffer for display: what is not UTF-8 is
/// replaced, what is UTF-8 is kept as it is.
pub fn decode_text_lossy(buffer: &[u8]) -> (text: String)
    ensures
        text@ == lossy_utf8(until_nul(buffer@)),
        valid_utf8(until_nul(buffer@)) ==> text@ == decode_utf8(until_nul(buffer@)),
{
    utf8_text_lossy(text_bytes(buffer))
}

/// Whether two texts are the same.
pub fn same_text(left: &str, right: &str) -> (same: bool)
    ensures
        same == (left@ == right@),
{
    let a = left.as_bytes();
    let b = right.as_bytes();
    proof {
        encode_utf8_decode_utf8(left@);
        encode_utf8_decode_utf8(right@);
        assert(a@ == encode_utf8(left@));
        assert(b@ == encode_utf8(right@));
    }
    if a.len() != b.len() {
        return false;
    }
    let mut i: usize = 0;
    while i < a.len()
        invariant
            0 <= i <= a.len(),
            a.len() == b.len(),
            a@ == encode_utf8(left@),
            b@ == encode_utf8(right@),
            forall|j: int| 0 <= j < i ==> a@[j] == b@[j],
        decreases a.len() - i,
    {
        if a[i] != b[i] {
            return false;
        }
        i += 1;
    }
    assert(a@ =~= b@);
    true
}

/// The decimal digit of a number below ten.
pub open spec fn digit(d: int) -> char {
    if d == 0 {
        '0'
    } else if d == 1 {
        '1'
    } else if d == 2 {
        '2'
    } else if d == 3 {
        '3'
    } else if d == 4 {
        '4'
    } else if d == 5 {
        '5'
    } else if d == 6 {
        '6'
    } else if d == 7 {
        '7'
    } else if d == 8 {
        '8'
    } else {
        '9'
    }
}

/// A natural number in decimal, without leading zeros.
pub open spec fn decimal(n: nat) -> Seq<char>
    decreases n,
{
    if n < 10 {
        seq![digit(n as int)]
    } else {
        decimal(n / 10).push(digit((n % 10) as int))
    }
}

/// An integer in decimal, with a minus sign where it is negative.
pub open spec fn signed_decimal(n: int) -> Seq<char> {
    if n < 0 {
        seq!['-'] + decimal((-n) as nat)
    } else {
        decimal(n as nat)
    }
}

fn digit_text(d: u64) -> (text: &'static str)
    requires
        d < 10,
    ensures
        text@ == seq![digit(d as int)],
{
    proof {
        reveal_strlit("0");
        reveal_strlit("1");
        reveal_strlit("2");
        reveal_strlit("3");
        reveal_strlit("4");
        reveal_strlit("5");
        reveal_strlit("6");
        reveal_strlit("7");
        reveal_strlit("8");
        reveal_strlit("9");
    }
    let text = if d == 0 {
        "0"
    } else if d == 1 {
        "1"
    } else if d == 2 {
        "2"
    } else if d == 3 {
        "3"
    } else if d == 4 {
        "4"
    } else if d == 5 {
        "5"
    } else if d == 6 {
        "6"
    } else if d == 7 {
        "7"
    } else if d == 8 {
        "8"
    } else {
        "9"
    };
    assert(text@ =~= seq![digit(d as int)]);
    text
}

/// Appends a number in decimal.
pub fn push_decimal(out: &mut String, n: u64)
    ensures
        final(out)@ == old(out)@ + decimal(n as nat),
    decreases n,
{
    if n >= 10 {
        push_decimal(out, n / 10);
    }
    out.append(digit_text(n % 10));
    assert(out@ =~= old(out)@ + decimal(n as nat));
}

/// Appends an integer in decimal, with its sign where it is negative.
pub fn push_signed_decimal(out: &mut String, n: i32)
    ensures
        final(out)@ == old(out)@ + signed_decimal(n as int),
{
    if n < 0 {
        proof {
            reveal_strlit("-");
        }
        out.append("-");
        push_decimal(out, (-(n as i64)) as u64);
        assert(out@ =~= old(out)@ + signed_decimal(n as int));
    } else {
        push_decimal(out, n as u64);
    }
}

} // verus!
