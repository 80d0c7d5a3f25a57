//! Text form of signature bytes: Base64 with the standard alphabet and `=`
//! padding, without line breaks.

use vstd::prelude::*;

verus! {

/// The character of the standard alphabet that stands for a six-bit value.
pub open spec fn symbol(v: int) -> char {
    if v < 26 {
        (v + 65) as char
    } else if v < 52 {
        (v + 71) as char
    } else if v < 62 {
        (v - 4) as char
    } else if v == 62 {
        '+'
    } else {
        '/'
    }
}

/// Whether a character belongs to the standard alphabet.
pub open spec fn is_symbol(c: char) -> bool {
    ('A' <= c && c <= 'Z') || ('a' <= c && c <= 'z') || ('0' <= c && c <= '9') || c == '+' || c
        == '/'
}

/// The byte at an index, and zero past the end.
pub open spec fn octet(bytes: Seq<u8>, j: int) -> int {
    if 0 <= j < bytes.len() {
        bytes[j] as int
    } else {
        0
    }
}

/// The six-bit value at an index of the text: each group of three bytes,
/// read as twenty-four bits, gives four values.
pub open spec fn sextet(bytes: Seq<u8>, i: int) -> int {
    let first = octet(bytes, 3 * (i / 4));
    let second = octet(bytes, 3 * (i / 4) + 1);
    let third = octet(bytes, 3 * (i / 4) + 2);
    if i % 4 == 0 {
        first / 4
    } else if i % 4 == 1 {
        (first % 4) * 16 + second / 16
    } else if i % 4 == 2 {
        (second % 16) * 4 + third / 64
    } else {
        third % 64
    }
}

/// How many characters of the text stand for data.
pub open spec fn symbol_count(n: nat) -> nat {
    ((4 * n + 2) / 3) as nat
}

/// The length of the text, padding included.
pub open spec fn text_len(n: nat) -> nat {
    ((n + 2) / 3 * 4) as nat
}

/// The Base64 text of a byte string.
pub open spec fn base64_text(bytes: Seq<u8>) -> Seq<char> {
    Seq::new(
        text_len(bytes.len()),
        |i: int|
            if i < symbol_count(bytes.len()) {
                symbol(sextet(bytes, i))
            } else {
                '='
            },
    )
}

/// Whether a text is read as the given bytes: it is their Base64 text, whole
/// or with some of its padding left off.
pub open spec fn decodes_to(text: Seq<char>, bytes: Seq<u8>) -> bool {
    &&& symbol_count(bytes.len()) <= text.len() <= text_len(bytes.len())
    &&& text == base64_text(bytes).take(text.len() as int)
}

/// The bytes that a text is read as, if there are any.
pub open spec fn decoded(text: Seq<char>) -> Option<Seq<u8>> {
    if exists|bytes: Seq<u8>| decodes_to(text, bytes) {
        Some(choose|bytes: Seq<u8>| decodes_to(text, bytes))
    } else {
        None
    }
}

/// Every six-bit value has a symbol of its own, and none of them is `=`.
pub proof fn lemma_symbols_distinct(a: int, b: int)
    requires
        0 <= a < 64,
        0 <= b < 64,
    ensures
        is_symbol(symbol(a)),
        symbol(a) != '=',
        symbol(a) == symbol(b) ==> a == b,
{
}

/// A six-bit value lies between 0 and 63.
pub proof fn lemma_sextet_range(bytes: Seq<u8>, i: int)
    requires
        0 <= i,
    ensures
        0 <= sextet(bytes, i) < 64,
{
}

/// A byte of the data is fixed by the two six-bit values that overlap it.
proof fn lemma_octet_from_sextets(bytes: Seq<u8>, j: int)
    requires
        0 <= j < bytes.len(),
    ensures
        j % 3 == 0 ==> bytes[j] == sextet(bytes, 4 * (j / 3)) * 4 + sextet(bytes, 4 * (j / 3) + 1)
            / 16,
        j % 3 == 1 ==> bytes[j] == (sextet(bytes, 4 * (j / 3) + 1) % 16) * 16 + sextet(
            bytes,
            4 * (j / 3) + 2,
        ) / 4,
        j % 3 == 2 ==> bytes[j] == (sextet(bytes, 4 * (j / 3) + 2) % 4) * 64 + sextet(
            bytes,
            4 * (j / 3) + 3,
        ),
{
    let g = j / 3;
    assert((4 * g) / 4 == g && (4 * g) % 4 == 0);
    assert((4 * g + 1) / 4 == g && (4 * g + 1) % 4 == 1);
    assert((4 * g + 2) / 4 == g && (4 * g + 2) % 4 == 2);
    assert((4 * g + 3) / 4 == g && (4 * g + 3) % 4 == 3);
}

/// A text is read as at most one byte string.
pub proof fn lemma_decoding_unique(text: Seq<char>, first: Seq<u8>, second: Seq<u8>)
    requires
        decodes_to(text, first),
        decodes_to(text, second),
    ensures
        first == second,
{
    let m1 = symbol_count(first.len());
    let m2 = symbol_count(second.len());
    let full1 = base64_text(first);
    let full2 = base64_text(second);
    assert forall|i: int| 0 <= i < text.len() implies text[i] == full1[i] && text[i] == full2[i] by {
        assert(text[i] == full1.take(text.len() as int)[i]);
        assert(text[i] == full2.take(text.len() as int)[i]);
    }
    if m1 < m2 {
        lemma_sextet_range(second, m1 as int);
        lemma_symbols_distinct(sextet(second, m1 as int), 0);
        assert(text[m1 as int] == '=');
        assert(false);
    }
    if m2 < m1 {
        lemma_sextet_range(first, m2 as int);
        lemma_symbols_distinct(sextet(first, m2 as int), 0);
        assert(text[m2 as int] == '=');
        assert(false);
    }
    assert(first.len() == second.len());
    assert forall|j: int| 0 <= j < first.len() implies first[j] == second[j] by {
        let g = j / 3;
        lemma_octet_from_sextets(first, j);
        lemma_octet_from_sextets(second, j);
        let lo = 4 * g + j % 3;
        let hi = lo + 1;
        assert(hi < m1);
        lemma_sextet_range(first, lo);
        lemma_sextet_range(second, lo);
        lemma_sextet_range(first, hi);
        lemma_sextet_range(second, hi);
        lemma_symbols_distinct(sextet(first, lo), sextet(second, lo));
        lemma_symbols_distinct(sextet(first, hi), sextet(second, hi));
        assert(text[lo] == symbol(sextet(first, lo)));
        assert(text[lo] == symbol(sextet(second, lo)));
        assert(text[hi] == symbol(sextet(first, hi)));
        assert(text[hi] == symbol(sextet(second, hi)));
    }
    assert(first =~= second);
}

/// Decoding undoes encoding: the Base64 text of any byte string, the empty
/// one and those with unprintable bytes included, is read as that byte
/// string again.
pub proof fn lemma_decode_inverts_encode(bytes: Seq<u8>)
    ensures
        decoded(base64_text(bytes)) == Some(bytes),
{
    let text = base64_text(bytes);
    assert(symbol_count(bytes.len()) <= text_len(bytes.len()));
    assert(text =~= text.take(text.len() as int));
    assert(decodes_to(text, bytes));
    let found = choose|found: Seq<u8>| decodes_to(text, found);
    lemma_decoding_unique(text, found, bytes);
}

/// A text that holds a character which is neither a symbol of the alphabet
/// nor `=` is read as nothing.
pub proof fn lemma_foreign_character_undecodable(text: Seq<char>, at: int)
    requires
        0 <= at < text.len(),
        !is_symbol(text[at]),
        text[at] != '=',
    ensures
        decoded(text) is None,
{
    assert forall|bytes: Seq<u8>| !decodes_to(text, bytes) by {
        if decodes_to(text, bytes) {
            assert(text[at] == base64_text(bytes).take(text.len() as int)[at]);
            lemma_sextet_range(bytes, at);
            lemma_symbols_distinct(sextet(bytes, at), 0);
        }
    }
}

/// The text is not Base64: it holds a character from outside the alphabet,
/// or its length or padding fits no byte string.
#[derive(Debug, Clone, Copy, PartialEq, Eq)]
pub struct DecodeFailure;

/// `base64::DecodeError`: why the `base64` crate refused a text; never read
/// here.
#[verifier::external_type_specification]
#[verifier::external_body]
pub struct ExBase64DecodeError(base64::DecodeError);

/// `base64::encode`: the standard alphabet, padded with `=` to a multiple of
/// four characters. Trusted to return exactly [`base64_text`] of its input.
/// It stops with a panic only where the text's length would overflow a
/// `usize`, which no slice in memory is long enough for.
#[verifier::external_body]
fn base64_encode(bytes: &[u8]) -> (text: String)
    ensures
        text@ == base64_text(bytes@),
{
    base64::encode(bytes)
}

/// `base64::decode` with its standard configuration. Trusted to accept a
/// text exactly when it is the Base64 text of some byte string, whole or
/// with some of its trailing `=` left off, and then to return those bytes;
/// every other text is an error: a character from outside the alphabet, a
/// `=` anywhere but at the end of the last group of four, a group of a
/// single symbol, or a last symbol with bits that no byte takes up.
#[verifier::external_body]
fn base64_decode(text: &str) -> (r: Result<Vec<u8>, base64::DecodeError>)
    ensures
        r matches Ok(bytes) ==> decodes_to(text@, bytes@),
        r is Err ==> forall|bytes: Seq<u8>| !decodes_to(text@, bytes),
{
    base64::decode(text)
}

/// Writes bytes as Base64 text. Never fails, and what it writes is read
/// back as the same bytes.
pub fn encode(bytes: &[u8]) -> (text: String)
    ensures
        text@ == base64_text(bytes@),
        decoded(text@) == Some(bytes@),
{
    proof {
        lemma_decode_inverts_encode(bytes@);
    }
    base64_encode(bytes)
}

/// Reads Base64 text back into bytes, and reports text that stands for no
/// byte string.
pub fn decode(text: &str) -> (r: Result<Vec<u8>, DecodeFailure>)
    ensures
        match r {
            Ok(bytes) => decoded(text@) == Some(bytes@),
            Err(_) => decoded(text@) is None,
        },
{
    match base64_decode(text) {
        Ok(bytes) => {
            proof {
                let found = choose|found: Seq<u8>| decodes_to(text@, found);
                lemma_decoding_unique(text@, found, bytes@);
            }
            Ok(bytes)
        },
        Err(_) => Err(DecodeFailure),
    }
}

} // verus!
