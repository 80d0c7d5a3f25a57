//! Product keys: four groups of five capital letters or digits, joined by
//! hyphens.

use rand::Rng;
use vstd::prelude::*;

verus! {

/// The number of letters and digits in a product key.
pub const SYMBOLS: usize = 20;

/// The number of characters in a product key, hyphens included.
pub const KEY_LEN: usize = 23;

/// An ASCII letter of either case, or an ASCII digit.
pub open spec fn is_alphanumeric(b: u8) -> bool {
    (0x41 <= b <= 0x5a) || (0x61 <= b <= 0x7a) || (0x30 <= b <= 0x39)
}

/// A capital ASCII letter or an ASCII digit.
pub open spec fn is_key_symbol(c: char) -> bool {
    ('A' <= c && c <= 'Z') || ('0' <= c && c <= '9')
}

/// Whether a text has the form of a product key: 23 characters, a hyphen at
/// each of the positions 5, 11 and 17, a capital letter or a digit at every
/// other.
pub open spec fn is_product_key(text: Seq<char>) -> bool {
    &&& text.len() == KEY_LEN
    &&& forall|i: int|
        0 <= i < KEY_LEN ==> if i % 6 == 5 {
            text[i] == '-'
        } else {
            is_key_symbol(#[trigger] text[i])
        }
}

/// A small ASCII letter as its capital; any other byte as it is.
pub open spec fn capital(b: u8) -> u8 {
    if 0x61 <= b <= 0x7a {
        (b - 0x20) as u8
    } else {
        b
    }
}

/// The key text made of twenty symbols: each symbol as a capital, in order,
/// with a hyphen after the fifth, the tenth and the fifteenth.
pub open spec fn key_text(symbols: Seq<u8>) -> Seq<char> {
    Seq::new(
        KEY_LEN as nat,
        |i: int|
            if i % 6 == 5 {
                '-'
            } else {
                capital(symbols[i - i / 6]) as char
            },
    )
}

/// `String::push`: appends one character to the end.
#[verifier::external_body]
fn push_char(text: &mut String, c: char)
    ensures
        final(text)@ == old(text)@.push(c),
{
    text.push(c)
}

/// One draw from `rand::distributions::Alphanumeric` with the generator of
/// the current thread. Which symbol comes is left open; trusted only that it
/// is an ASCII letter or digit, the set that the distribution samples from.
/// Where the system cannot seed the generator the call does not return: the
/// program stops.
#[verifier::external_body]
fn draw_alphanumeric() -> (b: u8)
    ensures
        is_alphanumeric(b),
{
    rand::thread_rng().sample(rand::distributions::Alphanumeric)
}

/// Twenty letters or digits always make a text of the product key form.
pub proof fn lemma_key_text_is_product_key(symbols: Seq<u8>)
    requires
        symbols.len() == SYMBOLS,
        forall|j: int| 0 <= j < symbols.len() ==> is_alphanumeric(#[trigger] symbols[j]),
    ensures
        is_product_key(key_text(symbols)),
{
    let text = key_text(symbols);
    assert forall|i: int| 0 <= i < KEY_LEN && i % 6 != 5 implies is_key_symbol(
        #[trigger] text[i],
    ) by {
        let b = symbols[i - i / 6];
        assert(is_alphanumeric(b));
    }
}

/// Lays twenty symbols out as a product key.
pub fn format_key(symbols: &[u8]) -> (key: String)
    requires
        symbols@.len() == SYMBOLS,
    ensures
        key@ == key_text(symbols@),
        (forall|j: int| 0 <= j < symbols@.len() ==> is_alphanumeric(#[trigger] symbols@[j]))
            ==> is_product_key(key@),
{
    let mut key = String::new();
    let mut i: usize = 0;
    while i < KEY_LEN
        invariant
            i <= KEY_LEN,
            symbols@.len() == SYMBOLS,
            key@ == key_text(symbols@).take(i as int),
        decreases KEY_LEN - i,
    {
        if i % 6 == 5 {
            push_char(&mut key, '-');
        } else {
            let b: u8 = symbols[i - i / 6];
            let upper: u8 = if 0x61 <= b && b <= 0x7a {
                b - 0x20
            } else {
                b
            };
            push_char(&mut key, upper as char);
        }
        assert(key@ =~= key_text(symbols@).take(i + 1));
        i += 1;
    }
    assert(key@ =~= key_text(symbols@));
    proof {
        if forall|j: int| 0 <= j < symbols@.len() ==> is_alphanumeric(#[trigger] symbols@[j]) {
            lemma_key_text_is_product_key(symbols@);
        }
    }
    key
}

/// Makes a fresh product key from twenty random letters and digits. Small
/// letters come out as capitals, so each symbol of the key is one of 36.
pub fn generate_key() -> (key: String)
    ensures
        is_product_key(key@),
{
    let mut symbols: Vec<u8> = Vec::new();
    while symbols.len() < SYMBOLS
        invariant
            symbols@.len() <= SYMBOLS,
            forall|j: int| 0 <= j < symbols@.len() ==> is_alphanumeric(#[trigger] symbols@[j]),
        decreases SYMBOLS - symbols@.len(),
    {
        let b: u8 = draw_alphanumeric();
        symbols.push(b);
    }
    format_key(symbols.as_slice())
}

} // verus!
