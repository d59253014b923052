//! Cache keys: the SHA-256 digest of a text, written in lower-case hexadecimal.

use vstd::prelude::*;
use vstd::utf8::encode_utf8;

verus! {

/// The SHA-256 digest of a sequence of bytes.
pub uninterp spec fn sha256(data: Seq<u8>) -> Seq<u8>;

/// `sha2::Sha256::digest`: the digest of the bytes, which is a function of the
/// bytes alone and 32 bytes long.
#[verifier::external_body]
fn sha256_digest(data: &[u8]) -> (digest: Vec<u8>)
    ensures
        digest@ == sha256(data@),
        digest@.len() == 32,
{
    <::sha2::Sha256 as ::sha2::Digest>::digest(data).to_vec()
}

/// The sixteen hexadecimal digits, lower case.
pub open spec fn hex_digits() -> Seq<char> {
    seq!['0', '1', '2', '3', '4', '5', '6', '7', '8', '9', 'a', 'b', 'c', 'd', 'e', 'f']
}

/// The hexadecimal digit at a position of the text of `data`: the high half
/// of each byte comes first.
pub open spec fn hex_digit_at(data: Seq<u8>, i: int) -> char {
    if i % 2 == 0 {
        hex_digits()[data[i / 2] as int / 16]
    } else {
        hex_digits()[data[i / 2] as int % 16]
    }
}

/// The bytes written as hexadecimal text, two lower-case digits for each.
pub open spec fn hex(data: Seq<u8>) -> Seq<char> {
    Seq::new(2 * data.len(), |i: int| hex_digit_at(data, i))
}

/// The key under which what is derived from a text is cached: the SHA-256
/// digest of its UTF-8 bytes, in hexadecimal.
pub open spec fn cache_key(text: Seq<char>) -> Seq<char> {
    hex(sha256(encode_utf8(text)))
}

/// The text of one hexadecimal digit.
fn digit_text(n: u8) -> (text: &'static str)
    requires
        n < 16,
    ensures
        text@ == seq![hex_digits()[n as int]],
{
    proof {
        reveal_strlit("0");
        reveal_strlit("1");
        reveal_strlit("2");
        reveal_strlit("3");
        reveal_strlit("4");
        reveal_strlit("5");
        reveal_strlit("6");
        reveal_strlit("7");
        reveal_strlit("8");
        reveal_strlit("9");
        reveal_strlit("a");
        reveal_strlit("b");
        reveal_strlit("c");
        reveal_strlit("d");
        reveal_strlit("e");
        reveal_strlit("f");
    }
    let text = match n {
        0 => "0",
        1 => "1",
        2 => "2",
        3 => "3",
        4 => "4",
        5 => "5",
        6 => "6",
        7 => "7",
        8 => "8",
        9 => "9",
        10 => "a",
        11 => "b",
        12 => "c",
        13 => "d",
        14 => "e",
        _ => "f",
    };
    assert(text@ =~= seq![hex_digits()[n as int]]);
    text
}

/// Writes bytes as lower-case hexadecimal text.
pub fn to_hex(data: &[u8]) -> (text: String)
    ensures
        text@ == hex(data@),
{
    let mut text = String::new();
    let mut i: usize = 0;
    while i < data.len()
        invariant
            i <= data.len(),
            text@ == hex(data@.take(i as int)),
        decreases data.len() - i,
    {
        let byte = data[i];
        let ghost before = text@;
        text.append(digit_text(byte / 16));
        text.append(digit_text(byte % 16));
        i = i + 1;
        proof {
            let shorter = data@.take(i - 1);
            let longer = data@.take(i as int);
            assert(text@ == before + seq![hex_digits()[byte as int / 16]] + seq![
                hex_digits()[byte as int % 16],
            ]);
            assert forall|k: int| 0 <= k < 2 * i implies text@[k] == hex_digit_at(longer, k) by {
                if k < 2 * (i - 1) {
                    assert(before[k] == hex_digit_at(shorter, k));
                    assert(shorter[k / 2] == longer[k / 2]);
                }
            }
            assert(text@ =~= hex(longer));
        }
    }
    assert(data@.take(data.len() as int) =~= data@);
    text
}

/// The cache key of a text.
pub fn cache_key_of(text: &str) -> (key: String)
    ensures
        key@ == cache_key(text@),
        key@.len() == 64,
{
    let digest = sha256_digest(text.as_bytes());
    to_hex(digest.as_slice())
}

} // verus!
