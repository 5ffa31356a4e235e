//! Base64 as this crate uses it.
//!
//! The text of a byte sequence is defined here symbol by symbol, and computed
//! by the `base64` crate. Standard decoding is defined beside it, so that the
//! laws that tie the two together can be stated and proved: text decodes to
//! the bytes it was made from, and the texts that encoding produces are
//! exactly the canonical ones.

use vstd::prelude::*;

verus! {

/// The standard base64 alphabet: position `v` holds the symbol for the
/// six-bit value `v`.
pub open spec fn alphabet() -> Seq<char> {
    "ABCDEFGHIJKLMNOPQRSTUVWXYZabcdefghijklmnopqrstuvwxyz0123456789+/"@
}

/// The symbol that stands for the six-bit value `v`.
pub open spec fn symbol(v: int) -> char {
    alphabet()[v]
}

/// Byte `k` of `bytes`, read as zero past the end.
pub open spec fn octet_or_zero(bytes: Seq<u8>, k: int) -> int {
    if 0 <= k < bytes.len() {
        bytes[k] as int
    } else {
        0
    }
}

/// The `i`-th group of six bits of `bytes`, most significant bit first, with
/// zero bits after the last byte.
pub open spec fn sextet(bytes: Seq<u8>, i: int) -> int {
    let k = 3 * (i / 4);
    let b0 = octet_or_zero(bytes, k);
    let b1 = octet_or_zero(bytes, k + 1);
    let b2 = octet_or_zero(bytes, k + 2);
    if i % 4 == 0 {
        b0 / 4
    } else if i % 4 == 1 {
        (b0 % 4) * 16 + b1 / 16
    } else if i % 4 == 2 {
        (b1 % 16) * 4 + b2 / 64
    } else {
        b2 % 64
    }
}

/// Number of symbols in the unpadded base64 text of `n` bytes.
pub open spec fn encoded_len(n: nat) -> nat {
    ((4 * n + 2) / 3) as nat
}

/// Standard base64 text of `bytes`, without `=` padding.
pub open spec fn base64_no_pad(bytes: Seq<u8>) -> Seq<char> {
    Seq::new(encoded_len(bytes.len()), |i: int| symbol(sextet(bytes, i)))
}

/// Whether the base64 text of `n` bytes has a length that fits in `usize`,
/// which is what encoding asks of its input. A buffer in memory holds at most
/// `isize::MAX` bytes, and every such length passes.
pub fn text_len_fits(n: usize) -> (fits: bool)
    ensures
        fits == (encoded_len(n as nat) <= usize::MAX),
{
    (4 * (n as u128) + 2) / 3 <= usize::MAX as u128
}

/// Calls `Engine::encode` of the `base64` crate on its `STANDARD_NO_PAD`
/// engine.
///
/// Trusted, not proved: the returned string is the base64 text of `bytes`
/// in the standard alphabet and without padding, symbol for symbol what
/// [`base64_no_pad`] defines. The crate panics where the length of its
/// output overflows `usize`; the precondition keeps such inputs out.
#[verifier::external_body]
pub(crate) fn encode_standard_no_pad(bytes: &[u8]) -> (text: String)
    requires
        encoded_len(bytes@.len()) <= usize::MAX,
    ensures
        text@ == base64_no_pad(bytes@),
{
    base64::Engine::encode(&base64::engine::general_purpose::STANDARD_NO_PAD, bytes)
}

/// Whether `c` is one of the 64 symbols of the alphabet.
pub open spec fn is_symbol(c: char) -> bool {
    alphabet().contains(c)
}

/// The six-bit value that the symbol `c` stands for: its position in the
/// alphabet.
pub open spec fn symbol_value(c: char) -> int {
    alphabet().index_of(c)
}

/// `text` followed by as many `=` as bring its length to a multiple of four.
pub open spec fn padded(text: Seq<char>) -> Seq<char> {
    text + Seq::new(((4 - text.len() % 4) % 4) as nat, |i: int| '=')
}

/// `text` without its trailing `=`, of which at most two are taken off.
pub open spec fn without_padding(text: Seq<char>) -> Seq<char> {
    let n = text.len() as int;
    if n >= 2 && text[n - 1] == '=' && text[n - 2] == '=' {
        text.take(n - 2)
    } else if n >= 1 && text[n - 1] == '=' {
        text.take(n - 1)
    } else {
        text
    }
}

/// Number of whole bytes that `m` symbols spell.
pub open spec fn decoded_len(m: nat) -> nat {
    (3 * m / 4) as nat
}

/// Byte `j` of the bit string that `symbols` spell.
pub open spec fn octet(symbols: Seq<char>, j: int) -> int {
    let q = 4 * (j / 3);
    if j % 3 == 0 {
        symbol_value(symbols[q]) * 4 + symbol_value(symbols[q + 1]) / 16
    } else if j % 3 == 1 {
        (symbol_value(symbols[q + 1]) % 16) * 16 + symbol_value(symbols[q + 2]) / 4
    } else {
        (symbol_value(symbols[q + 2]) % 4) * 64 + symbol_value(symbols[q + 3])
    }
}

/// Whether `symbols` is unpadded base64 text in canonical form: made of
/// symbols of the alphabet, of a length that some number of bytes gives, and
/// with zero in the bits of the last symbol that belong to no byte.
pub open spec fn is_canonical(symbols: Seq<char>) -> bool {
    let m = symbols.len() as int;
    &&& m % 4 != 1
    &&& forall|i: int| 0 <= i < m ==> is_symbol(#[trigger] symbols[i])
    &&& m % 4 == 2 ==> symbol_value(symbols[m - 1]) % 16 == 0
    &&& m % 4 == 3 ==> symbol_value(symbols[m - 1]) % 4 == 0
}

/// Standard decoding of unpadded base64 text: the bytes that `symbols` spell,
/// or `None` where `symbols` is not canonical.
pub open spec fn decode_no_pad(symbols: Seq<char>) -> Option<Seq<u8>> {
    if is_canonical(symbols) {
        Some(Seq::new(decoded_len(symbols.len()), |j: int| octet(symbols, j) as u8))
    } else {
        None
    }
}

/// Standard decoding of padded base64 text: the length is a multiple of four,
/// and what is left without the padding decodes.
pub open spec fn decode_standard(text: Seq<char>) -> Option<Seq<u8>> {
    if text.len() % 4 == 0 {
        decode_no_pad(without_padding(text))
    } else {
        None
    }
}

/// Every symbol of the alphabet by its character code.
pub proof fn lemma_symbol_codes(v: int)
    requires
        0 <= v < 64,
    ensures
        0 <= v < 26 ==> symbol(v) as int == v + 65,
        26 <= v < 52 ==> symbol(v) as int == v + 71,
        52 <= v < 62 ==> symbol(v) as int == v - 4,
        v == 62 ==> symbol(v) == '+',
        v == 63 ==> symbol(v) == '/',
{
    reveal_strlit("ABCDEFGHIJKLMNOPQRSTUVWXYZabcdefghijklmnopqrstuvwxyz0123456789+/");
}

/// Each six-bit value is found again from its symbol, and `=` is no symbol.
pub proof fn lemma_symbol_value(v: int)
    requires
        0 <= v < 64,
    ensures
        is_symbol(symbol(v)),
        symbol_value(symbol(v)) == v,
        symbol(v) != '=',
{
    reveal_strlit("ABCDEFGHIJKLMNOPQRSTUVWXYZabcdefghijklmnopqrstuvwxyz0123456789+/");
    lemma_symbol_codes(v);
    assert(alphabet()[v] == symbol(v));
    let i = symbol_value(symbol(v));
    assert(0 <= i < 64 && alphabet()[i] == symbol(v));
    lemma_symbol_codes(i);
}

/// Each symbol is found again from the six-bit value it stands for.
pub proof fn lemma_value_symbol(c: char)
    requires
        is_symbol(c),
    ensures
        0 <= symbol_value(c) < 64,
        symbol(symbol_value(c)) == c,
{
    reveal_strlit("ABCDEFGHIJKLMNOPQRSTUVWXYZabcdefghijklmnopqrstuvwxyz0123456789+/");
}

/// Three bytes cut into four six-bit values and joined again are the same
/// three bytes.
proof fn lemma_cut_then_join(b0: int, b1: int, b2: int)
    requires
        0 <= b0 < 256,
        0 <= b1 < 256,
        0 <= b2 < 256,
    ensures
        ({
            let s0 = b0 / 4;
            let s1 = (b0 % 4) * 16 + b1 / 16;
            let s2 = (b1 % 16) * 4 + b2 / 64;
            let s3 = b2 % 64;
            &&& 0 <= s0 < 64
            &&& 0 <= s1 < 64
            &&& 0 <= s2 < 64
            &&& 0 <= s3 < 64
            &&& s0 * 4 + s1 / 16 == b0
            &&& (s1 % 16) * 16 + s2 / 4 == b1
            &&& (s2 % 4) * 64 + s3 == b2
            &&& (b1 == 0 ==> s1 % 16 == 0)
            &&& (b2 == 0 ==> s2 % 4 == 0)
        }),
{
}

/// Four six-bit values joined into three bytes and cut again are the same
/// four values.
proof fn lemma_join_then_cut(s0: int, s1: int, s2: int, s3: int)
    requires
        0 <= s0 < 64,
        0 <= s1 < 64,
        0 <= s2 < 64,
        0 <= s3 < 64,
    ensures
        ({
            let b0 = s0 * 4 + s1 / 16;
            let b1 = (s1 % 16) * 16 + s2 / 4;
            let b2 = (s2 % 4) * 64 + s3;
            &&& 0 <= b0 < 256
            &&& 0 <= b1 < 256
            &&& 0 <= b2 < 256
            &&& b0 / 4 == s0
            &&& (b0 % 4) * 16 + b1 / 16 == s1
            &&& (b1 % 16) * 4 + b2 / 64 == s2
            &&& b2 % 64 == s3
        }),
{
}

/// The six bits of every group are a value below 64.
proof fn lemma_sextet_range(bytes: Seq<u8>, i: int)
    requires
        0 <= i,
    ensures
        0 <= sextet(bytes, i) < 64,
{
    let k = 3 * (i / 4);
    lemma_cut_then_join(
        octet_or_zero(bytes, k),
        octet_or_zero(bytes, k + 1),
        octet_or_zero(bytes, k + 2),
    );
}

/// What symbol `i` of the text of `bytes` is and stands for.
proof fn lemma_text_symbol(bytes: Seq<u8>, i: int)
    requires
        0 <= i < encoded_len(bytes.len()),
    ensures
        base64_no_pad(bytes)[i] == symbol(sextet(bytes, i)),
        is_symbol(base64_no_pad(bytes)[i]),
        symbol_value(base64_no_pad(bytes)[i]) == sextet(bytes, i),
        base64_no_pad(bytes)[i] != '=',
{
    lemma_sextet_range(bytes, i);
    lemma_symbol_value(sextet(bytes, i));
}

/// The unpadded base64 text of any bytes is canonical.
pub proof fn lemma_text_is_canonical(bytes: Seq<u8>)
    ensures
        is_canonical(base64_no_pad(bytes)),
{
    let text = base64_no_pad(bytes);
    let n = bytes.len() as int;
    let m = text.len() as int;
    assert(m == (4 * n + 2) / 3);
    assert forall|i: int| 0 <= i < m implies is_symbol(#[trigger] text[i]) by {
        lemma_text_symbol(bytes, i);
    }
    if m % 4 == 2 || m % 4 == 3 {
        let g = (m - 1) / 4;
        lemma_text_symbol(bytes, m - 1);
        lemma_cut_then_join(
            octet_or_zero(bytes, 3 * g),
            octet_or_zero(bytes, 3 * g + 1),
            octet_or_zero(bytes, 3 * g + 2),
        );
        if m % 4 == 2 {
            assert(n == 3 * g + 1);
            assert(octet_or_zero(bytes, 3 * g + 1) == 0);
        } else {
            assert(n == 3 * g + 2);
            assert(octet_or_zero(bytes, 3 * g + 2) == 0);
        }
    }
}

/// Decoding the unpadded base64 text of `bytes` gives `bytes` back.
pub proof fn lemma_round_trip_no_pad(bytes: Seq<u8>)
    ensures
        decode_no_pad(base64_no_pad(bytes)) == Some(bytes),
{
    let text = base64_no_pad(bytes);
    let n = bytes.len() as int;
    let m = text.len() as int;
    lemma_text_is_canonical(bytes);
    let back = decode_no_pad(text).unwrap();
    assert(m == (4 * n + 2) / 3);
    assert(back.len() == n);
    assert forall|j: int| 0 <= j < n implies back[j] == bytes[j] by {
        let g = j / 3;
        let q = 4 * g;
        let k = 3 * g;
        assert(k <= j < k + 3);
        lemma_cut_then_join(
            octet_or_zero(bytes, k),
            octet_or_zero(bytes, k + 1),
            octet_or_zero(bytes, k + 2),
        );
        assert(q / 4 == g && (q + 1) / 4 == g && (q + 2) / 4 == g && (q + 3) / 4 == g);
        assert(q + 1 < m);
        lemma_text_symbol(bytes, q);
        lemma_text_symbol(bytes, q + 1);
        if j % 3 == 0 {
            assert(octet(text, j) == bytes[j] as int);
        } else if j % 3 == 1 {
            assert(q + 2 < m);
            lemma_text_symbol(bytes, q + 2);
            assert(octet(text, j) == bytes[j] as int);
        } else {
            assert(q + 3 < m);
            lemma_text_symbol(bytes, q + 2);
            lemma_text_symbol(bytes, q + 3);
            assert(octet(text, j) == bytes[j] as int);
        }
        assert(back[j] == octet(text, j) as u8);
    }
    assert(back =~= bytes);
}

/// Padding that was put onto text which does not end in `=`, and whose
/// length no padding of three would be needed for, comes off again.
proof fn lemma_padding_comes_off(text: Seq<char>)
    requires
        text.len() % 4 != 1,
        text.len() > 0 ==> text.last() != '=',
    ensures
        padded(text).len() % 4 == 0,
        without_padding(padded(text)) == text,
{
    let m = text.len() as int;
    let full = padded(text);
    if m % 4 == 0 {
        assert(full =~= text);
    } else if m % 4 == 2 {
        assert(full.len() == m + 2);
        assert(full[m] == '=' && full[m + 1] == '=');
        assert(full.take(m) =~= text);
    } else {
        assert(full.len() == m + 1);
        assert(full[m] == '=');
        assert(full[m - 1] == text[m - 1]);
        assert(full.take(m) =~= text);
    }
}

/// Round-trip law: the base64 text of `bytes`, with its padding put back,
/// decodes by the standard padded decoding to exactly `bytes`.
pub proof fn lemma_round_trip(bytes: Seq<u8>)
    ensures
        decode_standard(padded(base64_no_pad(bytes))) == Some(bytes),
{
    let text = base64_no_pad(bytes);
    let m = text.len() as int;
    lemma_round_trip_no_pad(bytes);
    lemma_text_is_canonical(bytes);
    if m > 0 {
        lemma_text_symbol(bytes, m - 1);
    }
    lemma_padding_comes_off(text);
}

/// What byte `j` of the decoding of canonical text is.
proof fn lemma_decoded_octet(symbols: Seq<char>, j: int)
    requires
        is_canonical(symbols),
        0 <= j < decoded_len(symbols.len()),
    ensures
        0 <= octet(symbols, j) < 256,
        decode_no_pad(symbols).unwrap()[j] as int == octet(symbols, j),
{
    let m = symbols.len() as int;
    let q = 4 * (j / 3);
    assert(q + 1 < m);
    lemma_value_symbol(symbols[q]);
    lemma_value_symbol(symbols[q + 1]);
    if j % 3 >= 1 {
        assert(q + 2 < m);
        lemma_value_symbol(symbols[q + 2]);
    }
    if j % 3 == 2 {
        assert(q + 3 < m);
        lemma_value_symbol(symbols[q + 3]);
    }
}

/// Canonical text is the base64 text of the bytes it decodes to, so the
/// canonical texts are exactly the texts that encoding produces.
pub proof fn lemma_canonical_is_text(symbols: Seq<char>)
    requires
        is_canonical(symbols),
    ensures
        base64_no_pad(decode_no_pad(symbols).unwrap()) == symbols,
{
    let bytes = decode_no_pad(symbols).unwrap();
    let text = base64_no_pad(bytes);
    let m = symbols.len() as int;
    let n = bytes.len() as int;
    assert(n == 3 * m / 4);
    assert(text.len() == m);
    assert forall|i: int| 0 <= i < m implies text[i] == symbols[i] by {
        let g = i / 4;
        let q = 4 * g;
        let k = 3 * g;
        assert(q <= i < q + 4);
        assert(q + 1 < m);
        assert(k / 3 == g && (k + 1) / 3 == g && (k + 2) / 3 == g);
        lemma_value_symbol(symbols[q]);
        lemma_value_symbol(symbols[q + 1]);
        let s0 = symbol_value(symbols[q]);
        let s1 = symbol_value(symbols[q + 1]);
        let s2 = if q + 2 < m { symbol_value(symbols[q + 2]) } else { 0 };
        let s3 = if q + 3 < m { symbol_value(symbols[q + 3]) } else { 0 };
        if q + 2 < m {
            lemma_value_symbol(symbols[q + 2]);
        }
        if q + 3 < m {
            lemma_value_symbol(symbols[q + 3]);
        }
        lemma_join_then_cut(s0, s1, s2, s3);
        lemma_decoded_octet(symbols, k);
        assert(octet_or_zero(bytes, k) == s0 * 4 + s1 / 16);
        if q + 2 < m {
            lemma_decoded_octet(symbols, k + 1);
            assert(octet_or_zero(bytes, k + 1) == (s1 % 16) * 16 + s2 / 4);
        } else {
            assert(k + 1 >= n);
            assert(s1 % 16 == 0);
            assert(octet_or_zero(bytes, k + 1) == (s1 % 16) * 16 + s2 / 4);
        }
        if q + 3 < m {
            lemma_decoded_octet(symbols, k + 2);
            assert(octet_or_zero(bytes, k + 2) == (s2 % 4) * 64 + s3);
        } else {
            assert(k + 2 >= n);
            assert(s2 % 4 == 0);
            assert(octet_or_zero(bytes, k + 2) == (s2 % 4) * 64 + s3);
        }
        assert(sextet(bytes, i) == symbol_value(symbols[i]));
        lemma_value_symbol(symbols[i]);
    }
    assert(text =~= symbols);
}

} // verus!
