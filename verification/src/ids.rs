//! Conversation id generation.
//!
//! A fresh conversation id is `conv-<timestamp>-<hex digest>`, where the
//! digest is taken over the raw inbound message bytes concatenated with
//! the decimal rendering of the timestamp. This makes ids unpredictable
//! and time-ordered without a central counter; ids minted at different
//! times never collide ([`lemma_conversation_id_time_injective`]).

use vstd::prelude::*;
use vstd::slice::slice_to_vec;
use sha1::Digest;

verus! {

/// The decimal digit character for a value below ten.
pub open spec fn digit_char(d: nat) -> char {
    ((48 + d) as u8) as char
}

/// The decimal rendering of a number, as characters, most significant
/// digit first, without leading zeros (zero itself is `"0"`).
pub open spec fn dec_chars(n: nat) -> Seq<char>
    decreases n,
{
    if n < 10 {
        seq![digit_char(n)]
    } else {
        dec_chars(n / 10).push(digit_char(n % 10))
    }
}

/// The decimal rendering of a number, as ASCII bytes.
pub open spec fn dec_bytes(n: nat) -> Seq<u8>
    decreases n,
{
    if n < 10 {
        seq![(48 + n) as u8]
    } else {
        dec_bytes(n / 10).push((48 + n % 10) as u8)
    }
}

/// The lowercase hex digit character for a value below sixteen.
pub open spec fn hex_digit(v: u8) -> char {
    if v < 10 {
        ((48 + v) as u8) as char
    } else {
        ((87 + v) as u8) as char
    }
}

/// Lowercase hexadecimal rendering of a byte string, two digits per byte,
/// high nibble first.
pub open spec fn hex_of(bytes: Seq<u8>) -> Seq<char>
    decreases bytes.len(),
{
    if bytes.len() == 0 {
        Seq::empty()
    } else {
        hex_of(bytes.drop_last()) + seq![
            hex_digit(bytes.last() / 16),
            hex_digit(bytes.last() % 16),
        ]
    }
}

/// The SHA-1 digest of a byte string. Stated only by name: the gateway
/// relies on it being a function of the input alone.
pub uninterp spec fn sha1_of(data: Seq<u8>) -> Seq<u8>;

/// Relies on `sha1::Sha1` through the `Digest` trait: the digest depends
/// on the input bytes alone and is exactly 20 bytes long.
#[verifier::external_body]
fn sha1_digest(data: &[u8]) -> (digest: Vec<u8>)
    ensures
        digest@ == sha1_of(data@),
        digest@.len() == 20,
{
    sha1::Sha1::digest(data).to_vec()
}

/// Relies on `hex::encode`: lowercase hexadecimal, two digits per byte,
/// high nibble first.
#[verifier::external_body]
fn hex_encode(data: &[u8]) -> (s: String)
    ensures
        s@ == hex_of(data@),
{
    hex::encode(data)
}

/// Append one decimal digit character.
fn append_digit(out: &mut String, d: u64)
    requires
        d < 10,
    ensures
        final(out)@ == old(out)@.push(digit_char(d as nat)),
{
    let t: &str = match d {
        0 => "0",
        1 => "1",
        2 => "2",
        3 => "3",
        4 => "4",
        5 => "5",
        6 => "6",
        7 => "7",
        8 => "8",
        _ => "9",
    };
    proof {
        reveal_strlit("0");
        reveal_strlit("1");
        reveal_strlit("2");
        reveal_strlit("3");
        reveal_strlit("4");
        reveal_strlit("5");
        reveal_strlit("6");
        reveal_strlit("7");
        reveal_strlit("8");
        reveal_strlit("9");
        assert(old(out)@ + t@ =~= old(out)@.push(digit_char(d as nat)));
    }
    out.append(t);
}

/// Append the decimal rendering of a number.
fn append_dec(out: &mut String, n: u64)
    ensures
        final(out)@ == old(out)@ + dec_chars(n as nat),
    decreases n,
{
    if n < 10 {
        append_digit(out, n);
        proof {
            assert(final(out)@ =~= old(out)@ + dec_chars(n as nat));
        }
    } else {
        append_dec(out, n / 10);
        append_digit(out, n % 10);
        proof {
            assert(final(out)@ =~= old(out)@ + dec_chars(n as nat));
        }
    }
}

/// Append the decimal rendering of a number, as ASCII bytes.
fn append_dec_bytes(out: &mut Vec<u8>, n: u64)
    ensures
        final(out)@ == old(out)@ + dec_bytes(n as nat),
    decreases n,
{
    if n < 10 {
        out.push((48 + n) as u8);
        proof {
            assert(final(out)@ =~= old(out)@ + dec_bytes(n as nat));
        }
    } else {
        append_dec_bytes(out, n / 10);
        out.push((48 + (n % 10)) as u8);
        proof {
            assert(final(out)@ =~= old(out)@ + dec_bytes(n as nat));
        }
    }
}

/// The conversation id minted for an inbound payload at a timestamp.
pub open spec fn conversation_id_of(raw: Seq<u8>, timestamp: u64) -> Seq<char> {
    "conv-"@ + dec_chars(timestamp as nat) + "-"@ + hex_of(
        sha1_of(raw + dec_bytes(timestamp as nat)),
    )
}

proof fn lemma_hex_of_len(bytes: Seq<u8>)
    ensures
        hex_of(bytes).len() == 2 * bytes.len(),
    decreases bytes.len(),
{
    if bytes.len() > 0 {
        lemma_hex_of_len(bytes.drop_last());
    }
}

/// Mint a conversation id from the raw inbound payload and the current
/// timestamp: `conv-<timestamp>-<hex digest>`. The id is always at least
/// 47 characters long: the fixed prefix and separator, at least one
/// timestamp digit, and 40 digest digits.
pub fn generate_conversation_id(raw: &[u8], timestamp: u64) -> (id: String)
    ensures
        id@ == conversation_id_of(raw@, timestamp),
        id@.len() >= 47,
{
    let mut input: Vec<u8> = slice_to_vec(raw);
    append_dec_bytes(&mut input, timestamp);
    let digest = sha1_digest(input.as_slice());
    let hex_str = hex_encode(digest.as_slice());
    let mut id = "conv-".to_owned();
    append_dec(&mut id, timestamp);
    id.append("-");
    id.append(hex_str.as_str());
    proof {
        assert(id@ =~= conversation_id_of(raw@, timestamp));
        reveal_strlit("conv-");
        reveal_strlit("-");
        lemma_hex_of_len(digest@);
        lemma_dec_chars_are_digits(timestamp as nat);
    }
    id
}

// ---------------------------------------------------------------------------
// Ids minted at different timestamps never collide.
// ---------------------------------------------------------------------------

proof fn lemma_dec_chars_are_digits(n: nat)
    ensures
        forall|i: int| 0 <= i < dec_chars(n).len() ==> 48 <= (#[trigger] dec_chars(n)[i]) as nat
            <= 57,
        dec_chars(n).len() >= 1,
    decreases n,
{
    if n >= 10 {
        lemma_dec_chars_are_digits(n / 10);
    }
}

proof fn lemma_digit_char_value(d: nat)
    requires
        d < 10,
    ensures
        digit_char(d) as nat == 48 + d,
{
}

proof fn lemma_dec_chars_injective(n1: nat, n2: nat)
    requires
        dec_chars(n1) == dec_chars(n2),
    ensures
        n1 == n2,
    decreases n1,
{
    lemma_dec_chars_are_digits(n1);
    lemma_dec_chars_are_digits(n2);
    if n1 < 10 && n2 < 10 {
        assert(dec_chars(n1)[0] == dec_chars(n2)[0]);
    } else if n1 < 10 {
        assert(dec_chars(n2).len() >= 2) by {
            lemma_dec_chars_are_digits(n2 / 10);
        }
    } else if n2 < 10 {
        assert(dec_chars(n1).len() >= 2) by {
            lemma_dec_chars_are_digits(n1 / 10);
        }
    } else {
        assert(dec_chars(n1).last() == dec_chars(n2).last());
        assert(dec_chars(n1).last() == digit_char(n1 % 10));
        assert(dec_chars(n2).last() == digit_char(n2 % 10));
        lemma_digit_char_value(n1 % 10);
        lemma_digit_char_value(n2 % 10);
        assert(n1 % 10 == n2 % 10);
        assert(dec_chars(n1).drop_last() =~= dec_chars(n1 / 10));
        assert(dec_chars(n2).drop_last() =~= dec_chars(n2 / 10));
        lemma_dec_chars_injective(n1 / 10, n2 / 10);
    }
}

proof fn lemma_id_shape_mismatch(
    a: Seq<char>,
    b: Seq<char>,
    h1: Seq<char>,
    h2: Seq<char>,
)
    requires
        forall|i: int| 0 <= i < a.len() ==> 48 <= (#[trigger] a[i]) as nat <= 57,
        forall|i: int| 0 <= i < b.len() ==> 48 <= (#[trigger] b[i]) as nat <= 57,
        a.len() < b.len(),
    ensures
        "conv-"@ + a + "-"@ + h1 != "conv-"@ + b + "-"@ + h2,
{
    reveal_strlit("conv-");
    reveal_strlit("-");
    let s1 = "conv-"@ + a + "-"@ + h1;
    let s2 = "conv-"@ + b + "-"@ + h2;
    if s1 == s2 {
        let p = 5 + a.len() as int;
        assert(s1[p] == '-');
        assert(s2[p] == b[a.len() as int]);
        assert(48 <= s2[p] as nat <= 57);
        assert('-' as nat == 45);
        assert(false);
    }
}

proof fn lemma_hex_digit_value(v: u8)
    requires
        v < 16,
    ensures
        is_hex_digit_char(hex_digit(v)),
{
    if v < 10 {
        assert(hex_digit(v) as nat == 48 + v);
    } else {
        assert(hex_digit(v) as nat == 87 + v);
    }
}

/// Every character of a hex rendering is a lowercase hex digit.
proof fn lemma_hex_of_digits(bytes: Seq<u8>)
    ensures
        forall|i: int| 0 <= i < hex_of(bytes).len() ==> is_hex_digit_char(
            #[trigger] hex_of(bytes)[i],
        ),
    decreases bytes.len(),
{
    if bytes.len() > 0 {
        lemma_hex_of_digits(bytes.drop_last());
        lemma_hex_digit_value(bytes.last() / 16);
        lemma_hex_digit_value(bytes.last() % 16);
        let h = hex_of(bytes);
        let hp = hex_of(bytes.drop_last());
        assert forall|i: int| 0 <= i < h.len() implies is_hex_digit_char(#[trigger] h[i]) by {
            if i < hp.len() {
                assert(h[i] == hp[i]);
            } else if i == hp.len() {
                assert(h[i] == hex_digit(bytes.last() / 16));
            } else {
                assert(h[i] == hex_digit(bytes.last() % 16));
            }
        }
    }
}

/// A lowercase hexadecimal digit character.
pub open spec fn is_hex_digit_char(c: char) -> bool {
    (48 <= c as nat <= 57) || (97 <= c as nat <= 102)
}

/// A decimal digit character.
pub open spec fn is_dec_digit_char(c: char) -> bool {
    48 <= c as nat <= 57
}

/// A conversation id always matches `conv-<timestamp>-<hex>`: the fixed
/// prefix, the decimal digits of the timestamp, a separator, and the
/// lowercase hex digits of the digest.
pub proof fn lemma_conversation_id_shape(raw: Seq<u8>, timestamp: u64)
    ensures
        conversation_id_of(raw, timestamp) == "conv-"@ + dec_chars(timestamp as nat) + "-"@
            + hex_of(sha1_of(raw + dec_bytes(timestamp as nat))),
        dec_chars(timestamp as nat).len() >= 1,
        forall|i: int| 0 <= i < dec_chars(timestamp as nat).len() ==> is_dec_digit_char(
            #[trigger] dec_chars(timestamp as nat)[i],
        ),
        forall|i: int|
            0 <= i < hex_of(sha1_of(raw + dec_bytes(timestamp as nat))).len()
                ==> is_hex_digit_char(
                #[trigger] hex_of(sha1_of(raw + dec_bytes(timestamp as nat)))[i],
            ),
{
    lemma_dec_chars_are_digits(timestamp as nat);
    lemma_hex_of_digits(sha1_of(raw + dec_bytes(timestamp as nat)));
}

/// Conversation ids minted at different timestamps are always distinct,
/// whatever the two raw payloads were: the timestamp is embedded in the
/// id, and the digest that follows it contains no separator that could
/// make two renderings align.
pub proof fn lemma_conversation_id_time_injective(
    raw1: Seq<u8>,
    t1: u64,
    raw2: Seq<u8>,
    t2: u64,
)
    requires
        t1 != t2,
    ensures
        conversation_id_of(raw1, t1) != conversation_id_of(raw2, t2),
{
    let a = dec_chars(t1 as nat);
    let b = dec_chars(t2 as nat);
    let h1 = hex_of(sha1_of(raw1 + dec_bytes(t1 as nat)));
    let h2 = hex_of(sha1_of(raw2 + dec_bytes(t2 as nat)));
    lemma_dec_chars_are_digits(t1 as nat);
    lemma_dec_chars_are_digits(t2 as nat);
    if a.len() < b.len() {
        lemma_id_shape_mismatch(a, b, h1, h2);
    } else if b.len() < a.len() {
        lemma_id_shape_mismatch(b, a, h2, h1);
    } else {
        if conversation_id_of(raw1, t1) == conversation_id_of(raw2, t2) {
            reveal_strlit("conv-");
            let s1 = "conv-"@ + a + "-"@ + h1;
            let s2 = "conv-"@ + b + "-"@ + h2;
            assert forall|i: int| 0 <= i < a.len() implies a[i] == b[i] by {
                assert(s1[5 + i] == a[i]);
                assert(s2[5 + i] == b[i]);
            }
            assert(a =~= b);
            lemma_dec_chars_injective(t1 as nat, t2 as nat);
            assert(false);
        }
    }
}

} // verus!
