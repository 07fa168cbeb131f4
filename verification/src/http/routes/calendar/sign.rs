//! The `DS` header that HoYoLab's calendar endpoints ask for: a timestamp, a
//! nonce and the MD5 digest of a salted message.

use vstd::prelude::*;
use crate::clock::{now_timestamp, subsec_nanos_now, timestamp_bound};
use crate::text::{append_str, push_signed_decimal, signed_decimal, string_of};

verus! {

/// The character at position `k` of the nonce alphabet: `A`..`Z`, then
/// `a`..`z`, then `0`..`9`.
pub open spec fn nonce_char(k: nat) -> char {
    if k < 26 {
        ((k + 65) as u8) as char
    } else if k < 52 {
        ((k - 26 + 97) as u8) as char
    } else {
        ((k - 52 + 48) as u8) as char
    }
}

/// The six-character nonce drawn from a nanosecond reading: character `i` is
/// the alphabet's character at `(nanos + 7919 * i) % 62`.
pub open spec fn spec_nonce(nanos: nat) -> Seq<char> {
    Seq::new(6, |i: int| nonce_char(((nanos + 7919 * i) % 62) as nat))
}

fn nonce_char_at(k: u32) -> (c: char)
    requires
        k < 62,
    ensures
        c == nonce_char(k as nat),
{
    let b: u8 = k as u8;
    if b < 26 {
        (b + 65) as char
    } else if b < 52 {
        (b - 26 + 97) as char
    } else {
        (b - 52 + 48) as char
    }
}

/// The nonce drawn from the nanoseconds `nanos` of a clock reading.
pub fn nonce_from_nanos(nanos: u32) -> (r: String)
    requires
        nanos < 1_000_000_000,
    ensures
        r@ == spec_nonce(nanos as nat),
{
    let mut v: Vec<char> = Vec::new();
    let mut i: u32 = 0;
    while i < 6
        invariant
            i <= 6,
            nanos < 1_000_000_000,
            v@ == spec_nonce(nanos as nat).take(i as int),
        decreases 6 - i,
    {
        let k: u32 = (nanos + i * 7919) % 62;
        v.push(nonce_char_at(k));
        i = i + 1;
        assert(v@ =~= spec_nonce(nanos as nat).take(i as int));
    }
    assert(v@ =~= spec_nonce(nanos as nat));
    string_of(&v)
}

/// A fresh request nonce, drawn from the nanoseconds of the system clock
/// (zero for a clock that reads before 1970). Which nonce comes back depends
/// on the time.
pub fn random_r() -> (r: String)
    ensures
        exists|n: nat| n < 1_000_000_000 && r@ == #[trigger] spec_nonce(n),
{
    let nanos = subsec_nanos_now();
    nonce_from_nanos(nanos)
}

/// The MD5 digest of a byte string, as `md5::compute` gives it.
pub uninterp spec fn spec_md5(data: Seq<u8>) -> Seq<u8>;

/// `md5::compute`: the 16-byte MD5 digest of `data`. The contract names the
/// digest and states its length; the digest itself is not written out.
#[verifier::external_body]
fn md5_digest(data: &[u8]) -> (d: Vec<u8>)
    ensures
        d@ == spec_md5(data@),
        d@.len() == 16,
{
    md5::compute(data).0.to_vec()
}

/// The lowercase hexadecimal digit of `d < 16`.
pub open spec fn hex_digit(d: nat) -> char {
    if d < 10 {
        ((d + 48) as u8) as char
    } else {
        ((d - 10 + 97) as u8) as char
    }
}

/// Bytes in lowercase hexadecimal, two digits per byte, as the `{:x}` format
/// of an MD5 digest writes them.
pub open spec fn lower_hex(bytes: Seq<u8>) -> Seq<char>
    decreases bytes.len(),
{
    if bytes.len() == 0 {
        Seq::empty()
    } else {
        lower_hex(bytes.drop_last()) + seq![
            hex_digit((bytes.last() / 16) as nat),
            hex_digit((bytes.last() % 16) as nat),
        ]
    }
}

fn hex_digit_of(d: u8) -> (c: char)
    requires
        d < 16,
    ensures
        c == hex_digit(d as nat),
{
    if d < 10 {
        (d + 48) as char
    } else {
        (d - 10 + 97) as char
    }
}

/// Appends `bytes` in lowercase hexadecimal to `out`.
pub fn push_lower_hex(out: &mut Vec<char>, bytes: &[u8])
    ensures
        final(out)@ == old(out)@ + lower_hex(bytes@),
{
    let ghost start = out@;
    let mut i: usize = 0;
    while i < bytes.len()
        invariant
            i <= bytes@.len(),
            out@ == start + lower_hex(bytes@.take(i as int)),
        decreases bytes@.len() - i,
    {
        let b = bytes[i];
        out.push(hex_digit_of(b / 16));
        out.push(hex_digit_of(b % 16));
        proof {
            assert(bytes@.take(i + 1).drop_last() =~= bytes@.take(i as int));
        }
        i = i + 1;
        assert(out@ =~= start + lower_hex(bytes@.take(i as int)));
    }
    assert(bytes@.take(bytes@.len() as int) =~= bytes@);
}

/// The MD5 digest of the UTF-8 bytes of `message`, in lowercase hexadecimal.
pub fn message_digest(message: &str) -> (r: String)
    ensures
        r@ == lower_hex(spec_md5(vstd::utf8::encode_utf8(message@))),
        r@.len() == 32,
{
    let digest = md5_digest(message.as_bytes());
    let mut out: Vec<char> = Vec::new();
    push_lower_hex(&mut out, digest.as_slice());
    proof {
        lemma_lower_hex_len(digest@);
    }
    string_of(&out)
}

proof fn lemma_lower_hex_len(bytes: Seq<u8>)
    ensures
        lower_hex(bytes).len() == 2 * bytes.len(),
    decreases bytes.len(),
{
    if bytes.len() > 0 {
        lemma_lower_hex_len(bytes.drop_last());
    }
}

/// The `DS` value `"{t},{r},{digest}"`.
pub open spec fn ds_value(t: int, r: Seq<char>, digest: Seq<char>) -> Seq<char> {
    signed_decimal(t) + ","@ + r + ","@ + digest
}

/// Joins a timestamp, a nonce and a digest into a `DS` value.
pub fn ds_token(t: i64, r: &str, digest: &str) -> (s: String)
    ensures
        s@ == ds_value(t as int, r@, digest@),
{
    let mut v: Vec<char> = Vec::new();
    push_signed_decimal(&mut v, t);
    append_str(&mut v, ",");
    append_str(&mut v, r);
    append_str(&mut v, ",");
    append_str(&mut v, digest);
    string_of(&v)
}

/// The salted message of a Genshin Impact calendar request with body `body`.
pub open spec fn genshin_ds_message(t: int, r: Seq<char>, body: Seq<char>) -> Seq<char> {
    "salt=xV8v4Qu54lUKrEYFZkJhB8cuOh9Asafs&t="@ + signed_decimal(t) + "&r="@ + r + "&b="@ + body + "&q="@
}

/// The salted message of a Honkai: Star Rail calendar request.
pub open spec fn starrail_ds_message(t: int, r: Seq<char>) -> Seq<char> {
    "salt=6s25p5ox5y14umn1p61aqyyvbvvl3lrt&t="@ + signed_decimal(t) + "&r="@ + r
}

/// The `DS` value signed over `message`, at time `t` with nonce `r`.
pub open spec fn signed_ds(t: int, r: Seq<char>, message: Seq<char>) -> Seq<char> {
    ds_value(t, r, lower_hex(spec_md5(vstd::utf8::encode_utf8(message))))
}

/// The `DS` value of a Genshin Impact request made at `t` with nonce `r`.
pub fn genshin_ds_at(t: i64, r: &str, body: &str) -> (s: String)
    ensures
        s@ == signed_ds(t as int, r@, genshin_ds_message(t as int, r@, body@)),
{
    let mut m: Vec<char> = Vec::new();
    append_str(&mut m, "salt=xV8v4Qu54lUKrEYFZkJhB8cuOh9Asafs&t=");
    push_signed_decimal(&mut m, t);
    append_str(&mut m, "&r=");
    append_str(&mut m, r);
    append_str(&mut m, "&b=");
    append_str(&mut m, body);
    append_str(&mut m, "&q=");
    let message = string_of(&m);
    let digest = message_digest(message.as_str());
    ds_token(t, r, digest.as_str())
}

/// The `DS` value of a Honkai: Star Rail request made at `t` with nonce `r`.
pub fn starrail_ds_at(t: i64, r: &str) -> (s: String)
    ensures
        s@ == signed_ds(t as int, r@, starrail_ds_message(t as int, r@)),
{
    let mut m: Vec<char> = Vec::new();
    append_str(&mut m, "salt=6s25p5ox5y14umn1p61aqyyvbvvl3lrt&t=");
    push_signed_decimal(&mut m, t);
    append_str(&mut m, "&r=");
    append_str(&mut m, r);
    let message = string_of(&m);
    let digest = message_digest(message.as_str());
    ds_token(t, r, digest.as_str())
}

/// The `DS` header of a Genshin Impact calendar request with body `body`,
/// signed now with a fresh nonce; `None` when the clock gives no time.
pub fn generate_ds_genshin(body: &str) -> (s: Option<String>)
    ensures
        s matches Some(v) ==> exists|t: int, n: nat|
            0 <= t <= timestamp_bound() && n < 1_000_000_000
            && v@ == #[trigger] signed_ds(t, spec_nonce(n), genshin_ds_message(t, spec_nonce(n), body@)),
{
    let t = match now_timestamp() {
        Some(t) => t,
        None => return None,
    };
    let r = random_r();
    let s = genshin_ds_at(t, r.as_str(), body);
    proof {
        let n = choose|n: nat| n < 1_000_000_000 && r@ == #[trigger] spec_nonce(n);
        assert(s@ == signed_ds(t as int, spec_nonce(n), genshin_ds_message(t as int, spec_nonce(n), body@)));
    }
    Some(s)
}

/// The `DS` header of a Honkai: Star Rail calendar request, signed now with
/// a fresh nonce; `None` when the clock gives no time.
pub fn generate_ds_starrail() -> (s: Option<String>)
    ensures
        s matches Some(v) ==> exists|t: int, n: nat|
            0 <= t <= timestamp_bound() && n < 1_000_000_000
            && v@ == #[trigger] signed_ds(t, spec_nonce(n), starrail_ds_message(t, spec_nonce(n))),
{
    let t = match now_timestamp() {
        Some(t) => t,
        None => return None,
    };
    let r = random_r();
    let s = starrail_ds_at(t, r.as_str());
    proof {
        let n = choose|n: nat| n < 1_000_000_000 && r@ == #[trigger] spec_nonce(n);
        assert(s@ == signed_ds(t as int, spec_nonce(n), starrail_ds_message(t as int, spec_nonce(n))));
    }
    Some(s)
}

} // verus!
