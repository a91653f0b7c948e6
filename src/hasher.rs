//! Salted, memory-hard password hashing rendered as lower-case hex.

use vstd::prelude::*;
use vstd::utf8::{encode_utf8, encode_utf8_decode_utf8};

verus! {

/// What Argon2i (default parameters, 32-byte output) yields for a password and a salt.
pub uninterp spec fn argon2i_digest(password: Seq<char>, salt: Seq<char>) -> Seq<u8>;

/// Length of a text in UTF-8 bytes.
pub open spec fn utf8_len(s: Seq<char>) -> int {
    encode_utf8(s).len() as int
}

/// A salt that Argon2i accepts: between 8 and 2^32 - 1 bytes.
pub open spec fn salt_ok(salt: Seq<char>) -> bool {
    8 <= utf8_len(salt) <= 0xffff_ffff
}

/// A password that Argon2i accepts: at most 2^32 - 1 bytes.
pub open spec fn password_ok(password: Seq<char>) -> bool {
    utf8_len(password) <= 0xffff_ffff
}

/// The lower-case hex digit of a value below 16.
pub open spec fn hex_digit(n: u8) -> char {
    seq!['0', '1', '2', '3', '4', '5', '6', '7', '8', '9', 'a', 'b', 'c', 'd', 'e', 'f'][n as int]
}

/// A digit of lower-case hex.
pub open spec fn is_lower_hex(c: char) -> bool {
    ('0' <= c && c <= '9') || ('a' <= c && c <= 'f')
}

/// Text in the shape of a digest: 64 lower-case hex digits.
pub open spec fn is_digest_text(s: Seq<char>) -> bool {
    &&& s.len() == 64
    &&& forall|i: int| 0 <= i < s.len() ==> is_lower_hex(#[trigger] s[i])
}

/// Two lower-case hex digits per byte, most significant nibble first.
pub open spec fn hex_of(bytes: Seq<u8>) -> Seq<char>
    decreases bytes.len(),
{
    if bytes.len() == 0 {
        Seq::empty()
    } else {
        let b = bytes.last();
        hex_of(bytes.drop_last()) + seq![hex_digit(b / 16), hex_digit(b % 16)]
    }
}

/// The stored form of a password under a salt.
pub open spec fn digest_of(password: Seq<char>, salt: Seq<char>) -> Seq<char> {
    hex_of(argon2i_digest(password, salt))
}

/// Relies on argon2rs::argon2i_simple: the 32-byte Argon2i hash of the
/// password's bytes under the salt's bytes; it asserts a salt of 8 to
/// 2^32 - 1 bytes and a password of at most 2^32 - 1 bytes.
#[verifier::external_body]
fn argon2i(password: &str, salt: &str) -> (r: Vec<u8>)
    requires
        salt_ok(salt@),
        password_ok(password@),
    ensures
        r@ == argon2i_digest(password@, salt@),
        r@.len() == 32,
{
    argon2rs::argon2i_simple(password, salt).to_vec()
}

/// Relies on String::push: appends one character.
#[verifier::external_body]
fn push_char(s: &mut String, c: char)
    ensures
        final(s)@ == old(s)@.push(c),
{
    s.push(c)
}

fn hex_char(n: u8) -> (c: char)
    requires
        n < 16,
    ensures
        c == hex_digit(n),
{
    if n < 10 {
        (48u8 + n) as char
    } else {
        (87u8 + n) as char
    }
}

/// Encodes bytes as lower-case hex, two digits per byte.
pub fn encode_hex(bytes: &Vec<u8>) -> (r: String)
    requires
        bytes@.len() <= usize::MAX / 2,
    ensures
        r@ == hex_of(bytes@),
{
    let mut out = String::new();
    let mut i: usize = 0;
    while i < bytes.len()
        invariant
            i <= bytes@.len(),
            out@ == hex_of(bytes@.subrange(0, i as int)),
        decreases bytes@.len() - i,
    {
        let b = bytes[i];
        push_char(&mut out, hex_char(b / 16));
        push_char(&mut out, hex_char(b % 16));
        proof {
            let next = bytes@.subrange(0, i + 1);
            assert(next.drop_last() =~= bytes@.subrange(0, i as int));
            assert(next.last() == b);
        }
        i = i + 1;
    }
    assert(bytes@.subrange(0, i as int) =~= bytes@);
    out
}

/// The process-wide hashing secret, checked once when it is loaded.
pub struct HashConfig {
    pub salt: String,
}

impl HashConfig {
    /// Accepts a salt that the hash function can use; `None` otherwise, so
    /// that a missing or unusable secret is caught before any request.
    pub fn new(salt: &str) -> (r: Option<HashConfig>)
        ensures
            r is Some <==> salt_ok(salt@),
            r matches Some(c) ==> c.salt@ == salt@,
    {
        let n = salt.as_bytes().len();
        if 8 <= n && n <= 0xffff_ffff {
            Some(HashConfig { salt: salt.to_owned() })
        } else {
            None
        }
    }

    pub open spec fn valid(&self) -> bool {
        salt_ok(self.salt@)
    }
}

/// Hashes a password under the configured salt: Argon2i, then lower-case hex.
pub fn hash(config: &HashConfig, password: &str) -> (r: String)
    requires
        config.valid(),
        password_ok(password@),
    ensures
        r@ == digest_of(password@, config.salt@),
        r@.len() == 64,
        forall|i: int| 0 <= i < r@.len() ==> is_lower_hex(#[trigger] r@[i]),
        is_digest_text(r@),
{
    let raw = argon2i(password, config.salt.as_str());
    proof {
        lemma_hex_len(raw@);
        lemma_hex_is_lower_hex(raw@);
    }
    encode_hex(&raw)
}

/// Compares two texts in time that depends on their lengths alone, not on
/// where they first differ: every byte pair is looked at.
pub fn constant_time_eq(a: &str, b: &str) -> (r: bool)
    ensures
        r == (a@ == b@),
{
    let x = a.as_bytes();
    let y = b.as_bytes();
    proof {
        encode_utf8_decode_utf8(a@);
        encode_utf8_decode_utf8(b@);
    }
    if x.len() != y.len() {
        return false;
    }
    let mut diff: u8 = 0;
    let mut i: usize = 0;
    while i < x.len()
        invariant
            x@.len() == y@.len(),
            i <= x@.len(),
            (diff == 0) == (x@.subrange(0, i as int) =~= y@.subrange(0, i as int)),
        decreases x@.len() - i,
    {
        let p = x[i];
        let q = y[i];
        let next: u8 = diff | (p ^ q);
        assert((next == 0) == (diff == 0 && p == q)) by (bit_vector)
            requires
                next == diff | (p ^ q),
        ;
        proof {
            let xs = x@.subrange(0, i + 1);
            let ys = y@.subrange(0, i + 1);
            assert(xs =~= x@.subrange(0, i as int).push(p));
            assert(ys =~= y@.subrange(0, i as int).push(q));
            if xs =~= ys {
                assert(xs.drop_last() =~= ys.drop_last());
                assert(xs.last() == ys.last());
            }
        }
        diff = next;
        i = i + 1;
    }
    assert(x@.subrange(0, i as int) =~= x@);
    assert(y@.subrange(0, i as int) =~= y@);
    diff == 0
}

/// The digest is a function of the password and the salt: hashing the same
/// password under the same salt twice gives the same text.
pub proof fn lemma_hash_deterministic(password: Seq<char>, salt1: Seq<char>, salt2: Seq<char>)
    requires
        salt1 == salt2,
    ensures
        digest_of(password, salt1) == digest_of(password, salt2),
{
}

/// The sixteen digits of the table, one by one.
proof fn lemma_hex_digit_table()
    ensures
        hex_digit(0) == '0' && hex_digit(1) == '1' && hex_digit(2) == '2' && hex_digit(3) == '3',
        hex_digit(4) == '4' && hex_digit(5) == '5' && hex_digit(6) == '6' && hex_digit(7) == '7',
        hex_digit(8) == '8' && hex_digit(9) == '9' && hex_digit(10) == 'a' && hex_digit(11) == 'b',
        hex_digit(12) == 'c' && hex_digit(13) == 'd' && hex_digit(14) == 'e' && hex_digit(15) == 'f',
{
    let s = seq!['0', '1', '2', '3', '4', '5', '6', '7', '8', '9', 'a', 'b', 'c', 'd', 'e', 'f'];
    assert(s[0] == '0' && s[1] == '1' && s[2] == '2' && s[3] == '3');
    assert(s[4] == '4' && s[5] == '5' && s[6] == '6' && s[7] == '7');
    assert(s[8] == '8' && s[9] == '9' && s[10] == 'a' && s[11] == 'b');
    assert(s[12] == 'c' && s[13] == 'd' && s[14] == 'e' && s[15] == 'f');
}

proof fn lemma_hex_digit_injective(n: u8, m: u8)
    requires
        n < 16,
        m < 16,
        hex_digit(n) == hex_digit(m),
    ensures
        n == m,
{
    lemma_hex_digit_table();
}

proof fn lemma_hex_digit_is_lower_hex(n: u8)
    requires
        n < 16,
    ensures
        is_lower_hex(hex_digit(n)),
{
    lemma_hex_digit_table();
}

/// Every character of a hex rendering is a lower-case hex digit.
pub proof fn lemma_hex_is_lower_hex(bytes: Seq<u8>)
    ensures
        forall|i: int| 0 <= i < hex_of(bytes).len() ==> is_lower_hex(#[trigger] hex_of(bytes)[i]),
    decreases bytes.len(),
{
    if bytes.len() > 0 {
        let b = bytes.last();
        lemma_hex_is_lower_hex(bytes.drop_last());
        lemma_hex_digit_is_lower_hex(b / 16);
        lemma_hex_digit_is_lower_hex(b % 16);
        let prefix = hex_of(bytes.drop_last());
        let h = hex_of(bytes);
        assert forall|i: int| 0 <= i < h.len() implies is_lower_hex(#[trigger] h[i]) by {
            if i < prefix.len() {
                assert(h[i] == prefix[i]);
            }
        }
    }
}

proof fn lemma_hex_len(bytes: Seq<u8>)
    ensures
        hex_of(bytes).len() == 2 * bytes.len(),
    decreases bytes.len(),
{
    if bytes.len() > 0 {
        lemma_hex_len(bytes.drop_last());
    }
}

/// Hex encoding loses nothing: equal encodings come from equal bytes.
pub proof fn lemma_hex_injective(a: Seq<u8>, b: Seq<u8>)
    requires
        hex_of(a) == hex_of(b),
    ensures
        a == b,
    decreases a.len(),
{
    lemma_hex_len(a);
    lemma_hex_len(b);
    if a.len() > 0 {
        let (x, y) = (a.last(), b.last());
        let (ha, hb) = (hex_of(a), hex_of(b));
        let n = ha.len();
        assert(ha[n - 2] == hex_digit(x / 16) && ha[n - 1] == hex_digit(x % 16));
        assert(hb[n - 2] == hex_digit(y / 16) && hb[n - 1] == hex_digit(y % 16));
        lemma_hex_digit_injective(x / 16, y / 16);
        lemma_hex_digit_injective(x % 16, y % 16);
        lemma_hex_len(a.drop_last());
        lemma_hex_len(b.drop_last());
        assert(hex_of(a.drop_last()) =~= ha.subrange(0, n - 2));
        assert(hex_of(b.drop_last()) =~= hb.subrange(0, n - 2));
        lemma_hex_injective(a.drop_last(), b.drop_last());
        assert(a =~= a.drop_last().push(x));
        assert(b =~= b.drop_last().push(y));
    } else {
        assert(a =~= b);
    }
}

/// A salt under which Argon2i gives a password another output gives it
/// another stored digest: the hex rendering never merges two outputs.
pub proof fn lemma_salt_change_shows_in_digest(password: Seq<char>, salt1: Seq<char>, salt2: Seq<char>)
    requires
        argon2i_digest(password, salt1) != argon2i_digest(password, salt2),
    ensures
        digest_of(password, salt1) != digest_of(password, salt2),
{
    if digest_of(password, salt1) == digest_of(password, salt2) {
        lemma_hex_injective(argon2i_digest(password, salt1), argon2i_digest(password, salt2));
    }
}

} // verus!
