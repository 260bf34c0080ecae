//! Identifiers: opaque 128-bit keys with a base-62 textual form.

use vstd::prelude::*;

verus! {

/// The value of a byte string read as a big-endian number.
pub open spec fn be_value(bytes: Seq<u8>) -> nat
    decreases bytes.len(),
{
    if bytes.len() == 0 {
        0
    } else {
        be_value(bytes.drop_last()) * 256 + bytes.last() as nat
    }
}

/// The shortest big-endian byte string of a number; one zero byte for zero.
pub open spec fn be_bytes(n: nat) -> Seq<u8>
    decreases n,
{
    if n < 256 {
        seq![n as u8]
    } else {
        be_bytes(n / 256).push((n % 256) as u8)
    }
}

/// The big-endian byte string of `n` in exactly `width` bytes.
pub open spec fn be_fixed(n: nat, width: nat) -> Seq<u8>
    decreases width,
{
    if width == 0 {
        Seq::<u8>::empty()
    } else {
        be_fixed(n / 256, (width - 1) as nat).push((n % 256) as u8)
    }
}

/// 256 to the power `e`.
pub open spec fn pow256(e: nat) -> nat
    decreases e,
{
    if e == 0 {
        1
    } else {
        256 * pow256((e - 1) as nat)
    }
}

/// The base-62 alphabet: digits, then upper case, then lower case.
pub open spec fn base62_char(d: nat) -> char
    recommends
        d < 62,
{
    if d < 10 {
        (('0' as u8) + d) as char
    } else if d < 36 {
        (('A' as u8) + d - 10) as char
    } else {
        (('a' as u8) + d - 36) as char
    }
}

/// The place of a character in the base-62 alphabet, if it has one.
pub open spec fn base62_digit(c: char) -> Option<nat> {
    if '0' <= c && c <= '9' {
        Some((c as u32 - '0' as u32) as nat)
    } else if 'A' <= c && c <= 'Z' {
        Some((c as u32 - 'A' as u32 + 10) as nat)
    } else if 'a' <= c && c <= 'z' {
        Some((c as u32 - 'a' as u32 + 36) as nat)
    } else {
        None
    }
}

/// The base-62 digits of a number, least significant first; nothing for zero.
pub open spec fn base62_digits(n: nat) -> Seq<char>
    decreases n,
{
    if n == 0 {
        Seq::<char>::empty()
    } else {
        seq![base62_char(n % 62)] + base62_digits(n / 62)
    }
}

/// Every character belongs to the base-62 alphabet.
pub open spec fn base62_valid(s: Seq<char>) -> bool {
    forall|i: int| 0 <= i < s.len() ==> (#[trigger] base62_digit(s[i])).is_some()
}

/// The number that a string of base-62 digits stands for, least significant
/// digit first.
pub open spec fn base62_value(s: Seq<char>) -> nat
    decreases s.len(),
{
    if s.len() == 0 {
        0
    } else {
        base62_digit(s[0]).unwrap_or(0) + 62 * base62_value(s.drop_first())
    }
}

/// The base-62 text of a byte string: the bytes, with a byte `1` put in
/// front, are read as a big-endian number, whose digits are written least
/// significant first. The empty byte string has the empty text.
pub open spec fn base62_encoded(bytes: Seq<u8>) -> Seq<char> {
    if bytes.len() == 0 {
        Seq::<char>::empty()
    } else {
        base62_digits(be_value(seq![1u8] + bytes))
    }
}

/// The byte string that a base-62 text stands for: the big-endian bytes of
/// its number without the first one.
pub open spec fn base62_decoded(s: Seq<char>) -> Seq<u8> {
    be_bytes(base62_value(s)).drop_first()
}

/// The error of the base-62 decoder.
#[verifier::external_type_specification]
#[verifier::external_body]
pub struct ExBase62Error(base_62::Error);

/// The error of the operating system's random source.
#[verifier::external_type_specification]
#[verifier::external_body]
pub struct ExOsError(rand_core::OsError);

/// Calls `base_62::encode`. Its documentation describes the text: a byte `1`
/// is put before the bytes, the whole is read as a big-endian number, and the
/// remainders of repeated division by 62 index the alphabet; empty input
/// gives empty text.
#[verifier::external_body]
pub(crate) fn base62_encode(bytes: &[u8]) -> (s: String)
    ensures
        s@ == base62_encoded(bytes@),
{
    base_62::encode(bytes)
}

/// Calls `base_62::decode`. It fails exactly on a character outside the
/// alphabet; otherwise it sums the digits, least significant first, and
/// returns the big-endian bytes of the sum without the first byte.
#[verifier::external_body]
pub(crate) fn base62_decode(s: &str) -> (r: Result<Vec<u8>, base_62::Error>)
    ensures
        r.is_ok() == base62_valid(s@),
        r.is_ok() ==> r.unwrap()@ == base62_decoded(s@),
{
    base_62::decode(s)
}

/// Calls `OsRng::try_fill_bytes` of `rand_core` on a fresh buffer of `n`
/// bytes. Only the length of the buffer is known.
#[verifier::external_body]
pub(crate) fn os_random_bytes(n: usize) -> (r: Result<Vec<u8>, rand_core::OsError>)
    ensures
        r.is_ok() ==> r.unwrap()@.len() == n,
{
    let mut buffer = vec![0u8; n];
    rand_core::TryRngCore::try_fill_bytes(&mut rand_core::OsRng, &mut buffer).map(|_| buffer)
}

/// The digits of a number are valid and stand for that number.
pub proof fn lemma_base62_digits_value(n: nat)
    ensures
        base62_valid(base62_digits(n)),
        base62_value(base62_digits(n)) == n,
    decreases n,
{
    if n != 0 {
        lemma_base62_digits_value(n / 62);
        let d = n % 62;
        let c = base62_char(d);
        let s = base62_digits(n);
        let rest = base62_digits(n / 62);
        assert(base62_digit(c) == Some(d));
        assert(s.drop_first() =~= rest);
        assert(s[0] == c);
        assert forall|i: int| 0 <= i < s.len() implies (#[trigger] base62_digit(s[i])).is_some() by {
            if i > 0 {
                assert(s[i] == rest[i - 1]);
            }
        }
    }
}

/// A byte string that does not start with a zero byte is the shortest
/// big-endian form of its value.
pub proof fn lemma_be_bytes_of_value(s: Seq<u8>)
    requires
        s.len() > 0,
        s[0] != 0,
    ensures
        be_bytes(be_value(s)) == s,
        be_value(s) >= 1,
    decreases s.len(),
{
    let t = s.drop_last();
    let x = s.last();
    if s.len() == 1 {
        assert(t.len() == 0);
        assert(be_value(t) == 0);
        assert(be_value(s) == x as nat);
        assert(be_bytes(x as nat) =~= s);
    } else {
        assert(t[0] == s[0]);
        lemma_be_bytes_of_value(t);
        let n = be_value(s);
        assert(n == be_value(t) * 256 + x as nat);
        assert(n / 256 == be_value(t));
        assert(n % 256 == x as nat);
        assert(be_bytes(n) =~= t.push(x));
        assert(t.push(x) =~= s);
    }
}

/// Decoding the text of a byte string gives the byte string back.
pub proof fn lemma_base62_round_trip(bytes: Seq<u8>)
    ensures
        base62_valid(base62_encoded(bytes)),
        base62_decoded(base62_encoded(bytes)) == bytes,
{
    if bytes.len() == 0 {
        assert(base62_value(Seq::<char>::empty()) == 0);
        assert(be_bytes(0) =~= seq![0u8]);
        assert(seq![0u8].drop_first() =~= bytes);
    } else {
        let framed = seq![1u8] + bytes;
        lemma_base62_digits_value(be_value(framed));
        lemma_be_bytes_of_value(framed);
        assert(framed.drop_first() =~= bytes);
    }
}

/// A number below `256^width` is the value of its fixed-width form.
pub proof fn lemma_be_value_of_fixed(n: nat, width: nat)
    requires
        n < pow256(width),
    ensures
        be_value(be_fixed(n, width)) == n,
        be_fixed(n, width).len() == width,
    decreases width,
{
    if width > 0 {
        let w = (width - 1) as nat;
        assert(n / 256 < pow256(w));
        lemma_be_value_of_fixed(n / 256, w);
        let s = be_fixed(n, width);
        assert(s.drop_last() =~= be_fixed(n / 256, w));
        assert(s.last() == (n % 256) as u8);
    }
}

/// A byte string is the fixed-width form of its value, which is below
/// `256^len`.
pub proof fn lemma_be_fixed_of_value(s: Seq<u8>)
    ensures
        be_fixed(be_value(s), s.len()) == s,
        be_value(s) < pow256(s.len()),
    decreases s.len(),
{
    if s.len() > 0 {
        let t = s.drop_last();
        let x = s.last();
        lemma_be_fixed_of_value(t);
        let n = be_value(s);
        assert(n / 256 == be_value(t));
        assert(n % 256 == x as nat);
        assert(be_fixed(n, s.len()) =~= t.push(x));
        assert(t.push(x) =~= s);
    } else {
        assert(be_fixed(be_value(s), 0) =~= s);
    }
}

/// `256^16` is `2^128`.
pub proof fn lemma_pow256_16()
    ensures
        pow256(16) == 0x1_0000_0000_0000_0000_0000_0000_0000_0000,
{
    reveal_with_fuel(pow256, 17);
}

/// Why an identifier could not be made.
#[derive(Debug, Clone, Copy, PartialEq, Eq, Structural)]
pub enum IdError {
    /// The text holds a character outside the base-62 alphabet.
    BadCharacter,
    /// The text stands for a byte string that is not 16 bytes long.
    BadLength,
    /// The operating system gave no random bytes.
    NoEntropy,
}

/// An opaque 128-bit key. Two identifiers are equal when their numbers are.
#[derive(Debug, Copy, Clone, PartialEq, Eq, Hash, Structural)]
pub struct Id(pub u128);

impl View for Id {
    type V = u128;

    open spec fn view(&self) -> u128 {
        self.0
    }
}

/// The 16 big-endian bytes of an identifier's number.
pub open spec fn id_bytes(value: u128) -> Seq<u8> {
    be_fixed(value as nat, 16)
}

/// The canonical text of an identifier: the base-62 text of its 16 bytes.
pub open spec fn id_text(value: u128) -> Seq<char> {
    base62_encoded(id_bytes(value))
}

/// What parsing a text as an identifier gives.
pub open spec fn id_parsed(s: Seq<char>) -> Result<u128, IdError> {
    if !base62_valid(s) {
        Err(IdError::BadCharacter)
    } else if base62_decoded(s).len() != 16 {
        Err(IdError::BadLength)
    } else {
        Ok(be_value(base62_decoded(s)) as u128)
    }
}

/// The number of 16 big-endian bytes.
pub fn value_of_bytes(bytes: &[u8]) -> (value: u128)
    requires
        bytes@.len() == 16,
    ensures
        value as nat == be_value(bytes@),
        id_bytes(value) == bytes@,
{
    let mut acc: u128 = 0;
    let mut i: usize = 0;
    proof {
        assert(bytes@.subrange(0, 0) =~= Seq::<u8>::empty());
        lemma_pow256_16();
        reveal_with_fuel(pow256, 17);
    }
    while i < 16
        invariant
            i <= 16,
            bytes@.len() == 16,
            acc as nat == be_value(bytes@.subrange(0, i as int)),
            (acc as nat) < pow256(i as nat),
            pow256(16) == 0x1_0000_0000_0000_0000_0000_0000_0000_0000,
        decreases 16 - i,
    {
        let b: u8 = bytes[i];
        proof {
            let next = bytes@.subrange(0, i + 1);
            assert(next.drop_last() =~= bytes@.subrange(0, i as int));
            assert(next.last() == b);
            lemma_pow256_step_bound(acc as nat, b, i as nat);
            lemma_pow256_monotonic((i + 1) as nat, 16);
        }
        acc = acc * 256 + (b as u128);
        i = i + 1;
    }
    proof {
        assert(bytes@.subrange(0, 16) =~= bytes@);
        lemma_be_fixed_of_value(bytes@);
    }
    acc
}

/// One more byte keeps a value below the next power of 256.
pub proof fn lemma_pow256_step_bound(acc: nat, b: u8, i: nat)
    requires
        acc < pow256(i),
    ensures
        acc * 256 + (b as nat) < pow256(i + 1),
{
    assert(pow256(i + 1) == 256 * pow256(i));
    assert(acc + 1 <= pow256(i));
    assert((acc + 1) * 256 <= pow256(i) * 256) by (nonlinear_arith)
        requires
            acc + 1 <= pow256(i),
    ;
}

/// Powers of 256 grow with the exponent.
pub proof fn lemma_pow256_monotonic(a: nat, b: nat)
    requires
        a <= b,
    ensures
        pow256(a) <= pow256(b),
        pow256(a) >= 1,
    decreases b,
{
    if a < b {
        lemma_pow256_monotonic(a, (b - 1) as nat);
    } else if a > 0 {
        lemma_pow256_monotonic((a - 1) as nat, (b - 1) as nat);
    }
}

impl Id {
    /// The identifier whose number the 16 big-endian bytes spell.
    pub fn from_bytes(bytes: [u8; 16]) -> (id: Id)
        ensures
            id@ as nat == be_value(bytes@),
            id_bytes(id@) == bytes@,
    {
        Id(value_of_bytes(bytes.as_slice()))
    }

    /// The 16 big-endian bytes of the identifier's number.
    pub fn to_bytes(&self) -> (bytes: [u8; 16])
        ensures
            bytes@ == id_bytes(self@),
            be_value(bytes@) == self@ as nat,
    {
        let mut out: [u8; 16] = [0u8; 16];
        let mut rest: u128 = self.0;
        let mut i: usize = 16;
        proof {
            assert(out@.subrange(16, 16) =~= Seq::<u8>::empty());
            assert(id_bytes(self@) =~= be_fixed(rest as nat, 16) + out@.subrange(16, 16));
        }
        while i > 0
            invariant
                i <= 16,
                id_bytes(self@) == be_fixed(rest as nat, i as nat) + out@.subrange(i as int, 16),
            decreases i,
        {
            let ghost before = out@;
            i = i - 1;
            out[i] = (rest % 256) as u8;
            let ghost prev = rest;
            rest = rest / 256;
            proof {
                assert(be_fixed(prev as nat, (i + 1) as nat) == be_fixed(
                    rest as nat,
                    i as nat,
                ).push((prev % 256) as u8));
                assert(out@.subrange(i as int, 16) =~= seq![(prev % 256) as u8] + before.subrange(
                    i + 1,
                    16,
                ));
                assert(id_bytes(self@) =~= be_fixed(rest as nat, i as nat) + out@.subrange(
                    i as int,
                    16,
                ));
            }
        }
        proof {
            assert(be_fixed(rest as nat, 0) =~= Seq::<u8>::empty());
            assert(out@.subrange(0, 16) =~= out@);
            assert(id_bytes(self@) =~= out@);
            lemma_pow256_16();
            lemma_be_value_of_fixed(self@ as nat, 16);
        }
        out
    }

    /// A fresh identifier from 16 bytes of the operating system's random
    /// source. Which one comes is not known; without random bytes there is
    /// none.
    pub fn new() -> (r: Result<Id, IdError>)
        ensures
            r.is_err() ==> r == Err::<Id, IdError>(IdError::NoEntropy),
    {
        match os_random_bytes(16) {
            Ok(bytes) => Ok(Id(value_of_bytes(bytes.as_slice()))),
            Err(_) => Err(IdError::NoEntropy),
        }
    }

    /// The canonical base-62 text.
    pub fn to_string(&self) -> (s: String)
        ensures
            s@ == id_text(self@),
    {
        let bytes = self.to_bytes();
        base62_encode(bytes.as_slice())
    }

    /// Parses a base-62 text. It is refused when it holds a character
    /// outside the alphabet, or does not stand for exactly 16 bytes.
    pub fn from_str(s: &str) -> (r: Result<Id, IdError>)
        ensures
            match id_parsed(s@) {
                Ok(value) => r == Ok::<Id, IdError>(Id(value)),
                Err(e) => r == Err::<Id, IdError>(e),
            },
    {
        match base62_decode(s) {
            Err(_) => Err(IdError::BadCharacter),
            Ok(bytes) => {
                if bytes.len() != 16 {
                    Err(IdError::BadLength)
                } else {
                    Ok(Id(value_of_bytes(bytes.as_slice())))
                }
            },
        }
    }

    /// Parses an owned base-62 text.
    pub fn try_from(value: String) -> (r: Result<Id, IdError>)
        ensures
            match id_parsed(value@) {
                Ok(v) => r == Ok::<Id, IdError>(Id(v)),
                Err(e) => r == Err::<Id, IdError>(e),
            },
    {
        Id::from_str(value.as_str())
    }
}

/// Parsing the text of an identifier gives the identifier back.
pub proof fn lemma_id_round_trip(value: u128)
    ensures
        id_parsed(id_text(value)) == Ok::<u128, IdError>(value),
{
    lemma_pow256_16();
    lemma_be_value_of_fixed(value as nat, 16);
    lemma_base62_round_trip(id_bytes(value));
}

/// Parsing the text of any 16 bytes gives the number of those bytes, whose
/// bytes they are.
pub proof fn lemma_bytes_round_trip(bytes: Seq<u8>)
    requires
        bytes.len() == 16,
    ensures
        id_parsed(base62_encoded(bytes)) == Ok::<u128, IdError>(be_value(bytes) as u128),
        id_bytes(be_value(bytes) as u128) == bytes,
{
    lemma_pow256_16();
    lemma_be_fixed_of_value(bytes);
    lemma_base62_round_trip(bytes);
}

/// Two different byte strings never have the same text.
pub proof fn lemma_text_injective(a: Seq<u8>, b: Seq<u8>)
    requires
        a != b,
    ensures
        base62_encoded(a) != base62_encoded(b),
{
    lemma_base62_round_trip(a);
    lemma_base62_round_trip(b);
}

/// Two different identifiers never have the same text.
pub proof fn lemma_id_text_injective(a: u128, b: u128)
    requires
        a != b,
    ensures
        id_text(a) != id_text(b),
{
    lemma_id_round_trip(a);
    lemma_id_round_trip(b);
}

} // verus!
