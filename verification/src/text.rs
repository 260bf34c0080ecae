//! Text rendering shared by the rest of the crate: decimal numbers,
//! hexadecimal bytes, padding and joining.

use vstd::prelude::*;
use vstd::string::*;

verus! {

/// The character of a decimal digit.
pub open spec fn digit_char(d: nat) -> char
    recommends
        d < 10,
{
    if d == 0 {
        '0'
    } else if d == 1 {
        '1'
    } else if d == 2 {
        '2'
    } else if d == 3 {
        '3'
    } else if d == 4 {
        '4'
    } else if d == 5 {
        '5'
    } else if d == 6 {
        '6'
    } else if d == 7 {
        '7'
    } else if d == 8 {
        '8'
    } else {
        '9'
    }
}

/// The character of a lower-case hexadecimal digit.
pub open spec fn hex_char(d: nat) -> char
    recommends
        d < 16,
{
    if d < 10 {
        digit_char(d)
    } else if d == 10 {
        'a'
    } else if d == 11 {
        'b'
    } else if d == 12 {
        'c'
    } else if d == 13 {
        'd'
    } else if d == 14 {
        'e'
    } else {
        'f'
    }
}

/// The decimal form of a number, without sign or leading zeros.
pub open spec fn decimal(n: nat) -> Seq<char>
    decreases n,
{
    if n < 10 {
        seq![digit_char(n)]
    } else {
        decimal(n / 10).push(digit_char(n % 10))
    }
}

/// The two lower-case hexadecimal digits of a byte.
pub open spec fn hex_byte(b: u8) -> Seq<char> {
    seq![hex_char((b / 16) as nat), hex_char((b % 16) as nat)]
}

/// The lower-case hexadecimal form of a byte string, two digits per byte.
pub open spec fn hex_lower(bytes: Seq<u8>) -> Seq<char>
    decreases bytes.len(),
{
    if bytes.len() == 0 {
        Seq::<char>::empty()
    } else {
        hex_lower(bytes.drop_last()) + hex_byte(bytes.last())
    }
}

/// `n` copies of one character.
pub open spec fn repeated(c: char, n: nat) -> Seq<char> {
    Seq::new(n, |i: int| c)
}

/// The items of `parts` with `sep` between each two neighbours.
pub open spec fn joined(parts: Seq<Seq<char>>, sep: Seq<char>) -> Seq<char>
    decreases parts.len(),
{
    if parts.len() == 0 {
        Seq::<char>::empty()
    } else if parts.len() == 1 {
        parts[0]
    } else {
        joined(parts.drop_last(), sep) + sep + parts.last()
    }
}

/// The views of a vector of strings.
pub open spec fn views(v: Seq<String>) -> Seq<Seq<char>> {
    Seq::new(v.len(), |i: int| v[i]@)
}

/// One lower-case hexadecimal digit as text.
pub fn hex_digit_str(d: u8) -> (s: &'static str)
    requires
        d < 16,
    ensures
        s@ == seq![hex_char(d as nat)],
{
    proof {
        reveal_strlit("0");
        reveal_strlit("1");
        reveal_strlit("2");
        reveal_strlit("3");
        reveal_strlit("4");
        reveal_strlit("5");
        reveal_strlit("6");
        reveal_strlit("7");
        reveal_strlit("8");
        reveal_strlit("9");
        reveal_strlit("a");
        reveal_strlit("b");
        reveal_strlit("c");
        reveal_strlit("d");
        reveal_strlit("e");
        reveal_strlit("f");
    }
    let s = if d == 0 {
        "0"
    } else if d == 1 {
        "1"
    } else if d == 2 {
        "2"
    } else if d == 3 {
        "3"
    } else if d == 4 {
        "4"
    } else if d == 5 {
        "5"
    } else if d == 6 {
        "6"
    } else if d == 7 {
        "7"
    } else if d == 8 {
        "8"
    } else if d == 9 {
        "9"
    } else if d == 10 {
        "a"
    } else if d == 11 {
        "b"
    } else if d == 12 {
        "c"
    } else if d == 13 {
        "d"
    } else if d == 14 {
        "e"
    } else {
        "f"
    };
    assert(s@ =~= seq![hex_char(d as nat)]);
    s
}

/// The digits still to be written while a number is rendered from its low end.
pub open spec fn decimal_head(rest: nat) -> Seq<char> {
    if rest == 0 {
        Seq::<char>::empty()
    } else {
        decimal(rest)
    }
}

/// The decimal form of `n` as text.
pub fn decimal_string(n: u64) -> (s: String)
    ensures
        s@ == decimal(n as nat),
{
    let mut rest: u64 = n / 10;
    let mut out: String = String::from_str(hex_digit_str((n % 10) as u8));
    proof {
        assert(out@ =~= seq![digit_char((n % 10) as nat)]);
        assert(decimal(n as nat) =~= decimal_head(rest as nat) + out@);
    }
    while rest > 0
        invariant
            decimal(n as nat) == decimal_head(rest as nat) + out@,
        decreases rest,
    {
        let d: u8 = (rest % 10) as u8;
        let ghost before = out@;
        let ghost old_rest = rest;
        out = String::from_str(hex_digit_str(d)).concat(out.as_str());
        rest = rest / 10;
        proof {
            assert(out@ == seq![digit_char(d as nat)] + before);
            assert(decimal_head(old_rest as nat) =~= decimal_head(rest as nat) + seq![
                digit_char(d as nat),
            ]);
            assert(decimal(n as nat) =~= decimal_head(rest as nat) + out@);
        }
    }
    assert(decimal(n as nat) =~= out@);
    out
}

/// The two lower-case hexadecimal digits of a byte as text.
pub fn hex_byte_string(b: u8) -> (s: String)
    ensures
        s@ == hex_byte(b),
{
    let high: u8 = b / 16;
    let low: u8 = b % 16;
    let s = String::from_str(hex_digit_str(high)).concat(hex_digit_str(low));
    assert(s@ =~= hex_byte(b));
    s
}

/// The lower-case hexadecimal form of a byte string as text.
pub fn hex_string(bytes: &[u8]) -> (s: String)
    ensures
        s@ == hex_lower(bytes@),
{
    let mut out: String = String::new();
    let mut i: usize = 0;
    assert(bytes@.subrange(0, 0) =~= Seq::<u8>::empty());
    while i < bytes.len()
        invariant
            i <= bytes@.len(),
            out@ == hex_lower(bytes@.subrange(0, i as int)),
        decreases bytes@.len() - i,
    {
        let pair = hex_byte_string(bytes[i]);
        out.append(pair.as_str());
        proof {
            let next = bytes@.subrange(0, i + 1);
            assert(next.drop_last() =~= bytes@.subrange(0, i as int));
            assert(next.last() == bytes@[i as int]);
        }
        i = i + 1;
    }
    assert(bytes@.subrange(0, bytes@.len() as int) =~= bytes@);
    out
}

/// `n` spaces as text.
pub fn spaces(n: usize) -> (s: String)
    ensures
        s@ == repeated(' ', n as nat),
{
    let mut out: String = String::new();
    let mut i: usize = 0;
    proof {
        reveal_strlit(" ");
        assert(out@ =~= repeated(' ', 0));
    }
    while i < n
        invariant
            i <= n,
            out@ == repeated(' ', i as nat),
            " "@ == seq![' '],
        decreases n - i,
    {
        out.append(" ");
        i = i + 1;
        assert(out@ =~= repeated(' ', i as nat));
    }
    out
}

/// The strings of `parts` with `sep` between each two neighbours.
pub fn join(parts: &Vec<String>, sep: &str) -> (s: String)
    ensures
        s@ == joined(views(parts@), sep@),
{
    let mut out: String = String::new();
    let mut i: usize = 0;
    assert(views(parts@).subrange(0, 0) =~= Seq::<Seq<char>>::empty());
    while i < parts.len()
        invariant
            i <= parts@.len(),
            out@ == joined(views(parts@).subrange(0, i as int), sep@),
        decreases parts@.len() - i,
    {
        if i > 0 {
            out.append(sep);
        }
        out.append(parts[i].as_str());
        proof {
            let next = views(parts@).subrange(0, i + 1);
            assert(next.drop_last() =~= views(parts@).subrange(0, i as int));
            assert(next.last() == parts@[i as int]@);
            if i == 0 {
                assert(out@ =~= next[0]);
            }
        }
        i = i + 1;
    }
    assert(views(parts@).subrange(0, parts@.len() as int) =~= views(parts@));
    out
}

/// The list of three words.
pub fn words3(a: &str, b: &str, c: &str) -> (words: Vec<String>)
    ensures
        views(words@) == seq![a@, b@, c@],
{
    let mut words: Vec<String> = Vec::new();
    words.push(String::from_str(a));
    words.push(String::from_str(b));
    words.push(String::from_str(c));
    assert(views(words@) =~= seq![a@, b@, c@]);
    words
}

/// The list of four words.
pub fn words4(a: &str, b: &str, c: &str, d: &str) -> (words: Vec<String>)
    ensures
        views(words@) == seq![a@, b@, c@, d@],
{
    let mut words: Vec<String> = Vec::new();
    words.push(String::from_str(a));
    words.push(String::from_str(b));
    words.push(String::from_str(c));
    words.push(String::from_str(d));
    assert(views(words@) =~= seq![a@, b@, c@, d@]);
    words
}

/// The list of five words.
pub fn words5(a: &str, b: &str, c: &str, d: &str, e: &str) -> (words: Vec<String>)
    ensures
        views(words@) == seq![a@, b@, c@, d@, e@],
{
    let mut words: Vec<String> = Vec::new();
    words.push(String::from_str(a));
    words.push(String::from_str(b));
    words.push(String::from_str(c));
    words.push(String::from_str(d));
    words.push(String::from_str(e));
    assert(views(words@) =~= seq![a@, b@, c@, d@, e@]);
    words
}

/// A copy of a list of strings.
pub fn clone_strings(list: &Vec<String>) -> (copy: Vec<String>)
    ensures
        copy@ == list@,
{
    let mut copy: Vec<String> = Vec::new();
    let mut i: usize = 0;
    while i < list.len()
        invariant
            i <= list@.len(),
            copy@ == list@.subrange(0, i as int),
        decreases list@.len() - i,
    {
        copy.push(list[i].clone());
        assert(copy@ =~= list@.subrange(0, i + 1));
        i = i + 1;
    }
    assert(list@.subrange(0, list@.len() as int) =~= list@);
    copy
}

/// The view of a string that may be missing.
pub open spec fn option_view(text: Option<String>) -> Option<Seq<char>> {
    match text {
        Some(s) => Some(s@),
        None => None,
    }
}

/// Whether two strings hold the same text.
pub fn same_text(a: &String, b: &String) -> (same: bool)
    ensures
        same == (a@ == b@),
{
    *a == *b
}

/// Whether the list holds the text.
pub fn holds(list: &Vec<String>, text: &String) -> (found: bool)
    ensures
        found == views(list@).contains(text@),
{
    let mut i: usize = 0;
    while i < list.len()
        invariant
            i <= list@.len(),
            forall|k: int| 0 <= k < i ==> views(list@)[k] != text@,
        decreases list@.len() - i,
    {
        if same_text(&list[i], text) {
            assert(views(list@)[i as int] == text@);
            return true;
        }
        i = i + 1;
    }
    false
}

} // verus!
