//! Numerals, lists and lines: how numbers and bytes are written out, and how
//! byte strings and texts are compared.

use vstd::prelude::*;
use vstd::string::StringExecFns;

verus! {

/// The character for one digit of a base up to sixteen, in lower case.
pub open spec fn digit_char(d: nat) -> char {
    if d == 0 {
        '0'
    } else if d == 1 {
        '1'
    } else if d == 2 {
        '2'
    } else if d == 3 {
        '3'
    } else if d == 4 {
        '4'
    } else if d == 5 {
        '5'
    } else if d == 6 {
        '6'
    } else if d == 7 {
        '7'
    } else if d == 8 {
        '8'
    } else if d == 9 {
        '9'
    } else if d == 10 {
        'a'
    } else if d == 11 {
        'b'
    } else if d == 12 {
        'c'
    } else if d == 13 {
        'd'
    } else if d == 14 {
        'e'
    } else {
        'f'
    }
}

/// The decimal numeral of `n`: at least one digit, no leading zero
/// otherwise.
pub open spec fn decimal(n: nat) -> Seq<char>
    decreases n,
{
    if n < 10 {
        seq![digit_char(n)]
    } else {
        decimal(n / 10).push(digit_char(n % 10))
    }
}

/// The hexadecimal numeral of `n` in lower case, without a prefix and
/// without leading zeros: zero itself is the empty numeral.
pub open spec fn hex(n: nat) -> Seq<char>
    decreases n,
{
    if n == 0 {
        Seq::empty()
    } else {
        hex(n / 16).push(digit_char(n % 16))
    }
}

/// The number that a string of bytes denotes, most significant byte first.
pub open spec fn be_value(bytes: Seq<u8>) -> nat
    decreases bytes.len(),
{
    if bytes.len() == 0 {
        0
    } else {
        be_value(bytes.drop_last()) * 256 + bytes.last() as nat
    }
}

/// Appending a digit to a numeral multiplies its number by sixteen and adds
/// the digit, except that zero stays empty.
pub proof fn lemma_hex_push(v: nat, d: nat)
    requires
        d < 16,
    ensures
        hex(v * 16 + d) == if v * 16 + d == 0 {
            Seq::<char>::empty()
        } else {
            hex(v).push(digit_char(d))
        },
{
    let n: nat = v * 16 + d;
    if n != 0 {
    }
}

/// One more byte at the end multiplies the number by 256 and adds the byte.
pub proof fn lemma_be_value_take(bytes: Seq<u8>, i: int)
    requires
        0 <= i < bytes.len(),
    ensures
        be_value(bytes.take(i + 1)) == be_value(bytes.take(i)) * 256 + bytes[i] as nat,
{
    assert(bytes.take(i + 1).drop_last() =~= bytes.take(i));
}

/// A string of bytes denotes at least what any of its prefixes denotes.
pub proof fn lemma_be_value_prefix(bytes: Seq<u8>, i: int)
    requires
        0 <= i <= bytes.len(),
    ensures
        be_value(bytes.take(i)) <= be_value(bytes),
    decreases bytes.len() - i,
{
    if i == bytes.len() {
        assert(bytes.take(i) =~= bytes);
    } else {
        lemma_be_value_take(bytes, i);
        lemma_be_value_prefix(bytes, i + 1);
    }
}

/// The one-character string for a digit.
fn digit_str(d: u8) -> (s: &'static str)
    requires
        d < 16,
    ensures
        s@ == seq![digit_char(d as nat)],
{
    proof {
        reveal_strlit("0");
        reveal_strlit("1");
        reveal_strlit("2");
        reveal_strlit("3");
        reveal_strlit("4");
        reveal_strlit("5");
        reveal_strlit("6");
        reveal_strlit("7");
        reveal_strlit("8");
        reveal_strlit("9");
        reveal_strlit("a");
        reveal_strlit("b");
        reveal_strlit("c");
        reveal_strlit("d");
        reveal_strlit("e");
        reveal_strlit("f");
    }
    let s: &'static str = match d {
        0 => "0",
        1 => "1",
        2 => "2",
        3 => "3",
        4 => "4",
        5 => "5",
        6 => "6",
        7 => "7",
        8 => "8",
        9 => "9",
        10 => "a",
        11 => "b",
        12 => "c",
        13 => "d",
        14 => "e",
        _ => "f",
    };
    s
}

/// Renders `n` in decimal.
pub fn decimal_text(n: u64) -> (s: String)
    ensures
        s@ == decimal(n as nat),
    decreases n,
{
    if n < 10 {
        String::from_str(digit_str(n as u8))
    } else {
        let mut s = decimal_text(n / 10);
        s.append(digit_str((n % 10) as u8));
        s
    }
}

/// Renders in hexadecimal the number that `bytes` denotes, most significant
/// byte first.
pub fn hex_text(bytes: &Vec<u8>) -> (s: String)
    ensures
        s@ == hex(be_value(bytes@)),
{
    let mut s = String::new();
    let mut started = false;
    let ghost mut v: nat = 0;
    let mut i: usize = 0;
    while i < bytes.len()
        invariant
            i <= bytes.len(),
            v == be_value(bytes@.take(i as int)),
            s@ == hex(v),
            started == (v != 0),
        decreases bytes.len() - i,
    {
        let b: u8 = bytes[i];
        let hi: u8 = b / 16;
        let lo: u8 = b % 16;
        proof {
            lemma_hex_push(v, hi as nat);
            lemma_hex_push(v * 16 + hi as nat, lo as nat);
            lemma_be_value_take(bytes@, i as int);
        }
        if started || hi != 0 {
            s.append(digit_str(hi));
            started = true;
        }
        if started || lo != 0 {
            s.append(digit_str(lo));
            started = true;
        }
        proof {
            v = v * 256 + b as nat;
        }
        i += 1;
    }
    assert(bytes@.take(i as int) =~= bytes@);
    s
}

/// The number that `bytes` denotes, where it is at most `u64::MAX`.
pub fn exact_value(bytes: &Vec<u8>) -> (r: Option<u64>)
    ensures
        match r {
            Some(n) => n == be_value(bytes@),
            None => be_value(bytes@) > u64::MAX,
        },
{
    let mut acc: u64 = 0;
    let mut i: usize = 0;
    assert(bytes@.take(0) =~= Seq::<u8>::empty());
    while i < bytes.len()
        invariant
            i <= bytes.len(),
            acc == be_value(bytes@.take(i as int)),
        decreases bytes.len() - i,
    {
        let b: u8 = bytes[i];
        proof {
            lemma_be_value_take(bytes@, i as int);
            lemma_be_value_prefix(bytes@, i + 1);
        }
        if acc > (u64::MAX - b as u64) / 256 {
            return None;
        }
        acc = acc * 256 + b as u64;
        i += 1;
    }
    assert(bytes@.take(i as int) =~= bytes@);
    Some(acc)
}

/// The number that `bytes` denotes, where it is below `u64::MAX`.
pub fn small_value(bytes: &Vec<u8>) -> (r: Option<u64>)
    ensures
        match r {
            Some(n) => n == be_value(bytes@) && n < u64::MAX,
            None => be_value(bytes@) >= u64::MAX,
        },
{
    match exact_value(bytes) {
        Some(n) => if n < u64::MAX {
            Some(n)
        } else {
            None
        },
        None => None,
    }
}

/// Whether two byte strings are the same.
pub fn same_bytes(a: &Vec<u8>, b: &Vec<u8>) -> (r: bool)
    ensures
        r == (a@ == b@),
{
    if a.len() != b.len() {
        return false;
    }
    let mut i: usize = 0;
    while i < a.len()
        invariant
            i <= a.len(),
            a.len() == b.len(),
            forall|j: int| 0 <= j < i ==> a@[j] == b@[j],
        decreases a.len() - i,
    {
        if a[i] != b[i] {
            return false;
        }
        i += 1;
    }
    assert(a@ =~= b@);
    true
}

/// The items of a list of bytes, in decimal, with a comma and a space
/// between two of them.
pub open spec fn list_items(bytes: Seq<u8>) -> Seq<char>
    decreases bytes.len(),
{
    if bytes.len() == 0 {
        Seq::empty()
    } else if bytes.len() == 1 {
        decimal(bytes[0] as nat)
    } else {
        list_items(bytes.drop_last()) + ", "@ + decimal(bytes.last() as nat)
    }
}

/// A list of bytes as Rust writes it for debugging: the items in decimal
/// between square brackets.
pub open spec fn list(bytes: Seq<u8>) -> Seq<char> {
    "["@ + list_items(bytes) + "]"@
}

/// What is left of `before` when `after` is taken from it, and nothing where
/// `after` is the greater.
pub open spec fn spent(before: nat, after: nat) -> nat {
    if before >= after {
        (before - after) as nat
    } else {
        0
    }
}

/// A quantity of gas as the trace shows it: in decimal below `u64::MAX`, in
/// hexadecimal with a prefix from there on.
pub open spec fn gas_numeral(v: nat) -> Seq<char> {
    if v < u64::MAX {
        decimal(v)
    } else {
        "0x"@ + hex(v)
    }
}

/// Renders a list of bytes as [`list`] says.
pub fn list_text(bytes: &Vec<u8>) -> (s: String)
    ensures
        s@ == list(bytes@),
{
    let mut s = String::from_str("[");
    let mut i: usize = 0;
    while i < bytes.len()
        invariant
            i <= bytes.len(),
            s@ == "["@ + list_items(bytes@.take(i as int)),
        decreases bytes.len() - i,
    {
        if i > 0 {
            s.append(", ");
        }
        let item = decimal_text(bytes[i] as u64);
        s.append(item.as_str());
        assert(bytes@.take(i + 1).drop_last() =~= bytes@.take(i as int));
        i += 1;
    }
    assert(bytes@.take(i as int) =~= bytes@);
    s.append("]");
    s
}

/// Renders a quantity of gas, given as big-endian bytes, as [`gas_numeral`]
/// says.
pub fn gas_text(bytes: &Vec<u8>) -> (s: String)
    ensures
        s@ == gas_numeral(be_value(bytes@)),
{
    match small_value(bytes) {
        Some(n) => decimal_text(n),
        None => {
            let mut s = String::from_str("0x");
            let digits = hex_text(bytes);
            s.append(digits.as_str());
            s
        },
    }
}

/// Renders in hexadecimal, after the prefix `0x`, the number that `bytes`
/// denotes.
pub fn prefixed_hex_text(bytes: &Vec<u8>) -> (s: String)
    ensures
        s@ == "0x"@ + hex(be_value(bytes@)),
{
    let mut s = String::from_str("0x");
    let digits = hex_text(bytes);
    s.append(digits.as_str());
    s
}

/// Adds one line to a list of lines.
pub(crate) fn push_line(lines: &mut Vec<String>, line: String)
    ensures
        final(lines).deep_view() == old(lines).deep_view().push(line@),
{
    lines.push(line);
}

/// Adds the lines of `more` to a list of lines.
pub(crate) fn push_lines(lines: &mut Vec<String>, more: Vec<String>)
    ensures
        final(lines).deep_view() == old(lines).deep_view() + more.deep_view(),
{
    let mut more = more;
    lines.append(&mut more);
}

/// Whether two strings hold the same characters.
pub fn same_text(a: &str, b: &str) -> (r: bool)
    ensures
        r == (a@ == b@),
{
    String::from_str(a) == String::from_str(b)
}

} // verus!
