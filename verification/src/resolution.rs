//! Reading a `WIDTHxHEIGHT` resolution argument, and writing numbers in decimal.
use vstd::prelude::*;
use vstd::string::*;

verus! {

/// Message for a resolution that is not two pieces joined by one `x`.
pub const RESOLUTION_FORMAT_ERROR: &'static str = "Resolution must be in WIDTHxHEIGHT format (e.g., 1920x1080)";

/// Message for a width that is not an unsigned 32-bit decimal number.
pub const INVALID_WIDTH_ERROR: &'static str = "Invalid width";

/// Message for a height that is not an unsigned 32-bit decimal number.
pub const INVALID_HEIGHT_ERROR: &'static str = "Invalid height";

/// A decimal digit `0` to `9`.
pub open spec fn is_digit(c: char) -> bool {
    '0' <= c && c <= '9'
}

/// The value of a decimal digit.
pub open spec fn digit_value(c: char) -> nat {
    ((c as int) - ('0' as int)) as nat
}

/// Every character of `s` is a decimal digit.
pub open spec fn all_digits(s: Seq<char>) -> bool {
    forall|i: int| 0 <= i < s.len() ==> is_digit(#[trigger] s[i])
}

/// The number that a string of decimal digits denotes, most significant digit first.
pub open spec fn decimal_value(s: Seq<char>) -> nat
    decreases s.len(),
{
    if s.len() == 0 {
        0
    } else {
        decimal_value(s.drop_last()) * 10 + digit_value(s.last())
    }
}

/// The digits of an unsigned number as written: a single leading `+` is not part of them.
pub open spec fn unsigned_digits(s: Seq<char>) -> Seq<char> {
    if s.len() > 0 && s[0] == '+' {
        s.drop_first()
    } else {
        s
    }
}

/// What reading `s` as a `u32` gives: an optional `+`, then at least one decimal digit
/// (leading zeros allowed), denoting a value that fits in 32 bits. Every other string,
/// among them those with a sign `-`, spaces or any other character, is refused.
pub open spec fn u32_from_decimal(s: Seq<char>) -> Option<u32> {
    let d = unsigned_digits(s);
    if d.len() > 0 && all_digits(d) && decimal_value(d) <= u32::MAX {
        Some(decimal_value(d) as u32)
    } else {
        None
    }
}

/// The pieces of `s` between the occurrences of `sep`, in order, as `str::split` yields
/// them: one piece more than there are separators, empty pieces included.
pub open spec fn split_on(s: Seq<char>, sep: char) -> Seq<Seq<char>>
    decreases s.len(),
{
    if s.len() == 0 {
        seq![Seq::empty()]
    } else {
        let pieces = split_on(s.drop_last(), sep);
        if s.last() == sep {
            pieces.push(Seq::empty())
        } else {
            pieces.update(pieces.len() - 1, pieces.last().push(s.last()))
        }
    }
}

/// What reading `s` as a resolution gives: `s` must split on `x` into exactly two
/// pieces, the width and then the height, each an unsigned 32-bit decimal number.
/// The first problem found, in that order, names the error.
pub open spec fn resolution_of(s: Seq<char>) -> Result<(u32, u32), Seq<char>> {
    let pieces = split_on(s, 'x');
    if pieces.len() != 2 {
        Err(RESOLUTION_FORMAT_ERROR@)
    } else if u32_from_decimal(pieces[0]) is None {
        Err(INVALID_WIDTH_ERROR@)
    } else if u32_from_decimal(pieces[1]) is None {
        Err(INVALID_HEIGHT_ERROR@)
    } else {
        Ok((u32_from_decimal(pieces[0])->0, u32_from_decimal(pieces[1])->0))
    }
}

proof fn lemma_split_on_nonempty(s: Seq<char>, sep: char)
    ensures
        split_on(s, sep).len() >= 1,
    decreases s.len(),
{
    if s.len() > 0 {
        lemma_split_on_nonempty(s.drop_last(), sep);
    }
}

proof fn lemma_decimal_value_prefix(s: Seq<char>, k: int)
    requires
        0 <= k <= s.len(),
    ensures
        decimal_value(s.take(k)) <= decimal_value(s),
    decreases s.len(),
{
    if k < s.len() {
        assert(s.drop_last().take(k) =~= s.take(k));
        lemma_decimal_value_prefix(s.drop_last(), k);
    } else {
        assert(s.take(k) =~= s);
    }
}

/// The character of the decimal digit `d`, for `d` below ten.
pub open spec fn digit_char(d: nat) -> char {
    if d == 0 {
        '0'
    } else if d == 1 {
        '1'
    } else if d == 2 {
        '2'
    } else if d == 3 {
        '3'
    } else if d == 4 {
        '4'
    } else if d == 5 {
        '5'
    } else if d == 6 {
        '6'
    } else if d == 7 {
        '7'
    } else if d == 8 {
        '8'
    } else {
        '9'
    }
}

/// How `n` is written in decimal: no sign and no leading zeros, as `{}` formats an integer.
pub open spec fn decimal_text(n: nat) -> Seq<char>
    decreases n,
{
    if n < 10 {
        seq![digit_char(n)]
    } else {
        decimal_text(n / 10).push(digit_char(n % 10))
    }
}

proof fn lemma_digit_char(d: nat)
    requires
        d < 10,
    ensures
        is_digit(digit_char(d)),
        digit_value(digit_char(d)) == d,
{
}

proof fn lemma_decimal_text(n: nat)
    ensures
        decimal_text(n).len() > 0,
        all_digits(decimal_text(n)),
        decimal_value(decimal_text(n)) == n,
    decreases n,
{
    if n < 10 {
        lemma_digit_char(n);
        assert(decimal_text(n).drop_last() =~= Seq::<char>::empty());
        assert(decimal_value(Seq::<char>::empty()) == 0);
    } else {
        lemma_decimal_text(n / 10);
        lemma_digit_char(n % 10);
        let t = decimal_text(n);
        assert(t.drop_last() =~= decimal_text(n / 10));
        assert(t.last() == digit_char(n % 10));
        vstd::arithmetic::div_mod::lemma_fundamental_div_mod(n as int, 10);
        assert(all_digits(t)) by {
            assert forall|i: int| 0 <= i < t.len() implies is_digit(#[trigger] t[i]) by {
                if i < t.len() - 1 {
                    assert(t[i] == decimal_text(n / 10)[i]);
                }
            }
        }
    }
}

proof fn lemma_split_without_sep(a: Seq<char>, sep: char)
    requires
        !a.contains(sep),
    ensures
        split_on(a, sep) == seq![a],
    decreases a.len(),
{
    if a.len() > 0 {
        let rest = a.drop_last();
        assert(!rest.contains(sep)) by {
            if rest.contains(sep) {
                let k = choose|k: int| 0 <= k < rest.len() && rest[k] == sep;
                assert(a[k] == sep);
            }
        }
        lemma_split_without_sep(rest, sep);
        assert(a[a.len() - 1] == a.last());
        assert(rest.push(a.last()) =~= a);
        assert(seq![rest].update(0, rest.push(a.last())) =~= seq![a]);
    } else {
        assert(a =~= Seq::<char>::empty());
    }
}

proof fn lemma_split_around(a: Seq<char>, b: Seq<char>, sep: char)
    requires
        !a.contains(sep),
        !b.contains(sep),
    ensures
        split_on(a + seq![sep] + b, sep) == seq![a, b],
    decreases b.len(),
{
    let s = a + seq![sep] + b;
    if b.len() == 0 {
        assert(s.drop_last() =~= a);
        lemma_split_without_sep(a, sep);
        assert(b =~= Seq::<char>::empty());
        assert(seq![a].push(Seq::<char>::empty()) =~= seq![a, b]);
    } else {
        let rest = b.drop_last();
        assert(!rest.contains(sep)) by {
            if rest.contains(sep) {
                let k = choose|k: int| 0 <= k < rest.len() && rest[k] == sep;
                assert(b[k] == sep);
            }
        }
        lemma_split_around(a, rest, sep);
        assert(s.drop_last() =~= a + seq![sep] + rest);
        assert(b[b.len() - 1] == b.last());
        assert(s.last() == b.last());
        assert(rest.push(b.last()) =~= b);
        assert(seq![a, rest].update(1, rest.push(b.last())) =~= seq![a, b]);
    }
}

proof fn lemma_digits_lack(s: Seq<char>, c: char)
    requires
        all_digits(s),
        !is_digit(c),
    ensures
        !s.contains(c),
{
    if s.contains(c) {
        let k = choose|k: int| 0 <= k < s.len() && s[k] == c;
        assert(is_digit(s[k]));
    }
}

/// A number written in decimal reads back as itself.
pub proof fn decimal_text_reads_back(n: u32)
    ensures
        u32_from_decimal(decimal_text(n as nat)) == Some(n),
{
    lemma_decimal_text(n as nat);
    assert(is_digit(decimal_text(n as nat)[0]));
}

/// Width and height written in decimal and joined by `x` read back as that resolution.
pub proof fn resolution_reads_back(width: u32, height: u32)
    ensures
        resolution_of(decimal_text(width as nat) + seq!['x'] + decimal_text(height as nat)) == Ok::<
            (u32, u32),
            Seq<char>,
        >((width, height)),
{
    let w = decimal_text(width as nat);
    let h = decimal_text(height as nat);
    lemma_decimal_text(width as nat);
    lemma_decimal_text(height as nat);
    lemma_digits_lack(w, 'x');
    lemma_digits_lack(h, 'x');
    lemma_split_around(w, h, 'x');
    decimal_text_reads_back(width);
    decimal_text_reads_back(height);
}

/// The text of a decimal digit.
fn digit_text(d: u32) -> (text: &'static str)
    requires
        d < 10,
    ensures
        text@ == seq![digit_char(d as nat)],
{
    match d {
        0 => {
            proof {
                reveal_strlit("0");
            }
            "0"
        },
        1 => {
            proof {
                reveal_strlit("1");
            }
            "1"
        },
        2 => {
            proof {
                reveal_strlit("2");
            }
            "2"
        },
        3 => {
            proof {
                reveal_strlit("3");
            }
            "3"
        },
        4 => {
            proof {
                reveal_strlit("4");
            }
            "4"
        },
        5 => {
            proof {
                reveal_strlit("5");
            }
            "5"
        },
        6 => {
            proof {
                reveal_strlit("6");
            }
            "6"
        },
        7 => {
            proof {
                reveal_strlit("7");
            }
            "7"
        },
        8 => {
            proof {
                reveal_strlit("8");
            }
            "8"
        },
        _ => {
            proof {
                reveal_strlit("9");
            }
            "9"
        },
    }
}

/// `n` written in decimal, as `n.to_string()` writes it.
pub fn decimal_string(n: u64) -> (text: String)
    ensures
        text@ == decimal_text(n as nat),
    decreases n,
{
    if n < 10 {
        String::from_str(digit_text(n as u32))
    } else {
        let mut text = decimal_string(n / 10);
        text.append(digit_text((n % 10) as u32));
        text
    }
}

/// The characters of `s`, in order.
fn chars_of(s: &str) -> (chars: Vec<char>)
    ensures
        chars@ == s@,
{
    let mut chars: Vec<char> = Vec::new();
    for c in it: s.chars()
        invariant
            it.seq() == s@,
            chars@ == it.seq().take(it.index()),
    {
        chars.push(c);
    }
    chars
}

/// Reads `digits` as a `u32` in decimal, as `str::parse::<u32>` does.
fn u32_from_chars(digits: &[char]) -> (value: Option<u32>)
    ensures
        value == u32_from_decimal(digits@),
{
    let n = digits.len();
    if n == 0 {
        return None;
    }
    let start: usize = if digits[0] == '+' { 1 } else { 0 };
    if start == n {
        return None;
    }
    let ghost d = unsigned_digits(digits@);
    assert(d =~= digits@.subrange(start as int, n as int));
    let mut acc: u64 = 0;
    let mut i: usize = start;
    while i < n
        invariant
            start <= i <= n,
            n == digits@.len(),
            start < n,
            d == digits@.subrange(start as int, n as int),
            d == unsigned_digits(digits@),
            all_digits(digits@.subrange(start as int, i as int)),
            acc == decimal_value(digits@.subrange(start as int, i as int)),
            acc <= u32::MAX,
        decreases n - i,
    {
        let c = digits[i];
        if !('0' <= c && c <= '9') {
            assert(d[i - start] == c);
            return None;
        }
        let ghost before = digits@.subrange(start as int, i as int);
        let ghost after = digits@.subrange(start as int, i + 1);
        assert(after.drop_last() =~= before);
        assert(after.last() == c);
        let digit: u64 = ((c as u32) - ('0' as u32)) as u64;
        acc = acc * 10 + digit;
        if acc > 0xffff_ffff {
            proof {
                if all_digits(d) {
                    assert(d.take(i + 1 - start) =~= after);
                    lemma_decimal_value_prefix(d, i + 1 - start);
                }
            }
            return None;
        }
        i = i + 1;
    }
    assert(digits@.subrange(start as int, n as int) =~= d);
    Some(acc as u32)
}

/// The pieces of `chars` between the occurrences of `sep`.
fn split_chars(chars: &Vec<char>, sep: char) -> (pieces: Vec<Vec<char>>)
    ensures
        pieces@.map_values(|p: Vec<char>| p@) == split_on(chars@, sep),
{
    let mut pieces: Vec<Vec<char>> = Vec::new();
    let mut current: Vec<char> = Vec::new();
    let n = chars.len();
    let mut i: usize = 0;
    assert(chars@.take(0) =~= Seq::<char>::empty());
    assert(pieces@.map_values(|p: Vec<char>| p@).push(current@) =~= split_on(chars@.take(0), sep));
    while i < n
        invariant
            i <= n,
            n == chars@.len(),
            pieces@.map_values(|p: Vec<char>| p@).push(current@) == split_on(chars@.take(i as int), sep),
        decreases n - i,
    {
        let c = chars[i];
        let ghost prefix = chars@.take(i + 1);
        assert(prefix.drop_last() =~= chars@.take(i as int));
        assert(prefix.last() == c);
        let ghost old_pieces = pieces@;
        let ghost old_current = current@;
        if c == sep {
            pieces.push(current);
            current = Vec::new();
            assert(pieces@.map_values(|p: Vec<char>| p@).push(current@) =~= old_pieces.map_values(
                |p: Vec<char>| p@,
            ).push(old_current).push(Seq::empty()));
        } else {
            current.push(c);
            assert(pieces@.map_values(|p: Vec<char>| p@).push(current@) =~= old_pieces.map_values(
                |p: Vec<char>| p@,
            ).push(old_current).update(old_pieces.len() as int, old_current.push(c)));
        }
        i = i + 1;
    }
    assert(chars@.take(n as int) =~= chars@);
    let ghost all = pieces@.map_values(|p: Vec<char>| p@).push(current@);
    pieces.push(current);
    assert(pieces@.map_values(|p: Vec<char>| p@) =~= all);
    pieces
}

/// Reads a resolution written `WIDTHxHEIGHT`, such as `1920x1080`.
///
/// The argument is split on `x`; there must be exactly two pieces, and each must read
/// as an unsigned 32-bit decimal number (an optional `+`, then digits). Otherwise the
/// error names the first problem: the format, then the width, then the height.
pub fn parse_resolution(s: &str) -> (res: Result<(u32, u32), String>)
    ensures
        match res {
            Ok(size) => resolution_of(s@) == Ok::<(u32, u32), Seq<char>>(size),
            Err(message) => resolution_of(s@) == Err::<(u32, u32), Seq<char>>(message@),
        },
{
    let chars = chars_of(s);
    let pieces = split_chars(&chars, 'x');
    proof {
        lemma_split_on_nonempty(s@, 'x');
    }
    if pieces.len() != 2 {
        return Err(String::from_str(RESOLUTION_FORMAT_ERROR));
    }
    assert(pieces@[0]@ == split_on(s@, 'x')[0]);
    assert(pieces@[1]@ == split_on(s@, 'x')[1]);
    let width = match u32_from_chars(pieces[0].as_slice()) {
        Some(w) => w,
        None => {
            return Err(String::from_str(INVALID_WIDTH_ERROR));
        },
    };
    let height = match u32_from_chars(pieces[1].as_slice()) {
        Some(h) => h,
        None => {
            return Err(String::from_str(INVALID_HEIGHT_ERROR));
        },
    };
    Ok((width, height))
}

} // verus!
