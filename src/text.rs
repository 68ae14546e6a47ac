//! Text helpers: decimal digits, unsigned integer parsing, character
//! replacement, and the few std string operations the library relies on.
use vstd::prelude::*;

verus! {

/// What `str::to_lowercase` returns for the characters `s`.
pub uninterp spec fn lower_of(s: Seq<char>) -> Seq<char>;

/// Relies on `str::to_lowercase`: its result depends on the characters alone.
#[verifier::external_body]
pub(crate) fn to_lowercase(s: &str) -> (r: String)
    ensures
        r@ == lower_of(s@),
{
    s.to_lowercase()
}

/// Relies on `String`'s `FromIterator<&char>`: the string of the characters, in order.
#[verifier::external_body]
pub(crate) fn string_from_chars(v: &Vec<char>) -> (r: String)
    ensures
        r@ == v@,
{
    v.iter().collect()
}

/// The characters of `s`, in order.
pub(crate) fn chars_of(s: &str) -> (r: Vec<char>)
    ensures
        r@ == s@,
{
    let n = s.unicode_len();
    let mut v: Vec<char> = Vec::new();
    let mut i: usize = 0;
    while i < n
        invariant
            n == s@.len(),
            i <= n,
            v@ == s@.subrange(0, i as int),
        decreases n - i,
    {
        v.push(s.get_char(i));
        i = i + 1;
        assert(v@ =~= s@.subrange(0, i as int));
    }
    assert(v@ =~= s@);
    v
}

/// The decimal digit character of `d < 10`.
pub open spec fn digit_char(d: nat) -> char {
    if d == 0 { '0' }
    else if d == 1 { '1' }
    else if d == 2 { '2' }
    else if d == 3 { '3' }
    else if d == 4 { '4' }
    else if d == 5 { '5' }
    else if d == 6 { '6' }
    else if d == 7 { '7' }
    else if d == 8 { '8' }
    else { '9' }
}

/// The decimal digits of `n`, without sign or leading zeros.
pub open spec fn decimal_of(n: nat) -> Seq<char>
    decreases n,
{
    if n < 10 {
        seq![digit_char(n)]
    } else {
        decimal_of(n / 10).push(digit_char(n % 10))
    }
}

fn digit_char_exec(d: usize) -> (c: char)
    requires
        d < 10,
    ensures
        c == digit_char(d as nat),
{
    if d == 0 { '0' }
    else if d == 1 { '1' }
    else if d == 2 { '2' }
    else if d == 3 { '3' }
    else if d == 4 { '4' }
    else if d == 5 { '5' }
    else if d == 6 { '6' }
    else if d == 7 { '7' }
    else if d == 8 { '8' }
    else { '9' }
}

fn push_decimal(n: usize, out: &mut Vec<char>)
    ensures
        final(out)@ == old(out)@ + decimal_of(n as nat),
    decreases n,
{
    if n >= 10 {
        push_decimal(n / 10, out);
    }
    out.push(digit_char_exec(n % 10));
    assert(final(out)@ =~= old(out)@ + decimal_of(n as nat));
}

/// `n` written in decimal digits.
pub fn decimal_string(n: usize) -> (r: String)
    ensures
        r@ == decimal_of(n as nat),
{
    let mut v: Vec<char> = Vec::new();
    push_decimal(n, &mut v);
    assert(v@ =~= decimal_of(n as nat));
    string_from_chars(&v)
}

/// The value of `c` as a digit in base `radix` (10 or 16), if it is one.
pub open spec fn digit_value(c: char, radix: nat) -> Option<nat> {
    if '0' <= c && c <= '9' {
        Some((c as nat - '0' as nat) as nat)
    } else if radix == 16 && 'a' <= c && c <= 'f' {
        Some((c as nat - 'a' as nat + 10) as nat)
    } else if radix == 16 && 'A' <= c && c <= 'F' {
        Some((c as nat - 'A' as nat + 10) as nat)
    } else {
        None
    }
}

/// The value of the digits `s` in base `radix`; `None` if one is no digit.
pub open spec fn digits_value(s: Seq<char>, radix: nat) -> Option<nat>
    decreases s.len(),
{
    if s.len() == 0 {
        Some(0)
    } else {
        match (digits_value(s.drop_last(), radix), digit_value(s.last(), radix)) {
            (Some(a), Some(d)) => Some(a * radix + d),
            _ => None,
        }
    }
}

/// An unsigned integer of at most `max` read as `from_str_radix` reads it: an
/// optional `+`, then one digit or more in base `radix`.
pub open spec fn parse_unsigned(s: Seq<char>, radix: nat, max: nat) -> Option<nat> {
    let body = if s.len() > 0 && s[0] == '+' { s.drop_first() } else { s };
    if body.len() == 0 {
        None
    } else {
        match digits_value(body, radix) {
            Some(v) => if v <= max { Some(v) } else { None },
            None => None,
        }
    }
}

/// A prefix of valid digits is valid and does not exceed the whole.
proof fn lemma_digits_prefix(s: Seq<char>, radix: nat, j: int)
    requires
        0 <= j <= s.len(),
        radix >= 1,
        digits_value(s, radix) is Some,
    ensures
        digits_value(s.subrange(0, j), radix) is Some,
        digits_value(s.subrange(0, j), radix)->0 <= digits_value(s, radix)->0,
    decreases s.len(),
{
    if j == s.len() {
        assert(s.subrange(0, j) =~= s);
    } else {
        let t = s.drop_last();
        assert(t.subrange(0, j) =~= s.subrange(0, j));
        lemma_digits_prefix(t, radix, j);
        let a = digits_value(t, radix)->0;
        let d = digit_value(s.last(), radix)->0;
        assert(a * radix + d >= a) by (nonlinear_arith)
            requires
                radix >= 1,
        ;
    }
}

fn digit_value_exec(c: char, radix: usize) -> (r: Option<usize>)
    ensures
        r matches Some(d) ==> digit_value(c, radix as nat) == Some(d as nat),
        r is None ==> digit_value(c, radix as nat) is None,
        r matches Some(d) ==> d < 16,
{
    if '0' <= c && c <= '9' {
        Some((c as u32 - '0' as u32) as usize)
    } else if radix == 16 && 'a' <= c && c <= 'f' {
        Some((c as u32 - 'a' as u32 + 10) as usize)
    } else if radix == 16 && 'A' <= c && c <= 'F' {
        Some((c as u32 - 'A' as u32 + 10) as usize)
    } else {
        None
    }
}

/// Reads `s[start..]` as an unsigned integer of at most `max`, as
/// `from_str_radix` does.
pub(crate) fn parse_unsigned_from(s: &Vec<char>, start: usize, radix: usize, max: usize) -> (r: Option<usize>)
    requires
        start <= s@.len(),
        radix == 10 || radix == 16,
    ensures
        r matches Some(v) ==> parse_unsigned(s@.skip(start as int), radix as nat, max as nat) == Some(v as nat),
        r is None ==> parse_unsigned(s@.skip(start as int), radix as nat, max as nat) is None,
{
    let ghost t = s@.skip(start as int);
    let mut i: usize = start;
    if i < s.len() && s[i] == '+' {
        i = i + 1;
    }
    let ghost body = s@.subrange(i as int, s@.len() as int);
    assert(body =~= (if t.len() > 0 && t[0] == '+' { t.drop_first() } else { t }));
    if i == s.len() {
        return None;
    }
    let first = i;
    let mut acc: usize = 0;
    while i < s.len()
        invariant
            first <= i <= s@.len(),
            first < s@.len(),
            t == s@.skip(start as int),
            body == s@.subrange(first as int, s@.len() as int),
            body == (if t.len() > 0 && t[0] == '+' { t.drop_first() } else { t }),
            radix == 10 || radix == 16,
            acc <= max,
            digits_value(s@.subrange(first as int, i as int), radix as nat) == Some(acc as nat),
        decreases s@.len() - i,
    {
        let ghost pre = s@.subrange(first as int, i as int);
        let ghost next = s@.subrange(first as int, i + 1);
        assert(next.drop_last() =~= pre);
        assert(next.last() == s@[i as int]);
        assert(body.subrange(0, (i + 1 - first) as int) =~= next);
        match digit_value_exec(s[i], radix) {
            None => {
                proof {
                    if digits_value(body, radix as nat) is Some {
                        lemma_digits_prefix(body, radix as nat, (i + 1 - first) as int);
                    }
                }
                return None;
            },
            Some(d) => {
                if d > max {
                    proof {
                        assert(acc * radix + d > max) by (nonlinear_arith)
                            requires
                                d > max,
                                acc >= 0,
                                radix > 0,
                        ;
                        if digits_value(body, radix as nat) is Some {
                            lemma_digits_prefix(body, radix as nat, (i + 1 - first) as int);
                        }
                    }
                    return None;
                }
                let bound = (max - d) / radix;
                if acc > bound {
                    proof {
                        assert(acc * radix + d > max) by (nonlinear_arith)
                            requires
                                acc > bound,
                                bound as int == (max as int - d as int) / (radix as int),
                                d <= max,
                                radix > 0,
                        ;
                        if digits_value(body, radix as nat) is Some {
                            lemma_digits_prefix(body, radix as nat, (i + 1 - first) as int);
                        }
                    }
                    return None;
                }
                assert(acc * radix + d <= max) by (nonlinear_arith)
                    requires
                        acc <= bound,
                        bound as int == (max as int - d as int) / (radix as int),
                        d <= max,
                        radix > 0,
                ;
                acc = acc * radix + d;
                i = i + 1;
            },
        }
    }
    assert(s@.subrange(first as int, i as int) =~= body);
    Some(acc)
}

} // verus!
