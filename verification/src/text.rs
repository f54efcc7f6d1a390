use vstd::prelude::*;

verus! {

/// The character of digit `d` in upper-case hexadecimal (and decimal) notation.
pub open spec fn digit_char(d: nat) -> char {
    if d < 10 {
        (48 + d) as char
    } else {
        (55 + d) as char
    }
}

/// Positional notation of `n` in base `base`, most significant digit first,
/// without leading zeros (zero is written as a single `0`).
pub open spec fn digits(n: nat, base: nat) -> Seq<char>
    decreases n,
{
    if base < 2 || n < base {
        seq![digit_char(n)]
    } else {
        proof {
            assert(n / base < n) by (nonlinear_arith)
                requires
                    base >= 2,
                    n >= base,
            ;
        }
        digits(n / base, base).push(digit_char(n % base))
    }
}

/// Decimal notation of `n`, as `format!("{}", n)` writes it.
pub open spec fn decimal(n: nat) -> Seq<char> {
    digits(n, 10)
}

/// Upper-case hexadecimal notation of `n`, as `format!("{:X}", n)` writes it.
pub open spec fn hex_upper(n: nat) -> Seq<char> {
    digits(n, 16)
}

/// Appends one character; a wrapper around `String::push`.
#[verifier::external_body]
pub(crate) fn push_char(s: &mut String, c: char)
    ensures
        final(s)@ == old(s)@.push(c),
{
    s.push(c);
}

fn digit(d: u64) -> (c: char)
    requires
        d < 16,
    ensures
        c == digit_char(d as nat),
{
    if d < 10 {
        ((48 + d) as u8) as char
    } else {
        ((55 + d) as u8) as char
    }
}

fn push_digits(s: &mut String, n: u64, base: u64)
    requires
        2 <= base <= 16,
    ensures
        final(s)@ == old(s)@ + digits(n as nat, base as nat),
    decreases n,
{
    let ghost before = s@;
    if n >= base {
        assert(n / base < n) by (nonlinear_arith)
            requires
                base >= 2,
                n >= base,
        ;
        push_digits(s, n / base, base);
    }
    push_char(s, digit(n % base));
    proof {
        if n >= base {
            let head = digits((n / base) as nat, base as nat);
            assert(digits(n as nat, base as nat) == head.push(digit_char((n % base) as nat)));
            assert(s@ =~= before + head.push(digit_char((n % base) as nat)));
        } else {
            assert(n % base == n) by (nonlinear_arith)
                requires
                    n < base,
            ;
            assert(s@ =~= before + seq![digit_char(n as nat)]);
        }
    }
}

/// Appends the decimal notation of `n`.
pub fn push_decimal(s: &mut String, n: u64)
    ensures
        final(s)@ == old(s)@ + decimal(n as nat),
{
    push_digits(s, n, 10);
}

/// Appends the upper-case hexadecimal notation of `n`.
pub fn push_hex_upper(s: &mut String, n: u64)
    ensures
        final(s)@ == old(s)@ + hex_upper(n as nat),
{
    push_digits(s, n, 16);
}

/// Decimal notation of `n` as a new string.
pub fn decimal_string(n: u64) -> (r: String)
    ensures
        r@ == decimal(n as nat),
{
    let mut s = String::new();
    push_decimal(&mut s, n);
    proof {
        assert(s@ == Seq::<char>::empty() + decimal(n as nat));
    }
    s
}

/// What `char::escape_debug` yields for `c`.
pub uninterp spec fn char_escape_debug(c: char) -> Seq<char>;

/// Collects `char::escape_debug(c)` into a string. Claimed: the result is
/// the named escape of `c`; nothing more about it is stated.
#[verifier::external_body]
fn escape_debug_char(c: char) -> (r: String)
    ensures
        r@ == char_escape_debug(c),
{
    c.escape_debug().collect()
}

/// How `{:?}` writes character `c` of a path: backslash, double quote,
/// newline, carriage return, tab and NUL get a backslash escape, printable
/// ASCII stands for itself (the single quote too, as std writes a path), and
/// every other character is escaped as `char::escape_debug` escapes it.
pub open spec fn debug_escape(c: char) -> Seq<char> {
    if c == '\\' {
        seq!['\\', '\\']
    } else if c == '"' {
        seq!['\\', '"']
    } else if c == '\n' {
        seq!['\\', 'n']
    } else if c == '\r' {
        seq!['\\', 'r']
    } else if c == '\t' {
        seq!['\\', 't']
    } else if c == '\0' {
        seq!['\\', '0']
    } else if 0x20 <= (c as u32) <= 0x7e {
        seq![c]
    } else {
        char_escape_debug(c)
    }
}

/// The characters of path `s`, each escaped as `{:?}` escapes it.
pub open spec fn debug_escaped(s: Seq<char>) -> Seq<char>
    decreases s.len(),
{
    if s.len() == 0 {
        seq![]
    } else {
        debug_escaped(s.drop_last()) + debug_escape(s.last())
    }
}

/// Path `s` as `format!("{:?}", path.display())` writes it: escaped, between
/// double quotes.
pub open spec fn debug_quoted(s: Seq<char>) -> Seq<char> {
    seq!['"'] + debug_escaped(s) + seq!['"']
}

fn push_debug_escape(r: &mut String, c: char)
    ensures
        final(r)@ == old(r)@ + debug_escape(c),
{
    let ghost start = r@;
    if c == '\\' {
        push_char(r, '\\');
        push_char(r, '\\');
    } else if c == '"' {
        push_char(r, '\\');
        push_char(r, '"');
    } else if c == '\n' {
        push_char(r, '\\');
        push_char(r, 'n');
    } else if c == '\r' {
        push_char(r, '\\');
        push_char(r, 'r');
    } else if c == '\t' {
        push_char(r, '\\');
        push_char(r, 't');
    } else if c == '\0' {
        push_char(r, '\\');
        push_char(r, '0');
    } else if 0x20 <= (c as u32) && (c as u32) <= 0x7e {
        push_char(r, c);
    } else {
        let e = escape_debug_char(c);
        r.append(e.as_str());
    }
    assert(r@ =~= start + debug_escape(c));
}

/// Appends path `s` as `format!("{:?}", path.display())` writes it:
/// escaped, between double quotes.
pub fn push_debug_quoted(r: &mut String, s: &str)
    ensures
        final(r)@ == old(r)@ + debug_quoted(s@),
{
    let ghost start = r@;
    push_char(r, '"');
    let n = s.unicode_len();
    let mut i: usize = 0;
    while i < n
        invariant
            n == s@.len(),
            i <= n,
            r@ == start + seq!['"'] + debug_escaped(s@.take(i as int)),
        decreases n - i,
    {
        let c = s.get_char(i);
        let ghost before = r@;
        push_debug_escape(r, c);
        proof {
            let next = s@.take(i + 1);
            assert(next.drop_last() =~= s@.take(i as int));
            assert(next.last() == c);
            assert(debug_escaped(next) == debug_escaped(s@.take(i as int)) + debug_escape(c));
            assert(r@ =~= start + seq!['"'] + debug_escaped(next));
        }
        i = i + 1;
    }
    push_char(r, '"');
    proof {
        assert(s@.take(n as int) =~= s@);
        assert(r@ =~= start + debug_quoted(s@));
    }
}

} // verus!
