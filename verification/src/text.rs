//! Text building blocks of the wire encoder: decimal rendering of ids and
//! JSON string escaping, each proved against a direct specification.

use vstd::prelude::*;

verus! {

/// Relies on `String::push` of std, which vstd leaves unspecified: it
/// appends exactly the one character to the string.
pub assume_specification[ String::push ](s: &mut String, ch: char)
    ensures
        final(s)@ == old(s)@ + seq![ch],
;

/// The decimal digit character for `d < 10`.
pub open spec fn spec_digit_char(d: nat) -> char {
    if d == 0 {
        '0'
    } else if d == 1 {
        '1'
    } else if d == 2 {
        '2'
    } else if d == 3 {
        '3'
    } else if d == 4 {
        '4'
    } else if d == 5 {
        '5'
    } else if d == 6 {
        '6'
    } else if d == 7 {
        '7'
    } else if d == 8 {
        '8'
    } else {
        '9'
    }
}

/// The hexadecimal digit character for `d < 16`, lower case.
pub open spec fn spec_hex_char(d: nat) -> char {
    if d < 10 {
        spec_digit_char(d)
    } else if d == 10 {
        'a'
    } else if d == 11 {
        'b'
    } else if d == 12 {
        'c'
    } else if d == 13 {
        'd'
    } else if d == 14 {
        'e'
    } else {
        'f'
    }
}

/// The decimal rendering of `n`, most significant digit first, without
/// leading zeros (a single zero for zero).
pub open spec fn spec_dec_digits(n: nat) -> Seq<char>
    decreases n,
{
    if n < 10 {
        seq![spec_digit_char(n)]
    } else {
        spec_dec_digits(n / 10).push(spec_digit_char(n % 10))
    }
}

/// How one character appears inside a JSON string literal: quote and
/// backslash are escaped, common control characters get their short
/// escapes, other control characters the `\u00XX` form, and everything
/// else stands for itself.
pub open spec fn spec_escape_char(c: char) -> Seq<char> {
    if c == '"' {
        seq!['\\', '"']
    } else if c == '\\' {
        seq!['\\', '\\']
    } else if c == '\n' {
        seq!['\\', 'n']
    } else if c == '\r' {
        seq!['\\', 'r']
    } else if c == '\t' {
        seq!['\\', 't']
    } else if (c as nat) < 32 {
        seq!['\\', 'u', '0', '0', spec_hex_char((c as nat) / 16), spec_hex_char((c as nat) % 16)]
    } else {
        seq![c]
    }
}

/// The body of the JSON string literal holding `s`.
pub open spec fn spec_escape(s: Seq<char>) -> Seq<char>
    decreases s.len(),
{
    if s.len() == 0 {
        Seq::empty()
    } else {
        spec_escape_char(s[0]) + spec_escape(s.drop_first())
    }
}

/// Escaping a sequence one character longer appends that character's
/// escape.
pub proof fn lemma_escape_push(s: Seq<char>, x: char)
    ensures
        spec_escape(s.push(x)) =~= spec_escape(s) + spec_escape_char(x),
    decreases s.len(),
{
    if s.len() == 0 {
        assert(s.push(x)[0] == x);
        assert(s.push(x).drop_first() =~= Seq::<char>::empty());
        assert(spec_escape(s.push(x)) == spec_escape_char(x) + spec_escape(Seq::<char>::empty()));
        assert(spec_escape(s) =~= Seq::<char>::empty());
        assert(spec_escape(s.push(x)) =~= spec_escape(s) + spec_escape_char(x));
    } else {
        lemma_escape_push(s.drop_first(), x);
        assert(s.push(x).drop_first() =~= s.drop_first().push(x));
        assert(s.push(x)[0] == s[0]);
        let a = spec_escape_char(s[0]);
        let b = spec_escape(s.drop_first());
        let c = spec_escape_char(x);
        assert(spec_escape(s.push(x)) == spec_escape_char(s.push(x)[0]) + spec_escape(
            s.push(x).drop_first(),
        ));
        assert(spec_escape(s.drop_first().push(x)) =~= b + c);
        assert(spec_escape(s.push(x)) =~= a + (b + c));
        assert(spec_escape(s) == a + b);
        assert(a + (b + c) =~= (a + b) + c);
    }
}

/// The decimal digit as a one-character string slice.
fn digit_str(d: u64) -> (r: &'static str)
    requires
        d < 10,
    ensures
        r@ =~= seq![spec_digit_char(d as nat)],
{
    proof {
        reveal_strlit("0");
        reveal_strlit("1");
        reveal_strlit("2");
        reveal_strlit("3");
        reveal_strlit("4");
        reveal_strlit("5");
        reveal_strlit("6");
        reveal_strlit("7");
        reveal_strlit("8");
        reveal_strlit("9");
    }
    match d {
        0 => "0",
        1 => "1",
        2 => "2",
        3 => "3",
        4 => "4",
        5 => "5",
        6 => "6",
        7 => "7",
        8 => "8",
        _ => "9",
    }
}

/// The hexadecimal digit as a one-character string slice.
fn hex_str(d: u64) -> (r: &'static str)
    requires
        d < 16,
    ensures
        r@ =~= seq![spec_hex_char(d as nat)],
{
    proof {
        reveal_strlit("a");
        reveal_strlit("b");
        reveal_strlit("c");
        reveal_strlit("d");
        reveal_strlit("e");
        reveal_strlit("f");
    }
    if d < 10 {
        digit_str(d)
    } else {
        match d {
            10 => "a",
            11 => "b",
            12 => "c",
            13 => "d",
            14 => "e",
            _ => "f",
        }
    }
}

/// Renders `n` in decimal.
pub fn u64_to_dec(n: u64) -> (r: String)
    ensures
        r@ =~= spec_dec_digits(n as nat),
    decreases n,
{
    if n < 10 {
        let mut s = String::new();
        s.append(digit_str(n));
        s
    } else {
        let mut s = u64_to_dec(n / 10);
        s.append(digit_str(n % 10));
        proof {
            assert(spec_dec_digits(n as nat) =~= spec_dec_digits((n as nat) / 10).push(
                spec_digit_char((n as nat) % 10),
            ));
        }
        s
    }
}

/// Appends the escaped form of one character.
fn append_escaped_char(out: &mut String, c: char)
    ensures
        final(out)@ =~= old(out)@ + spec_escape_char(c),
{
    if c == '"' {
        proof {
            reveal_strlit("\\\"");
        }
        out.append("\\\"");
    } else if c == '\\' {
        proof {
            reveal_strlit("\\\\");
        }
        out.append("\\\\");
    } else if c == '\n' {
        proof {
            reveal_strlit("\\n");
        }
        out.append("\\n");
    } else if c == '\r' {
        proof {
            reveal_strlit("\\r");
        }
        out.append("\\r");
    } else if c == '\t' {
        proof {
            reveal_strlit("\\t");
        }
        out.append("\\t");
    } else if (c as u32) < 32 {
        proof {
            reveal_strlit("\\u00");
        }
        let v = c as u32;
        out.append("\\u00");
        out.append(hex_str((v / 16) as u64));
        out.append(hex_str((v % 16) as u64));
    } else {
        out.push(c);
    }
}

/// Builds the body of the JSON string literal holding `s`.
pub fn escape_json(s: &str) -> (r: String)
    ensures
        r@ =~= spec_escape(s@),
{
    let n = s.unicode_len();
    let mut out = String::new();
    let mut i: usize = 0;
    while i < n
        invariant
            n == s@.len(),
            i <= n,
            out@ =~= spec_escape(s@.take(i as int)),
        decreases n - i,
    {
        let c = s.get_char(i);
        append_escaped_char(&mut out, c);
        proof {
            lemma_escape_push(s@.take(i as int), c);
            assert(s@.take(i + 1 as int) =~= s@.take(i as int).push(s@[i as int]));
        }
        i += 1;
    }
    proof {
        assert(s@.take(n as int) =~= s@);
    }
    out
}

} // verus!
