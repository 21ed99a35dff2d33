//! Verified text rendering: decimal numerals and lowercasing.
//!
//! ASCII text is lowercased character by character, with the exact result
//! proved.  Text outside ASCII is folded by `str::to_lowercase`, whose
//! result the specification names without spelling out Unicode case
//! mapping.
use vstd::prelude::*;
use vstd::string::StrSliceExecFns;
use vstd::string::StringExecFns;
use vstd::utf8::is_ascii_chars;

verus! {

/// The decimal digit character for `d`, which must lie between 0 and 9.
pub open spec fn digit_char(d: int) -> char {
    if d == 0 {
        '0'
    } else if d == 1 {
        '1'
    } else if d == 2 {
        '2'
    } else if d == 3 {
        '3'
    } else if d == 4 {
        '4'
    } else if d == 5 {
        '5'
    } else if d == 6 {
        '6'
    } else if d == 7 {
        '7'
    } else if d == 8 {
        '8'
    } else {
        '9'
    }
}

/// Decimal numeral of a natural number, most significant digit first,
/// without a sign and without leading zeros (zero itself is "0").
pub open spec fn dec_chars(n: nat) -> Seq<char>
    decreases n,
{
    if n < 10 {
        seq![digit_char(n as int)]
    } else {
        dec_chars(n / 10) + seq![digit_char((n % 10) as int)]
    }
}

/// The one-character string for a single decimal digit.
pub(crate) fn digit_str(d: u64) -> (r: &'static str)
    requires
        d < 10,
    ensures
        r@ == seq![digit_char(d as int)],
{
    if d == 0 {
        proof {
            reveal_strlit("0");
            assert("0"@ =~= seq![digit_char(d as int)]);
        }
        "0"
    } else if d == 1 {
        proof {
            reveal_strlit("1");
            assert("1"@ =~= seq![digit_char(d as int)]);
        }
        "1"
    } else if d == 2 {
        proof {
            reveal_strlit("2");
            assert("2"@ =~= seq![digit_char(d as int)]);
        }
        "2"
    } else if d == 3 {
        proof {
            reveal_strlit("3");
            assert("3"@ =~= seq![digit_char(d as int)]);
        }
        "3"
    } else if d == 4 {
        proof {
            reveal_strlit("4");
            assert("4"@ =~= seq![digit_char(d as int)]);
        }
        "4"
    } else if d == 5 {
        proof {
            reveal_strlit("5");
            assert("5"@ =~= seq![digit_char(d as int)]);
        }
        "5"
    } else if d == 6 {
        proof {
            reveal_strlit("6");
            assert("6"@ =~= seq![digit_char(d as int)]);
        }
        "6"
    } else if d == 7 {
        proof {
            reveal_strlit("7");
            assert("7"@ =~= seq![digit_char(d as int)]);
        }
        "7"
    } else if d == 8 {
        proof {
            reveal_strlit("8");
            assert("8"@ =~= seq![digit_char(d as int)]);
        }
        "8"
    } else {
        proof {
            reveal_strlit("9");
            assert("9"@ =~= seq![digit_char(d as int)]);
        }
        "9"
    }
}

/// Appends the decimal numeral of `n` to `s`.
pub fn push_dec(s: &mut String, n: u64)
    ensures
        final(s)@ == old(s)@ + dec_chars(n as nat),
    decreases n,
{
    if n >= 10 {
        push_dec(s, n / 10);
        let d = digit_str(n % 10);
        s.append(d);
        proof {
            assert(s@ =~= old(s)@ + dec_chars(n as nat));
        }
    } else {
        let d = digit_str(n);
        s.append(d);
        proof {
            assert(s@ =~= old(s)@ + dec_chars(n as nat));
        }
    }
}

/// ASCII lowercasing of one character: the letters A through Z map to
/// their lowercase counterparts, every other character is unchanged.
pub open spec fn lower_char(c: char) -> char {
    if c == 'A' {
        'a'
    } else if c == 'B' {
        'b'
    } else if c == 'C' {
        'c'
    } else if c == 'D' {
        'd'
    } else if c == 'E' {
        'e'
    } else if c == 'F' {
        'f'
    } else if c == 'G' {
        'g'
    } else if c == 'H' {
        'h'
    } else if c == 'I' {
        'i'
    } else if c == 'J' {
        'j'
    } else if c == 'K' {
        'k'
    } else if c == 'L' {
        'l'
    } else if c == 'M' {
        'm'
    } else if c == 'N' {
        'n'
    } else if c == 'O' {
        'o'
    } else if c == 'P' {
        'p'
    } else if c == 'Q' {
        'q'
    } else if c == 'R' {
        'r'
    } else if c == 'S' {
        's'
    } else if c == 'T' {
        't'
    } else if c == 'U' {
        'u'
    } else if c == 'V' {
        'v'
    } else if c == 'W' {
        'w'
    } else if c == 'X' {
        'x'
    } else if c == 'Y' {
        'y'
    } else if c == 'Z' {
        'z'
    } else {
        c
    }
}

/// ASCII lowercasing of a character sequence, character by character.
pub open spec fn lower_chars(s: Seq<char>) -> Seq<char> {
    Seq::new(s.len(), |i: int| lower_char(s[i]))
}

/// The lowercase string for an uppercase ASCII letter, or None for any
/// character that lowercases to itself.
fn lower_str(c: char) -> (o: Option<&'static str>)
    ensures
        match o {
            Some(l) => l@ == seq![lower_char(c)],
            None => lower_char(c) == c,
        },
{
    if c == 'A' {
        proof {
            reveal_strlit("a");
            assert("a"@ =~= seq![lower_char(c)]);
        }
        Some("a")
    } else if c == 'B' {
        proof {
            reveal_strlit("b");
            assert("b"@ =~= seq![lower_char(c)]);
        }
        Some("b")
    } else if c == 'C' {
        proof {
            reveal_strlit("c");
            assert("c"@ =~= seq![lower_char(c)]);
        }
        Some("c")
    } else if c == 'D' {
        proof {
            reveal_strlit("d");
            assert("d"@ =~= seq![lower_char(c)]);
        }
        Some("d")
    } else if c == 'E' {
        proof {
            reveal_strlit("e");
            assert("e"@ =~= seq![lower_char(c)]);
        }
        Some("e")
    } else if c == 'F' {
        proof {
            reveal_strlit("f");
            assert("f"@ =~= seq![lower_char(c)]);
        }
        Some("f")
    } else if c == 'G' {
        proof {
            reveal_strlit("g");
            assert("g"@ =~= seq![lower_char(c)]);
        }
        Some("g")
    } else if c == 'H' {
        proof {
            reveal_strlit("h");
            assert("h"@ =~= seq![lower_char(c)]);
        }
        Some("h")
    } else if c == 'I' {
        proof {
            reveal_strlit("i");
            assert("i"@ =~= seq![lower_char(c)]);
        }
        Some("i")
    } else if c == 'J' {
        proof {
            reveal_strlit("j");
            assert("j"@ =~= seq![lower_char(c)]);
        }
        Some("j")
    } else if c == 'K' {
        proof {
            reveal_strlit("k");
            assert("k"@ =~= seq![lower_char(c)]);
        }
        Some("k")
    } else if c == 'L' {
        proof {
            reveal_strlit("l");
            assert("l"@ =~= seq![lower_char(c)]);
        }
        Some("l")
    } else if c == 'M' {
        proof {
            reveal_strlit("m");
            assert("m"@ =~= seq![lower_char(c)]);
        }
        Some("m")
    } else if c == 'N' {
        proof {
            reveal_strlit("n");
            assert("n"@ =~= seq![lower_char(c)]);
        }
        Some("n")
    } else if c == 'O' {
        proof {
            reveal_strlit("o");
            assert("o"@ =~= seq![lower_char(c)]);
        }
        Some("o")
    } else if c == 'P' {
        proof {
            reveal_strlit("p");
            assert("p"@ =~= seq![lower_char(c)]);
        }
        Some("p")
    } else if c == 'Q' {
        proof {
            reveal_strlit("q");
            assert("q"@ =~= seq![lower_char(c)]);
        }
        Some("q")
    } else if c == 'R' {
        proof {
            reveal_strlit("r");
            assert("r"@ =~= seq![lower_char(c)]);
        }
        Some("r")
    } else if c == 'S' {
        proof {
            reveal_strlit("s");
            assert("s"@ =~= seq![lower_char(c)]);
        }
        Some("s")
    } else if c == 'T' {
        proof {
            reveal_strlit("t");
            assert("t"@ =~= seq![lower_char(c)]);
        }
        Some("t")
    } else if c == 'U' {
        proof {
            reveal_strlit("u");
            assert("u"@ =~= seq![lower_char(c)]);
        }
        Some("u")
    } else if c == 'V' {
        proof {
            reveal_strlit("v");
            assert("v"@ =~= seq![lower_char(c)]);
        }
        Some("v")
    } else if c == 'W' {
        proof {
            reveal_strlit("w");
            assert("w"@ =~= seq![lower_char(c)]);
        }
        Some("w")
    } else if c == 'X' {
        proof {
            reveal_strlit("x");
            assert("x"@ =~= seq![lower_char(c)]);
        }
        Some("x")
    } else if c == 'Y' {
        proof {
            reveal_strlit("y");
            assert("y"@ =~= seq![lower_char(c)]);
        }
        Some("y")
    } else if c == 'Z' {
        proof {
            reveal_strlit("z");
            assert("z"@ =~= seq![lower_char(c)]);
        }
        Some("z")
    } else {
        None
    }
}

/// The Unicode lowercase folding that `str::to_lowercase` computes.
pub uninterp spec fn lower_of(s: Seq<char>) -> Seq<char>;

/// Relies on `str::to_lowercase`: the folded result depends on the
/// characters alone.
#[verifier::external_body]
fn unicode_to_lower(s: &str) -> (r: String)
    ensures
        r@ == lower_of(s@),
{
    s.to_lowercase()
}

/// The lowercase folding of a character sequence: the exact ASCII folding
/// for ASCII text, and the folding of `str::to_lowercase` for any other
/// text.  On ASCII text the two agree, so this is the folding
/// `str::to_lowercase` computes, stated exactly wherever a few lines can
/// state it.
pub open spec fn lower_text(s: Seq<char>) -> Seq<char> {
    if is_ascii_chars(s) {
        lower_chars(s)
    } else {
        lower_of(s)
    }
}

/// Lowercases a string as `str::to_lowercase` does.
pub fn to_lower(s: &str) -> (r: String)
    ensures
        r@ == lower_text(s@),
{
    if s.is_ascii() {
        ascii_to_lower(s)
    } else {
        unicode_to_lower(s)
    }
}

/// ASCII-lowercases a string, character by character.
fn ascii_to_lower(s: &str) -> (r: String)
    ensures
        r@ == lower_chars(s@),
{
    let n = s.unicode_len();
    let mut r = String::new();
    let mut i: usize = 0;
    while i < n
        invariant
            n == s@.len(),
            i <= n,
            r@ == lower_chars(s@).take(i as int),
        decreases n - i,
    {
        let c = s.get_char(i);
        match lower_str(c) {
            Some(l) => {
                r.append(l);
            }
            None => {
                let piece = s.substring_char(i, i + 1);
                proof {
                    assert(piece@ =~= seq![s@[i as int]]);
                }
                r.append(piece);
            }
        }
        proof {
            assert(r@ =~= lower_chars(s@).take(i as int + 1));
        }
        i = i + 1;
    }
    proof {
        assert(lower_chars(s@).take(n as int) =~= lower_chars(s@));
    }
    r
}

} // verus!
