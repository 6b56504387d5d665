//! Text primitives of the digest: literal token replacement, decimal
//! numerals and line joining, each stated over sequences of characters.

use vstd::prelude::*;

verus! {

/// The text obtained from `text` by replacing every occurrence of `token`
/// with `value`. Occurrences are found from left to right and do not
/// overlap; the replacement is not searched again. An empty token occurs
/// before every character and once more at the end.
pub open spec fn substitute(text: Seq<char>, token: Seq<char>, value: Seq<char>) -> Seq<char>
    decreases text.len(),
{
    if text.len() == 0 {
        if token.len() == 0 {
            value
        } else {
            text
        }
    } else if token.len() == 0 {
        value + seq![text[0]] + substitute(text.skip(1), token, value)
    } else if token.is_prefix_of(text) {
        value + substitute(text.skip(token.len() as int), token, value)
    } else {
        seq![text[0]] + substitute(text.skip(1), token, value)
    }
}

/// Whether `token` occurs in `text` at position `at`.
pub open spec fn occurs_at(text: Seq<char>, token: Seq<char>, at: int) -> bool {
    &&& 0 <= at
    &&& at + token.len() <= text.len()
    &&& text.subrange(at, at + token.len()) == token
}

/// Whether `token` occurs anywhere in `text`.
pub open spec fn occurs_in(text: Seq<char>, token: Seq<char>) -> bool {
    exists|at: int| occurs_at(text, token, at)
}

/// The character that stands for the digit `d`, for `0 <= d <= 9`.
pub open spec fn digit_char(d: int) -> char {
    if d == 0 {
        '0'
    } else if d == 1 {
        '1'
    } else if d == 2 {
        '2'
    } else if d == 3 {
        '3'
    } else if d == 4 {
        '4'
    } else if d == 5 {
        '5'
    } else if d == 6 {
        '6'
    } else if d == 7 {
        '7'
    } else if d == 8 {
        '8'
    } else {
        '9'
    }
}

/// The decimal numeral of a natural number, without leading zeros.
pub open spec fn decimal_nat(n: nat) -> Seq<char>
    decreases n,
{
    if n < 10 {
        seq![digit_char(n as int)]
    } else {
        decimal_nat(n / 10).push(digit_char((n % 10) as int))
    }
}

/// The decimal numeral of an integer: a minus sign before the numeral of a
/// negative number's magnitude.
pub open spec fn decimal(n: int) -> Seq<char> {
    if n < 0 {
        seq!['-'] + decimal_nat((-n) as nat)
    } else {
        decimal_nat(n as nat)
    }
}

/// The lines joined into one text, with `separator` between neighbours
/// and nowhere else.
pub open spec fn join(lines: Seq<Seq<char>>, separator: Seq<char>) -> Seq<char>
    decreases lines.len(),
{
    if lines.len() == 0 {
        Seq::empty()
    } else if lines.len() == 1 {
        lines[0]
    } else {
        join(lines.drop_last(), separator) + separator + lines.last()
    }
}

/// Appends one character to a string, by `String::push` of std: the string
/// afterwards is the string before with `c` at its end.
#[verifier::external_body]
fn push_char(s: &mut String, c: char)
    ensures
        final(s)@ == old(s)@.push(c),
{
    s.push(c)
}

/// The characters of a string, in order.
pub fn chars_of(s: &str) -> (out: Vec<char>)
    ensures
        out@ == s@,
{
    let mut out: Vec<char> = Vec::new();
    for c in it: s.chars()
        invariant
            out@ == it.seq().take(it.index() as int),
    {
        out.push(c);
    }
    out
}

/// Whether `token` stands in `text` at position `at`.
fn starts_at(text: &Vec<char>, at: usize, token: &Vec<char>) -> (hit: bool)
    requires
        at <= text.len(),
    ensures
        hit == token@.is_prefix_of(text@.skip(at as int)),
{
    if token.len() > text.len() - at {
        return false;
    }
    let ghost rest = text@.skip(at as int);
    let mut j: usize = 0;
    while j < token.len()
        invariant
            at <= text.len(),
            token.len() <= text.len() - at,
            j <= token.len(),
            rest == text@.skip(at as int),
            forall|k: int| 0 <= k < j ==> token@[k] == rest[k],
        decreases token.len() - j,
    {
        if text[at + j] != token[j] {
            assert(rest.subrange(0, token@.len() as int)[j as int] == rest[j as int]);
            return false;
        }
        j += 1;
    }
    assert(token@ =~= rest.subrange(0, token@.len() as int));
    true
}

/// Replaces every occurrence of `token` in `text` with `value`, as
/// [`substitute`] says. A token that does not occur leaves the text as it is.
pub fn replace_all(text: &str, token: &str, value: &str) -> (out: String)
    ensures
        out@ == substitute(text@, token@, value@),
{
    let chars = chars_of(text);
    let pattern = chars_of(token);
    let mut out = String::new();
    let mut at: usize = 0;
    proof {
        assert(chars@.skip(0) =~= text@);
        assert(out@ + substitute(text@, token@, value@) =~= substitute(text@, token@, value@));
    }
    while at < chars.len()
        invariant
            at <= chars.len(),
            chars@ == text@,
            pattern@ == token@,
            out@ + substitute(chars@.skip(at as int), pattern@, value@) == substitute(
                text@,
                token@,
                value@,
            ),
        decreases chars.len() - at,
    {
        let ghost rest = chars@.skip(at as int);
        let ghost before = out@;
        if pattern.len() == 0 {
            out.append(value);
            push_char(&mut out, chars[at]);
            at += 1;
            proof {
                assert(rest.skip(1) =~= chars@.skip(at as int));
                assert(out@ + substitute(rest.skip(1), pattern@, value@) =~= before + substitute(
                    rest,
                    pattern@,
                    value@,
                ));
            }
        } else if starts_at(&chars, at, &pattern) {
            out.append(value);
            at += pattern.len();
            proof {
                assert(rest.skip(pattern@.len() as int) =~= chars@.skip(at as int));
                assert(out@ + substitute(rest.skip(pattern@.len() as int), pattern@, value@)
                    =~= before + substitute(rest, pattern@, value@));
            }
        } else {
            push_char(&mut out, chars[at]);
            at += 1;
            proof {
                assert(rest.skip(1) =~= chars@.skip(at as int));
                assert(out@ + substitute(rest.skip(1), pattern@, value@) =~= before + substitute(
                    rest,
                    pattern@,
                    value@,
                ));
            }
        }
    }
    if pattern.len() == 0 {
        out.append(value);
    }
    proof {
        assert(chars@.skip(at as int).len() == 0);
        assert(out@ =~= substitute(text@, token@, value@));
    }
    out
}

/// The character of one decimal digit.
fn digit_of(d: u32) -> (c: char)
    requires
        d < 10,
    ensures
        c == digit_char(d as int),
{
    if d == 0 {
        '0'
    } else if d == 1 {
        '1'
    } else if d == 2 {
        '2'
    } else if d == 3 {
        '3'
    } else if d == 4 {
        '4'
    } else if d == 5 {
        '5'
    } else if d == 6 {
        '6'
    } else if d == 7 {
        '7'
    } else if d == 8 {
        '8'
    } else {
        '9'
    }
}

/// Appends the decimal numeral of `n` to `out`.
pub fn push_decimal(out: &mut String, n: u32)
    ensures
        final(out)@ == old(out)@ + decimal_nat(n as nat),
    decreases n,
{
    if n >= 10 {
        push_decimal(out, n / 10);
    }
    push_char(out, digit_of(n % 10));
    proof {
        assert(final(out)@ =~= old(out)@ + decimal_nat(n as nat));
    }
}

/// The decimal numeral of a 16-bit signed number.
pub fn decimal_of(n: i16) -> (out: String)
    ensures
        out@ == decimal(n as int),
{
    let mut out = String::new();
    let wide: i32 = n as i32;
    if wide < 0 {
        push_char(&mut out, '-');
        push_decimal(&mut out, (-wide) as u32);
    } else {
        push_decimal(&mut out, wide as u32);
    }
    proof {
        assert(out@ =~= decimal(n as int));
    }
    out
}

/// Joins the lines with a line feed between neighbours.
pub fn join_lines(lines: &Vec<String>) -> (out: String)
    ensures
        out@ == join(lines@.map_values(|line: String| line@), seq!['\n']),
{
    let ghost views = lines@.map_values(|line: String| line@);
    let mut out = String::new();
    let mut i: usize = 0;
    while i < lines.len()
        invariant
            i <= lines.len(),
            views == lines@.map_values(|line: String| line@),
            out@ == join(views.take(i as int), seq!['\n']),
        decreases lines.len() - i,
    {
        if i > 0 {
            push_char(&mut out, '\n');
        }
        out.append(lines[i].as_str());
        proof {
            let next = views.take(i + 1);
            assert(next.drop_last() =~= views.take(i as int));
            assert(next.last() == lines@[i as int]@);
            assert(out@ =~= join(next, seq!['\n']));
        }
        i += 1;
    }
    proof {
        assert(views.take(i as int) =~= views);
    }
    out
}

/// A token that does not occur in a text leaves the text as it is,
/// whatever the value.
pub proof fn lemma_substitute_absent(text: Seq<char>, token: Seq<char>, value: Seq<char>)
    requires
        token.len() > 0,
        !occurs_in(text, token),
    ensures
        substitute(text, token, value) == text,
    decreases text.len(),
{
    if text.len() > 0 {
        if token.is_prefix_of(text) {
            assert(text.subrange(0, 0 + token.len() as int) == token);
            assert(occurs_at(text, token, 0));
        }
        let rest = text.skip(1);
        assert forall|at: int| !occurs_at(rest, token, at) by {
            if occurs_at(rest, token, at) {
                assert(text.subrange(at + 1, at + 1 + token.len()) =~= rest.subrange(
                    at,
                    at + token.len(),
                ));
                assert(occurs_at(text, token, at + 1));
            }
        }
        lemma_substitute_absent(rest, token, value);
        assert(seq![text[0]] + rest =~= text);
    }
}

/// Where a token stands at the very start of a text, its value stands at
/// the start of the result, and the rest of the text follows with its
/// own occurrences replaced. A text that is the token becomes the value.
pub proof fn lemma_substitute_at_start(rest: Seq<char>, token: Seq<char>, value: Seq<char>)
    requires
        token.len() > 0,
    ensures
        substitute(token + rest, token, value) == value + substitute(rest, token, value),
        substitute(token, token, value) == value,
{
    let text = token + rest;
    assert(text.subrange(0, token.len() as int) =~= token);
    assert(text.skip(token.len() as int) =~= rest);
    assert(token.subrange(0, token.len() as int) =~= token);
    let nothing = token.skip(token.len() as int);
    assert(nothing.len() == 0);
    assert(substitute(nothing, token, value) == nothing);
    assert(value + nothing =~= value);
}

} // verus!
