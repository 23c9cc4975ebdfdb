//! Text building: characters, padding, joining, decimal numbers and the
//! normalisation of ideographic spaces.
use vstd::prelude::*;
use crate::model::texts;

verus! {

/// The ideographic space that the upstream texts use as a separator.
pub const IDEOGRAPHIC_SPACE: char = '\u{3000}';

/// A text with each ideographic space replaced by an ordinary space.
pub open spec fn normalized(s: Seq<char>) -> Seq<char> {
    s.map_values(|c: char| if c == IDEOGRAPHIC_SPACE { ' ' } else { c })
}

/// `s` padded on the right with spaces to at least `width` characters.
pub open spec fn padded(s: Seq<char>, width: nat) -> Seq<char> {
    if s.len() >= width {
        s
    } else {
        s + Seq::new((width - s.len()) as nat, |_i: int| ' ')
    }
}

/// The texts joined with `sep` between neighbours.
pub open spec fn joined(parts: Seq<Seq<char>>, sep: Seq<char>) -> Seq<char>
    decreases parts.len(),
{
    if parts.len() == 0 {
        Seq::empty()
    } else if parts.len() == 1 {
        parts[0]
    } else {
        joined(parts.drop_last(), sep) + sep + parts.last()
    }
}

/// The decimal digit for `d` below ten.
pub open spec fn digit(d: nat) -> char {
    if d == 0 { '0' }
    else if d == 1 { '1' }
    else if d == 2 { '2' }
    else if d == 3 { '3' }
    else if d == 4 { '4' }
    else if d == 5 { '5' }
    else if d == 6 { '6' }
    else if d == 7 { '7' }
    else if d == 8 { '8' }
    else { '9' }
}

/// The decimal notation of `n`, without leading zeros.
pub open spec fn decimal(n: nat) -> Seq<char>
    decreases n,
{
    if n < 10 {
        seq![digit(n)]
    } else {
        decimal(n / 10).push(digit(n % 10))
    }
}

/// Relies on `String::push`: it appends one character.
#[verifier::external_body]
pub(crate) fn push_char(s: &mut String, c: char)
    ensures
        final(s)@ == old(s)@.push(c),
{
    s.push(c)
}

/// Relies on collecting `str::chars` into a `Vec`: the characters in order.
#[verifier::external_body]
pub(crate) fn chars_of(s: &str) -> (r: Vec<char>)
    ensures
        r@ == s@,
{
    s.chars().collect()
}

pub fn digit_char(d: u32) -> (c: char)
    requires
        d < 10,
    ensures
        c == digit(d as nat),
{
    match d {
        0 => '0',
        1 => '1',
        2 => '2',
        3 => '3',
        4 => '4',
        5 => '5',
        6 => '6',
        7 => '7',
        8 => '8',
        _ => '9',
    }
}

/// Appends the decimal notation of `n`.
pub fn push_decimal(out: &mut String, n: usize)
    ensures
        final(out)@ == old(out)@ + decimal(n as nat),
    decreases n,
{
    if n < 10 {
        push_char(out, digit_char(n as u32));
        assert(old(out)@.push(digit(n as nat)) =~= old(out)@ + seq![digit(n as nat)]);
    } else {
        push_decimal(out, n / 10);
        push_char(out, digit_char((n % 10) as u32));
        assert(old(out)@ + decimal((n / 10) as nat).push(digit((n % 10) as nat)) =~= (old(out)@
            + decimal((n / 10) as nat)).push(digit((n % 10) as nat)));
    }
}

/// Replaces each ideographic space by an ordinary space.
pub fn sanitize_unicode_spaces(input: &str) -> (r: String)
    ensures
        r@ == normalized(input@),
{
    let cs = chars_of(input);
    let mut out = String::new();
    let mut i: usize = 0;
    while i < cs.len()
        invariant
            cs@ == input@,
            i <= cs@.len(),
            out@ =~= normalized(input@).subrange(0, i as int),
        decreases cs.len() - i,
    {
        let c = cs[i];
        if c == IDEOGRAPHIC_SPACE {
            push_char(&mut out, ' ');
        } else {
            push_char(&mut out, c);
        }
        i = i + 1;
    }
    out
}

/// Appends `s` padded on the right with spaces to at least `width` characters.
pub fn push_padded(out: &mut String, s: &str, width: usize)
    ensures
        final(out)@ == old(out)@ + padded(s@, width as nat),
{
    out.append(s);
    let n = s.unicode_len();
    let mut k: usize = n;
    while k < width
        invariant
            n == s@.len(),
            out@ =~= old(out)@ + s@ + Seq::new((k - n) as nat, |_i: int| ' '),
            n <= k,
            k == n || k <= width,
        decreases width - k,
    {
        push_char(out, ' ');
        k = k + 1;
    }
    assert(out@ =~= old(out)@ + padded(s@, width as nat));
}

/// Appends the texts of `parts` joined with `sep`.
pub fn push_joined(out: &mut String, parts: &Vec<String>, sep: &str)
    ensures
        final(out)@ == old(out)@ + joined(texts(parts@), sep@),
{
    let mut i: usize = 0;
    while i < parts.len()
        invariant
            i <= parts@.len(),
            out@ == old(out)@ + joined(texts(parts@).subrange(0, i as int), sep@),
        decreases parts.len() - i,
    {
        let ghost before = out@;
        let ghost prefix = texts(parts@).subrange(0, i as int);
        let ghost next = texts(parts@).subrange(0, i + 1);
        assert(next.drop_last() =~= prefix);
        if i > 0 {
            out.append(sep);
        }
        out.append(parts[i].as_str());
        if i == 0 {
            assert(joined(next, sep@) == next[0]);
            assert(joined(prefix, sep@) =~= Seq::empty());
        }
        assert(out@ =~= old(out)@ + joined(next, sep@));
        i = i + 1;
    }
    assert(texts(parts@).subrange(0, parts@.len() as int) =~= texts(parts@));
}

/// Normalising replaces exactly the ideographic spaces, each by an ordinary
/// space at the same position; a text without one is returned unchanged, and
/// normalising twice is normalising once.
pub proof fn lemma_normalized(s: Seq<char>)
    ensures
        normalized(s).len() == s.len(),
        forall|i: int|
            0 <= i < s.len() ==> (#[trigger] normalized(s)[i]) == (if s[i] == IDEOGRAPHIC_SPACE {
                ' '
            } else {
                s[i]
            }),
        !s.contains(IDEOGRAPHIC_SPACE) ==> normalized(s) == s,
        normalized(normalized(s)) == normalized(s),
{
    if !s.contains(IDEOGRAPHIC_SPACE) {
        assert(normalized(s) =~= s);
    }
    assert(normalized(normalized(s)) =~= normalized(s));
}

} // verus!
