//! Character-level text utilities: conversions between `String` and
//! `Vec<char>`, decimal rendering of numbers, left padding, and
//! non-overlapping pattern replacement. These carry the template
//! rendering of destination paths.

use vstd::prelude::*;

verus! {

/// Collects the characters of a string slice into a vector.
pub fn str_to_chars(s: &str) -> (r: Vec<char>)
    ensures
        r@ == s@,
{
    let mut r: Vec<char> = Vec::new();
    for c in it: s.chars()
        invariant
            it.seq() == s@,
            r@ == it.seq().subrange(0, it.index() as int),
    {
        r.push(c);
    }
    proof {
        assert(r@ =~= s@);
    }
    r
}

/// Relies on String's `FromIterator` over characters: collecting a
/// vector of characters yields the string whose character sequence is
/// exactly those characters, in order.
#[verifier::external_body]
pub(crate) fn chars_to_string(v: &Vec<char>) -> (r: String)
    ensures
        r@ == v@,
{
    v.iter().collect()
}

/// The character for a single decimal digit.
pub open spec fn digit_char(d: int) -> char {
    if d == 0 {
        '0'
    } else if d == 1 {
        '1'
    } else if d == 2 {
        '2'
    } else if d == 3 {
        '3'
    } else if d == 4 {
        '4'
    } else if d == 5 {
        '5'
    } else if d == 6 {
        '6'
    } else if d == 7 {
        '7'
    } else if d == 8 {
        '8'
    } else {
        '9'
    }
}

/// The usual decimal rendering of a natural number, most significant
/// digit first, with no leading zeros (a lone zero for 0).
pub open spec fn dec_digits(n: int) -> Seq<char>
    decreases n,
{
    if n < 10 {
        seq![digit_char(n)]
    } else {
        dec_digits(n / 10).push(digit_char(n % 10))
    }
}

fn digit_char_exec(d: u32) -> (r: char)
    requires
        0 <= d < 10,
    ensures
        r == digit_char(d as int),
{
    if d == 0 {
        '0'
    } else if d == 1 {
        '1'
    } else if d == 2 {
        '2'
    } else if d == 3 {
        '3'
    } else if d == 4 {
        '4'
    } else if d == 5 {
        '5'
    } else if d == 6 {
        '6'
    } else if d == 7 {
        '7'
    } else if d == 8 {
        '8'
    } else {
        '9'
    }
}

fn push_dec_digits(n: u32, out: &mut Vec<char>)
    ensures
        final(out)@ == old(out)@ + dec_digits(n as int),
    decreases n,
{
    if n < 10 {
        out.push(digit_char_exec(n));
        proof {
            assert(final(out)@ =~= old(out)@ + dec_digits(n as int));
        }
    } else {
        push_dec_digits(n / 10, out);
        out.push(digit_char_exec(n % 10));
        proof {
            assert(final(out)@ =~= old(out)@ + dec_digits(n as int));
        }
    }
}

/// The decimal rendering of `n` as a character vector.
pub fn u32_dec_chars(n: u32) -> (r: Vec<char>)
    ensures
        r@ == dec_digits(n as int),
{
    let mut r: Vec<char> = Vec::new();
    push_dec_digits(n, &mut r);
    proof {
        assert(r@ =~= dec_digits(n as int));
    }
    r
}

/// The decimal rendering of `n` as a string.
pub fn u32_to_string(n: u32) -> (r: String)
    ensures
        r@ == dec_digits(n as int),
{
    let chars = u32_dec_chars(n);
    chars_to_string(&chars)
}

/// The decimal rendering of `n`, left-padded with `pad` up to `width`
/// characters; a rendering already that wide is kept as it is.
pub open spec fn pad_left_spec(n: int, width: int, pad: char) -> Seq<char> {
    let digits = dec_digits(n);
    if digits.len() >= width {
        digits
    } else {
        Seq::new((width - digits.len()) as nat, |i: int| pad) + digits
    }
}

/// Left padding of a decimal rendering, as the path templates need it
/// for two-digit month and day components.
pub trait PadLeft {
    /// The number being rendered, as the contract speaks of it.
    spec fn pad_left_value(&self) -> int;

    /// Renders `self` in decimal, left-padded with `pad_char` to at
    /// least `width` characters.
    fn pad_left(&self, width: usize, pad_char: char) -> (r: String)
        ensures
            r@ == pad_left_spec(self.pad_left_value(), width as int, pad_char),
    ;
}

impl PadLeft for u32 {
    open spec fn pad_left_value(&self) -> int {
        *self as int
    }

    fn pad_left(&self, width: usize, pad_char: char) -> (r: String)
    {
        let chars = pad_left_chars(*self, width, pad_char);
        chars_to_string(&chars)
    }
}

/// The left-padded decimal rendering of `n` as a character vector.
#[verifier::loop_isolation(false)]
pub fn pad_left_chars(n: u32, width: usize, pad_char: char) -> (r: Vec<char>)
    ensures
        r@ == pad_left_spec(n as int, width as int, pad_char),
{
    let digits = u32_dec_chars(n);
    if digits.len() >= width {
        digits
    } else {
            let mut padded: Vec<char> = Vec::new();
            let pad_len = width - digits.len();
            let mut i: usize = 0;
            while i < pad_len
                invariant
                    i <= pad_len,
                    padded@ == Seq::new(i as nat, |j: int| pad_char),
                decreases pad_len - i,
            {
                padded.push(pad_char);
                proof {
                    assert(padded@ =~= Seq::new((i + 1) as nat, |j: int| pad_char));
                }
                i = i + 1;
            }
            let mut j: usize = 0;
            proof {
                assert(padded@ + digits@.subrange(0, 0) =~= padded@);
            }
            while j < digits.len()
                invariant
                    j <= digits@.len(),
                    padded@ == Seq::new(pad_len as nat, |k: int| pad_char) + digits@.subrange(
                        0,
                        j as int,
                    ),
                decreases digits@.len() - j,
            {
                let c = digits[j];
                padded.push(c);
                proof {
                    assert(padded@ =~= Seq::new(pad_len as nat, |k: int| pad_char)
                        + digits@.subrange(0, (j + 1) as int));
                }
                j = j + 1;
            }
            proof {
                assert(digits@.subrange(0, digits@.len() as int) =~= digits@);
                assert(padded@ =~= pad_left_spec(n as int, width as int, pad_char));
            }
            padded
    }
}

/// Whether `s` holds `c` anywhere.
pub fn contains_char(s: &Vec<char>, c: char) -> (r: bool)
    ensures
        r == s@.contains(c),
{
    let mut i: usize = 0;
    while i < s.len()
        invariant
            i <= s@.len(),
            forall|k: int| 0 <= k < i ==> s@[k] != c,
        decreases s@.len() - i,
    {
        if s[i] == c {
            return true;
        }
        i = i + 1;
    }
    false
}

/// A character's code point is the same whether read as `u32` or as
/// a mathematical integer.
pub proof fn lemma_char_cast(c: char)
    ensures
        c as u32 == c as int,
{
}

/// Lexicographic order on character sequences, by code point: the
/// order the structural comparator sorts entry names in.
pub open spec fn lex_le(a: Seq<char>, b: Seq<char>) -> bool
    decreases a.len(),
{
    if a.len() == 0 {
        true
    } else if b.len() == 0 {
        false
    } else if a[0] == b[0] {
        lex_le(a.drop_first(), b.drop_first())
    } else {
        (a[0] as int) < (b[0] as int)
    }
}

/// The lexicographic order as a relation value.
pub open spec fn lex_leq_order() -> spec_fn(Seq<char>, Seq<char>) -> bool {
    |a: Seq<char>, b: Seq<char>| lex_le(a, b)
}

pub proof fn lemma_lex_le_refl(a: Seq<char>)
    ensures
        lex_le(a, a),
    decreases a.len(),
{
    if a.len() > 0 {
        lemma_lex_le_refl(a.drop_first());
    }
}

pub proof fn lemma_lex_le_total(a: Seq<char>, b: Seq<char>)
    ensures
        lex_le(a, b) || lex_le(b, a),
    decreases a.len(),
{
    if a.len() > 0 && b.len() > 0 && a[0] == b[0] {
        lemma_lex_le_total(a.drop_first(), b.drop_first());
    }
}

pub proof fn lemma_lex_le_antisym(a: Seq<char>, b: Seq<char>)
    requires
        lex_le(a, b),
        lex_le(b, a),
    ensures
        a == b,
    decreases a.len(),
{
    if a.len() > 0 && b.len() > 0 && a[0] == b[0] {
        lemma_lex_le_antisym(a.drop_first(), b.drop_first());
        assert(a =~= seq![a[0]] + a.drop_first());
        assert(b =~= seq![b[0]] + b.drop_first());
    }
}

pub proof fn lemma_lex_le_trans(a: Seq<char>, b: Seq<char>, c: Seq<char>)
    requires
        lex_le(a, b),
        lex_le(b, c),
    ensures
        lex_le(a, c),
    decreases a.len(),
{
    if a.len() > 0 && b.len() > 0 && c.len() > 0 && a[0] == b[0] && b[0] == c[0] {
        lemma_lex_le_trans(a.drop_first(), b.drop_first(), c.drop_first());
    }
}

/// The lexicographic order is a total ordering, as sorting needs it.
pub proof fn lemma_lex_total_ordering()
    ensures
        vstd::relations::total_ordering(lex_leq_order()),
{
    let leq = lex_leq_order();
    assert forall|a: Seq<char>| #[trigger] leq(a, a) by {
        lemma_lex_le_refl(a);
    }
    assert forall|a: Seq<char>, b: Seq<char>| #[trigger] leq(a, b) && #[trigger] leq(b, a)
        implies a == b by {
        lemma_lex_le_antisym(a, b);
    }
    assert forall|a: Seq<char>, b: Seq<char>, c: Seq<char>|
        #[trigger] leq(a, b) && #[trigger] leq(b, c) implies leq(a, c) by {
        lemma_lex_le_trans(a, b, c);
    }
    assert forall|a: Seq<char>, b: Seq<char>| #[trigger] leq(a, b) || #[trigger] leq(b, a) by {
        lemma_lex_le_total(a, b);
    }
}

fn lex_le_from(a: &Vec<char>, b: &Vec<char>, i: usize) -> (r: bool)
    requires
        i <= a@.len(),
        i <= b@.len(),
    ensures
        r == lex_le(a@.skip(i as int), b@.skip(i as int)),
    decreases a@.len() - i,
{
    if i == a.len() {
        proof {
            assert(a@.skip(i as int) =~= Seq::<char>::empty());
        }
        true
    } else if i == b.len() {
        proof {
            assert(b@.skip(i as int) =~= Seq::<char>::empty());
        }
        false
    } else {
        proof {
            assert(a@.skip(i as int)[0] == a@[i as int]);
            assert(b@.skip(i as int)[0] == b@[i as int]);
            assert(a@.skip(i as int).drop_first() =~= a@.skip(i + 1));
            assert(b@.skip(i as int).drop_first() =~= b@.skip(i + 1));
        }
        let ca = a[i];
        let cb = b[i];
        if ca == cb {
            lex_le_from(a, b, i + 1)
        } else {
            proof {
                lemma_char_cast(ca);
                lemma_char_cast(cb);
            }
            (ca as u32) < (cb as u32)
        }
    }
}

/// Whether `a` comes no later than `b` in lexicographic order.
pub fn chars_lex_le(a: &Vec<char>, b: &Vec<char>) -> (r: bool)
    ensures
        r == lex_le(a@, b@),
{
    let r = lex_le_from(a, b, 0);
    proof {
        assert(a@.skip(0) =~= a@);
        assert(b@.skip(0) =~= b@);
    }
    r
}

/// Whether string `a` comes no later than `b` in lexicographic order.
pub fn string_lex_le(a: &String, b: &String) -> (r: bool)
    ensures
        r == lex_le(a@, b@),
{
    let av = str_to_chars(a.as_str());
    let bv = str_to_chars(b.as_str());
    chars_lex_le(&av, &bv)
}

/// `s` with every non-overlapping occurrence of `pat`, found left to
/// right, replaced by `sub`. An empty pattern leaves `s` unchanged.
pub open spec fn replace_all_spec(s: Seq<char>, pat: Seq<char>, sub: Seq<char>) -> Seq<char>
    decreases s.len(),
{
    if pat.len() == 0 {
        s
    } else if s.len() < pat.len() {
        s
    } else if s.subrange(0, pat.len() as int) == pat {
        sub + replace_all_spec(s.skip(pat.len() as int), pat, sub)
    } else {
        seq![s[0]] + replace_all_spec(s.skip(1), pat, sub)
    }
}

/// Whether `pat` occurs in `s` at position `i`.
fn match_at(s: &Vec<char>, pat: &Vec<char>, i: usize) -> (r: bool)
    requires
        i + pat@.len() <= s@.len(),
    ensures
        r == (s@.subrange(i as int, i + pat@.len()) == pat@),
{
    let mut k: usize = 0;
    while k < pat.len()
        invariant
            k <= pat@.len(),
            i + pat@.len() <= s@.len(),
            forall|j: int| 0 <= j < k ==> s@[i + j] == pat@[j],
        decreases pat@.len() - k,
    {
        let n = s.len();
        proof {
            assert(i + k < n);
        }
        if s[i + k] != pat[k] {
            proof {
                assert(s@.subrange(i as int, i + pat@.len())[k as int] == s@[i + k]);
            }
            return false;
        }
        k = k + 1;
    }
    proof {
        assert(s@.subrange(i as int, i + pat@.len()) =~= pat@);
    }
    true
}

/// Replaces every non-overlapping occurrence of `pat` in `s` by `sub`,
/// scanning left to right. An empty pattern leaves `s` unchanged.
#[verifier::loop_isolation(false)]
pub fn replace_all(s: &Vec<char>, pat: &Vec<char>, sub: &Vec<char>) -> (r: Vec<char>)
    ensures
        r@ == replace_all_spec(s@, pat@, sub@),
{
    let mut out: Vec<char> = Vec::new();
    let mut i: usize = 0;
    if pat.len() == 0 {
        while i < s.len()
            invariant
                i <= s@.len(),
                pat@.len() == 0,
                out@ == s@.subrange(0, i as int),
            decreases s@.len() - i,
        {
            let c = s[i];
            out.push(c);
            proof {
                assert(out@ =~= s@.subrange(0, (i + 1) as int));
            }
            i = i + 1;
        }
        proof {
            assert(out@ =~= s@);
        }
        return out;
    }
    proof {
        assert(s@.skip(0) =~= s@);
    }
    while i < s.len()
        invariant
            i <= s@.len(),
            replace_all_spec(s@, pat@, sub@) == out@ + replace_all_spec(
                s@.skip(i as int),
                pat@,
                sub@,
            ),
        decreases s@.len() - i,
    {
        let ghost rest = s@.skip(i as int);
        if pat.len() <= s.len() - i && match_at(s, pat, i) {
            proof {
                assert(rest.subrange(0, pat@.len() as int) =~= s@.subrange(
                    i as int,
                    i + pat@.len(),
                ));
                assert(rest.skip(pat@.len() as int) =~= s@.skip(i + pat@.len()));
            }
            let ghost prev = out@;
            let mut k: usize = 0;
            proof {
                assert(out@ =~= prev + sub@.subrange(0, 0));
            }
            while k < sub.len()
                invariant
                    k <= sub@.len(),
                    out@ == prev + sub@.subrange(0, k as int),
                decreases sub@.len() - k,
            {
                let c = sub[k];
                out.push(c);
                proof {
                    assert(out@ =~= prev + sub@.subrange(0, (k + 1) as int));
                }
                k = k + 1;
            }
            proof {
                assert(sub@.subrange(0, sub@.len() as int) =~= sub@);
                assert(out@ + replace_all_spec(s@.skip(i + pat@.len()), pat@, sub@) =~= prev
                    + replace_all_spec(rest, pat@, sub@));
            }
            i = i + pat.len();
        } else {
            proof {
                if i + pat@.len() <= s@.len() {
                    assert(rest.subrange(0, pat@.len() as int) =~= s@.subrange(
                        i as int,
                        i + pat@.len(),
                    ));
                }
                assert(rest.skip(1) =~= s@.skip(i + 1));
                assert(seq![rest[0]] =~= seq![s@[i as int]]);
            }
            let c = s[i];
            out.push(c);
            i = i + 1;
        }
    }
    proof {
        assert(s@.skip(i as int) =~= Seq::<char>::empty());
        assert(out@ =~= replace_all_spec(s@, pat@, sub@));
    }
    out
}

} // verus!
