//! Character-level building blocks shared by the query encoder and the
//! JSON body builder: hexadecimal digits, decimal rendering of integers,
//! and conversion of an accumulated character buffer into a `String`.

use vstd::prelude::*;

verus! {

/// The character for one hexadecimal digit, upper case.
pub open spec fn hex_char(n: u8) -> char
    recommends
        n < 16,
{
    if n < 10 {
        ((48 + n) as u8) as char
    } else {
        ((55 + n) as u8) as char
    }
}

/// The character for one decimal digit.
pub open spec fn dec_char(n: u8) -> char
    recommends
        n < 10,
{
    ((48 + n) as u8) as char
}

/// The decimal rendering of `n`, most significant digit first, with no
/// leading zeros (a single `'0'` for zero).
pub open spec fn dec_digits(n: nat) -> Seq<char>
    decreases n,
{
    if n < 10 {
        seq![dec_char(n as u8)]
    } else {
        dec_digits(n / 10) + seq![dec_char((n % 10) as u8)]
    }
}

/// Exec mirror of [`hex_char`].
pub fn hex_char_exec(n: u8) -> (c: char)
    requires
        n < 16,
    ensures
        c == hex_char(n),
{
    if n < 10 {
        (48 + n) as char
    } else {
        (55 + n) as char
    }
}

/// Appends the decimal rendering of `n` to `out`.
pub fn push_dec_u64(out: &mut Vec<char>, n: u64)
    ensures
        final(out)@ == old(out)@ + dec_digits(n as nat),
    decreases n,
{
    if n < 10 {
        out.push((48 + (n as u8)) as char);
    } else {
        push_dec_u64(out, n / 10);
        out.push((48 + ((n % 10) as u8)) as char);
    }
}

/// Appends the characters of `s` to `out`.
pub fn push_str_chars(out: &mut Vec<char>, s: &str)
    ensures
        final(out)@ == old(out)@ + s@,
{
    let n = s.unicode_len();
    let mut i: usize = 0;
    while i < n
        invariant
            i <= n,
            n == s@.len(),
            out@ == old(out)@ + s@.take(i as int),
        decreases n - i,
    {
        out.push(s.get_char(i));
        i = i + 1;
        assert(s@.take(i as int) == s@.take(i as int - 1).push(s@[i as int - 1]));
    }
    assert(s@.take(n as int) == s@);
}

/// Whether two strings hold the same characters.
pub fn str_eq_chars(a: &str, b: &str) -> (r: bool)
    ensures
        r == (a@ == b@),
{
    let an = a.unicode_len();
    let bn = b.unicode_len();
    if an != bn {
        return false;
    }
    let mut i: usize = 0;
    while i < an
        invariant
            i <= an,
            an == a@.len(),
            bn == b@.len(),
            an == bn,
            forall|j: int| 0 <= j < i ==> a@[j] == b@[j],
        decreases an - i,
    {
        if a.get_char(i) != b.get_char(i) {
            return false;
        }
        i = i + 1;
    }
    proof {
        assert(a@ =~= b@);
    }
    true
}

/// Relies on `String`'s `FromIterator<char>` impl: collecting characters
/// yields the string of exactly those characters in order.
#[verifier::external_body]
pub fn chars_to_string(v: Vec<char>) -> (r: String)
    ensures
        r@ == v@,
{
    v.into_iter().collect()
}

/// The pieces of `ps` joined by the separator `sep`.
pub open spec fn join_with(ps: Seq<Seq<char>>, sep: char) -> Seq<char>
    decreases ps.len(),
{
    if ps.len() == 0 {
        seq![]
    } else if ps.len() == 1 {
        ps[0]
    } else {
        ps[0] + seq![sep] + join_with(ps.drop_first(), sep)
    }
}

/// Joining one more piece appends a separator exactly when pieces came before.
pub proof fn lemma_join_with_snoc(ps: Seq<Seq<char>>, p: Seq<char>, sep: char)
    ensures
        join_with(ps.push(p), sep) == if ps.len() == 0 {
            p
        } else {
            join_with(ps, sep) + seq![sep] + p
        },
    decreases ps.len(),
{
    if ps.len() == 0 {
        assert(ps.push(p)[0] == p);
        assert(join_with(ps.push(p), sep) == p);
    } else {
        assert(ps.push(p).drop_first() =~= ps.drop_first().push(p));
        lemma_join_with_snoc(ps.drop_first(), p, sep);
        assert(join_with(ps.push(p), sep) =~= join_with(ps, sep) + seq![sep] + p);
    }
}

/// Whether `b` is a byte that query escaping leaves as it is: an ASCII
/// letter, a digit, `-`, `.`, `_` or `~`.
pub open spec fn is_unreserved(b: u8) -> bool {
    (48 <= b && b <= 57) || (65 <= b && b <= 90) || (97 <= b && b <= 122) || b == 45 || b == 46
        || b == 95 || b == 126
}

/// The percent-encoding of one byte: itself when unreserved, `%XX` otherwise.
pub open spec fn percent_encoded_byte(b: u8) -> Seq<char> {
    if is_unreserved(b) {
        seq![b as char]
    } else {
        seq!['%', hex_char(b / 16), hex_char(b % 16)]
    }
}

/// The percent-encoding of a byte sequence.
pub open spec fn percent_encoded(bs: Seq<u8>) -> Seq<char>
    decreases bs.len(),
{
    if bs.len() == 0 {
        seq![]
    } else {
        percent_encoded_byte(bs[0]) + percent_encoded(bs.drop_first())
    }
}

proof fn lemma_percent_encoded_snoc(bs: Seq<u8>, b: u8)
    ensures
        percent_encoded(bs.push(b)) == percent_encoded(bs) + percent_encoded_byte(b),
    decreases bs.len(),
{
    if bs.len() == 0 {
        assert(bs.push(b)[0] == b);
        assert(bs.push(b).drop_first() =~= Seq::<u8>::empty());
        assert(percent_encoded(Seq::<u8>::empty()) =~= Seq::<char>::empty());
        assert(percent_encoded(bs) =~= Seq::<char>::empty());
        assert(percent_encoded(bs.push(b)) =~= percent_encoded(bs) + percent_encoded_byte(b));
    } else {
        assert(bs.push(b).drop_first() =~= bs.drop_first().push(b));
        lemma_percent_encoded_snoc(bs.drop_first(), b);
        assert(percent_encoded(bs.push(b)) =~= percent_encoded(bs) + percent_encoded_byte(b));
    }
}

/// The standard URL query escaping of a string: the percent-encoding of its
/// UTF-8 bytes.
pub open spec fn percent_encoding_of(s: Seq<char>) -> Seq<char> {
    percent_encoded(vstd::utf8::encode_utf8(s))
}

/// Appends the percent-encoding of `s` to `out`.
pub fn push_percent_encoded(out: &mut Vec<char>, s: &str)
    ensures
        final(out)@ == old(out)@ + percent_encoding_of(s@),
{
    let bs = s.as_bytes();
    let n = bs.len();
    let mut i: usize = 0;
    while i < n
        invariant
            i <= n,
            n == bs@.len(),
            bs@ == vstd::utf8::encode_utf8(s@),
            out@ == old(out)@ + percent_encoded(bs@.take(i as int)),
        decreases n - i,
    {
        let b = bs[i];
        if (48 <= b && b <= 57) || (65 <= b && b <= 90) || (97 <= b && b <= 122) || b == 45
            || b == 46 || b == 95 || b == 126 {
            out.push(b as char);
        } else {
            out.push('%');
            out.push(hex_char_exec(b / 16));
            out.push(hex_char_exec(b % 16));
        }
        proof {
            lemma_percent_encoded_snoc(bs@.take(i as int), b);
            assert(bs@.take(i as int + 1) =~= bs@.take(i as int).push(b));
        }
        i = i + 1;
    }
    assert(bs@.take(n as int) =~= bs@);
}

} // verus!
