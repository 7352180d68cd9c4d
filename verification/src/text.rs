//! Text primitives shared by the format parsers: separator splitting,
//! string comparison, and fixed-point decimal parsing. Every function is a
//! pure function of its input text, pinned to a specification mirror.

use vstd::prelude::*;

verus! {

/// Why raw input text could not be decoded into the minimal required
/// shape. Structural: it stops the pipeline, and no partial result is
/// returned.
#[derive(Clone, Copy, PartialEq, Eq, Structural, Debug)]
pub enum ParseError {
    /// A record line is malformed.
    BadRecord,
    /// The mandatory catalog anchors are absent or out of order.
    MissingCatalogAnchor,
    /// The mandatory geometry anchors are absent or out of order.
    MissingGeometryAnchor,
}

/// Index of the first occurrence of `sep`, or the length when absent.
pub open spec fn find_at(s: Seq<char>, sep: char) -> int
    decreases s.len(),
{
    if s.len() == 0 {
        0
    } else if s[0] == sep {
        0
    } else {
        1 + find_at(s.skip(1), sep)
    }
}

/// `find_at` is a position in the text, and separators lie at or after it.
pub proof fn lemma_find_at_range(s: Seq<char>, sep: char)
    ensures
        0 <= find_at(s, sep) <= s.len(),
        find_at(s, sep) < s.len() ==> s[find_at(s, sep)] == sep,
        forall|j: int| 0 <= j < find_at(s, sep) ==> s[j] != sep,
    decreases s.len(),
{
    if s.len() > 0 && s[0] != sep {
        lemma_find_at_range(s.skip(1), sep);
        assert forall|j: int| 0 <= j < find_at(s, sep) implies s[j] != sep by {
            if j > 0 {
                assert(s.skip(1)[j - 1] == s[j]);
            }
        }
    }
}

/// The first separator is at `i` when no earlier character is one and the
/// character there is (or `i` is the length).
pub proof fn lemma_find_at_is(s: Seq<char>, sep: char, i: int)
    requires
        0 <= i <= s.len(),
        forall|j: int| 0 <= j < i ==> s[j] != sep,
        i < s.len() ==> s[i] == sep,
    ensures
        find_at(s, sep) == i,
    decreases i,
{
    if i == 0 {
    } else {
        assert(s[0] != sep);
        assert forall|j: int| 0 <= j < i - 1 implies s.skip(1)[j] != sep by {
            assert(s.skip(1)[j] == s[j + 1]);
        }
        if i < s.len() {
            assert(s.skip(1)[i - 1] == s[i]);
        }
        lemma_find_at_is(s.skip(1), sep, i - 1);
    }
}

/// Position of the first occurrence of `sep`, or the length when absent.
pub fn find_char(s: &str, sep: char) -> (r: usize)
    ensures
        r as int == find_at(s@, sep),
{
    let n = s.unicode_len();
    for i in 0..n
        invariant
            n == s@.len(),
            forall|j: int| 0 <= j < i ==> s@[j] != sep,
    {
        if s.get_char(i) == sep {
            proof {
                lemma_find_at_is(s@, sep, i as int);
            }
            return i;
        }
    }
    proof {
        lemma_find_at_is(s@, sep, n as int);
    }
    n
}

/// The pieces of `s` between occurrences of `sep`: always one piece more
/// than there are separators, in text order.
pub open spec fn split_at(s: Seq<char>, sep: char) -> Seq<Seq<char>>
    decreases s.len(),
{
    if s.len() == 0 {
        seq![Seq::empty()]
    } else if s[0] == sep {
        seq![Seq::<char>::empty()] + split_at(s.skip(1), sep)
    } else {
        let rest = split_at(s.skip(1), sep);
        seq![seq![s[0]] + rest[0]] + rest.skip(1)
    }
}

/// A split is never empty.
pub proof fn lemma_split_nonempty(s: Seq<char>, sep: char)
    ensures
        split_at(s, sep).len() >= 1,
    decreases s.len(),
{
    if s.len() > 0 {
        lemma_split_nonempty(s.skip(1), sep);
    }
}

/// Scanning over a separator-free stretch only grows the first piece.
pub proof fn lemma_split_shift(s: Seq<char>, sep: char, start: int, i: int)
    requires
        0 <= start <= i <= s.len(),
        forall|j: int| start <= j < i ==> s[j] != sep,
    ensures
        split_at(s.skip(start), sep).len() == split_at(s.skip(i), sep).len(),
        split_at(s.skip(start), sep)[0] == s.subrange(start, i) + split_at(s.skip(i), sep)[0],
        split_at(s.skip(start), sep).skip(1) == split_at(s.skip(i), sep).skip(1),
    decreases i - start,
{
    lemma_split_nonempty(s.skip(start), sep);
    lemma_split_nonempty(s.skip(i), sep);
    if start == i {
        assert(s.subrange(start, i) + split_at(s.skip(i), sep)[0] =~= split_at(
            s.skip(i),
            sep,
        )[0]);
    } else {
        assert(s.skip(start).len() > 0);
        assert(s.skip(start)[0] == s[start]);
        assert(s.skip(start).skip(1) =~= s.skip(start + 1));
        lemma_split_shift(s, sep, start + 1, i);
        lemma_split_nonempty(s.skip(start + 1), sep);
        assert(split_at(s.skip(start), sep)[0] == seq![s[start]] + split_at(
            s.skip(start + 1),
            sep,
        )[0]);
        assert(seq![s[start]] + (s.subrange(start + 1, i) + split_at(s.skip(i), sep)[0])
            =~= s.subrange(start, i) + split_at(s.skip(i), sep)[0]);
    }
}

/// Splits the text on a separator; the pieces, in order, with separators
/// removed.
pub fn split_on(s: &str, sep: char) -> (r: Vec<String>)
    ensures
        r@.map_values(|p: String| p@) == split_at(s@, sep),
{
    let n = s.unicode_len();
    let mut r: Vec<String> = Vec::new();
    let mut start: usize = 0;
    let mut i: usize = 0;
    proof {
        assert(s@.skip(0) =~= s@);
    }
    while i < n
        invariant
            n == s@.len(),
            0 <= start <= i <= n,
            forall|j: int| start <= j < i ==> s@[j] != sep,
            split_at(s@, sep) == r@.map_values(|p: String| p@) + split_at(s@.skip(start as int), sep),
        decreases n - i,
    {
        let c = s.get_char(i);
        if c == sep {
            let piece = s.substring_char(start, i).to_owned();
            proof {
                lemma_split_shift(s@, sep, start as int, i as int);
                lemma_split_nonempty(s@.skip(start as int), sep);
                lemma_split_nonempty(s@.skip(i + 1), sep);
                assert(s@.skip(i as int)[0] == s@[i as int]);
                assert(s@.skip(i as int).skip(1) =~= s@.skip(i + 1));
                assert(split_at(s@.skip(i as int), sep) == seq![Seq::<char>::empty()] + split_at(
                    s@.skip(i + 1),
                    sep,
                ));
                assert(split_at(s@.skip(i as int), sep)[0] == Seq::<char>::empty());
                assert(split_at(s@.skip(i as int), sep).skip(1) =~= split_at(s@.skip(i + 1), sep));
                assert(split_at(s@.skip(start as int), sep)[0] =~= s@.subrange(
                    start as int,
                    i as int,
                ));
                assert(split_at(s@.skip(start as int), sep) =~= seq![
                    s@.subrange(start as int, i as int),
                ] + split_at(s@.skip(i + 1), sep));
                assert(r@.push(piece).map_values(|p: String| p@) =~= r@.map_values(|p: String| p@)
                    + seq![s@.subrange(start as int, i as int)]);
                assert((r@.map_values(|p: String| p@) + seq![s@.subrange(start as int, i as int)])
                    + split_at(s@.skip(i + 1), sep) =~= r@.map_values(|p: String| p@) + (seq![
                    s@.subrange(start as int, i as int),
                ] + split_at(s@.skip(i + 1), sep)));
            }
            r.push(piece);
            start = i + 1;
        }
        i = i + 1;
    }
    let piece = s.substring_char(start, n).to_owned();
    proof {
        lemma_split_shift(s@, sep, start as int, n as int);
        assert(s@.skip(n as int) =~= Seq::<char>::empty());
        assert(split_at(s@.skip(start as int), sep) =~= seq![s@.subrange(start as int, n as int)]);
        assert(r@.push(piece).map_values(|p: String| p@) =~= r@.map_values(|p: String| p@) + seq![
            s@.subrange(start as int, n as int),
        ]);
    }
    r.push(piece);
    r
}

/// Two texts are the same sequence of characters.
pub fn str_eq(a: &str, b: &str) -> (r: bool)
    ensures
        r == (a@ == b@),
{
    let na = a.unicode_len();
    let nb = b.unicode_len();
    if na != nb {
        proof {
            assert(a@ != b@);
        }
        return false;
    }
    for i in 0..na
        invariant
            na == a@.len(),
            na == b@.len(),
            forall|j: int| 0 <= j < i ==> a@[j] == b@[j],
    {
        if a.get_char(i) != b.get_char(i) {
            return false;
        }
    }
    proof {
        assert(a@ =~= b@);
    }
    true
}

/// Whether a character is a decimal digit.
pub open spec fn is_digit(c: char) -> bool {
    48 <= c as int <= 57
}

/// Numeric value of a digit.
pub open spec fn digit_val(c: char) -> int {
    c as int - 48
}

/// Every character of the text is a decimal digit.
pub open spec fn all_digits(s: Seq<char>) -> bool {
    forall|i: int| 0 <= i < s.len() ==> is_digit(#[trigger] s[i])
}

/// Value of a text of decimal digits.
pub open spec fn digits_val(s: Seq<char>) -> int
    decreases s.len(),
{
    if s.len() == 0 {
        0
    } else {
        digits_val(s.drop_last()) * 10 + digit_val(s.last())
    }
}

/// A digit text of at most `n` digits is below ten to the `n`, stated up
/// to the seven digits the parsers admit.
pub proof fn lemma_digits_val_small(s: Seq<char>, n: nat)
    requires
        all_digits(s),
        s.len() <= n,
        n <= 7,
    ensures
        0 <= digits_val(s) < pow10(n),
    decreases n,
{
    lemma_pow10_pos(n);
    if s.len() > 0 {
        assert(forall|i: int| 0 <= i < s.len() - 1 ==> s.drop_last()[i] == #[trigger] s[i]);
        lemma_digits_val_small(s.drop_last(), (n - 1) as nat);
        assert(is_digit(s.last()));
        let d = digits_val(s.drop_last());
        let p = pow10((n - 1) as nat);
        assert(d * 10 + digit_val(s.last()) < p * 10) by (nonlinear_arith)
            requires
                0 <= d < p,
                digit_val(s.last()) <= 9,
        ;
        assert(pow10(n) == 10 * p);
        assert(d * 10 == 10 * d) by (nonlinear_arith);
        assert(10 * d + digit_val(s.last()) < 10 * p);
    }
}

/// A digit text of at most seven digits stays below ten million.
pub proof fn lemma_digits_val_bound(s: Seq<char>)
    requires
        all_digits(s),
        s.len() <= 7,
    ensures
        0 <= digits_val(s) <= 9_999_999,
{
    lemma_digits_val_small(s, 7);
    assert(pow10(7) == 10_000_000) by {
        assert(pow10(0) == 1);
        assert(pow10(1) == 10);
        assert(pow10(2) == 100);
        assert(pow10(3) == 1000);
        assert(pow10(4) == 10_000);
        assert(pow10(5) == 100_000);
        assert(pow10(6) == 1_000_000);
    }
}

/// Ten to the `n`.
pub open spec fn pow10(n: nat) -> int
    decreases n,
{
    if n == 0 {
        1
    } else {
        10 * pow10((n - 1) as nat)
    }
}

/// Ten to the `n` is positive.
pub proof fn lemma_pow10_pos(n: nat)
    ensures
        pow10(n) >= 1,
    decreases n,
{
    if n > 0 {
        lemma_pow10_pos((n - 1) as nat);
    }
}

/// Fixed-point value of a decimal text, in thousandths: an integer part of
/// one to seven digits, optionally followed by a point and one to three
/// fraction digits. `None` for any other text.
pub open spec fn parse_fixed_spec(s: Seq<char>) -> Option<u64> {
    let d = find_at(s, '.');
    if d == s.len() {
        if 1 <= s.len() <= 7 && all_digits(s) {
            Some((digits_val(s) * 1000) as u64)
        } else {
            None
        }
    } else {
        let ip = s.take(d);
        let fp = s.skip(d + 1);
        if 1 <= ip.len() <= 7 && 1 <= fp.len() <= 3 && all_digits(ip) && all_digits(fp) {
            Some(
                (digits_val(ip) * 1000 + digits_val(fp) * (if fp.len() == 1 {
                    100int
                } else if fp.len() == 2 {
                    10int
                } else {
                    1int
                })) as u64,
            )
        } else {
            None
        }
    }
}

/// Value of a digit run, left to right: `acc` after reading one more digit.
fn digits_of(s: &str, from: usize, to: usize) -> (r: Option<u64>)
    requires
        from <= to <= s@.len(),
    ensures
        r is Some <==> (1 <= to - from <= 7 && all_digits(s@.subrange(from as int, to as int))),
        r matches Some(v) ==> v as int == digits_val(s@.subrange(from as int, to as int)) && v
            <= 9_999_999,
{
    if from == to || to - from > 7 {
        return None;
    }
    let ghost sub = s@.subrange(from as int, to as int);
    let mut acc: u64 = 0;
    let mut i: usize = from;
    proof {
        assert(sub.take(0) =~= Seq::<char>::empty());
    }
    while i < to
        invariant
            from <= i <= to <= s@.len(),
            1 <= to - from <= 7,
            sub == s@.subrange(from as int, to as int),
            all_digits(sub.take(i - from)),
            acc as int == digits_val(sub.take(i - from)),
            acc <= 9_999_999,
        decreases to - i,
    {
        let c = s.get_char(i);
        let cu = c as u32;
        if cu < 48 || cu > 57 {
            proof {
                assert(sub[i - from] == s@[i as int]);
                assert(!is_digit(sub[i - from]));
            }
            return None;
        }
        proof {
            assert(sub[i - from] == s@[i as int]);
            assert(sub.take(i - from + 1).drop_last() =~= sub.take(i - from));
            assert(all_digits(sub.take(i - from + 1)));
            lemma_digits_val_bound(sub.take(i - from + 1));
        }
        acc = acc * 10 + ((cu - 48) as u64);
        i = i + 1;
    }
    proof {
        assert(sub.take(to - from) =~= sub);
    }
    Some(acc)
}

/// Parses a fixed-point decimal into thousandths; the mirror of
/// `parse_fixed_spec`.
pub fn parse_fixed(s: &str) -> (r: Option<u64>)
    ensures
        r == parse_fixed_spec(s@),
{
    let n = s.unicode_len();
    let dot = find_char(s, '.');
    proof {
        lemma_find_at_range(s@, '.');
    }
    if dot == n {
        match digits_of(s, 0, n) {
            Some(v) => {
                proof {
                    assert(s@.subrange(0, n as int) =~= s@);
                }
                Some(v * 1000)
            },
            None => {
                proof {
                    assert(s@.subrange(0, n as int) =~= s@);
                }
                None
            },
        }
    } else {
        let ipv = match digits_of(s, 0, dot) {
            Some(v) => v,
            None => {
                proof {
                    assert(s@.subrange(0, dot as int) =~= s@.take(dot as int));
                }
                return None;
            },
        };
        let flen = n - dot - 1;
        if flen < 1 || flen > 3 {
            return None;
        }
        let fpv = match digits_of(s, dot + 1, n) {
            Some(v) => v,
            None => {
                proof {
                    assert(s@.subrange(dot + 1, n as int) =~= s@.skip(dot + 1));
                }
                return None;
            },
        };
        let scale: u64 = if flen == 1 {
            100
        } else if flen == 2 {
            10
        } else {
            1
        };
        proof {
            assert(s@.subrange(0, dot as int) =~= s@.take(dot as int));
            assert(s@.subrange(dot + 1, n as int) =~= s@.skip(dot + 1));
        }
        Some(ipv * 1000 + fpv * scale)
    }
}

} // verus!
