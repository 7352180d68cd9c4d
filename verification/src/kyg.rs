//! Plain-text export parser: line-oriented records of per-window solar
//! obstruction factors, `name: fshobst=value`, one per line. The result is
//! the window-name to factor mapping, ordered by key; a later record for a
//! name already seen replaces the earlier one.

use vstd::prelude::*;
use crate::text::{
    ParseError, split_at, split_on, str_eq, parse_fixed, parse_fixed_spec,
};

verus! {

/// Strict lexicographic order on names, by character code.
pub open spec fn lex_lt(a: Seq<char>, b: Seq<char>) -> bool
    decreases a.len(),
{
    if b.len() == 0 {
        false
    } else if a.len() == 0 {
        true
    } else if (a[0] as int) < (b[0] as int) {
        true
    } else if (a[0] as int) > (b[0] as int) {
        false
    } else {
        lex_lt(a.skip(1), b.skip(1))
    }
}

/// The order is asymmetric, and two mutually unordered names are equal.
pub proof fn lemma_lex_lt_props(a: Seq<char>, b: Seq<char>)
    ensures
        !(lex_lt(a, b) && lex_lt(b, a)),
        (!lex_lt(a, b) && !lex_lt(b, a)) ==> a == b,
    decreases a.len(),
{
    if a.len() > 0 && b.len() > 0 && a[0] == b[0] {
        lemma_lex_lt_props(a.skip(1), b.skip(1));
        if !lex_lt(a, b) && !lex_lt(b, a) {
            assert(a.skip(1) == b.skip(1));
            assert(a =~= b) by {
                assert(forall|i: int| 1 <= i < a.len() ==> #[trigger] a[i] == a.skip(1)[i - 1]);
                assert(forall|i: int| 1 <= i < b.len() ==> #[trigger] b[i] == b.skip(1)[i - 1]);
            }
        }
    }
}

/// Whether `a` comes strictly before `b`, by character code.
pub fn str_lt(a: &str, b: &str) -> (r: bool)
    ensures
        r == lex_lt(a@, b@),
{
    let na = a.unicode_len();
    let nb = b.unicode_len();
    let mut i: usize = 0;
    proof {
        assert(a@.skip(0) =~= a@);
        assert(b@.skip(0) =~= b@);
    }
    loop
        invariant
            na == a@.len(),
            nb == b@.len(),
            i <= na,
            i <= nb,
            lex_lt(a@, b@) == lex_lt(a@.skip(i as int), b@.skip(i as int)),
        decreases na - i,
    {
        if i == na || i == nb {
            return na < nb;
        }
        let ca = a.get_char(i) as u32;
        let cb = b.get_char(i) as u32;
        proof {
            assert(a@.skip(i as int)[0] == a@[i as int]);
            assert(b@.skip(i as int)[0] == b@[i as int]);
            assert(a@.skip(i as int).skip(1) =~= a@.skip(i + 1));
            assert(b@.skip(i as int).skip(1) =~= b@.skip(i + 1));
        }
        if ca < cb {
            return true;
        }
        if ca > cb {
            return false;
        }
        i = i + 1;
    }
}

/// The mapping with one binding added: an existing binding of the name is
/// replaced, otherwise the pair enters at its ordered position.
pub open spec fn insert_pair(
    s: Seq<(Seq<char>, u64)>,
    name: Seq<char>,
    val: u64,
) -> Seq<(Seq<char>, u64)>
    decreases s.len(),
{
    if s.len() == 0 {
        seq![(name, val)]
    } else if name == s[0].0 {
        seq![(name, val)] + s.skip(1)
    } else if lex_lt(name, s[0].0) {
        seq![(name, val)] + s
    } else {
        seq![s[0]] + insert_pair(s.skip(1), name, val)
    }
}

/// The mapping is strictly ordered by name.
pub open spec fn sorted_by_name(s: Seq<(Seq<char>, u64)>) -> bool {
    forall|i: int, j: int| 0 <= i < j < s.len() ==> lex_lt(#[trigger] s[i].0, #[trigger] s[j].0)
}

/// Inserting a binding keeps the mapping strictly ordered by name.
pub proof fn lemma_insert_keeps_sorted(s: Seq<(Seq<char>, u64)>, name: Seq<char>, val: u64)
    requires
        sorted_by_name(s),
    ensures
        sorted_by_name(insert_pair(s, name, val)),
        insert_pair(s, name, val).len() >= 1,
    decreases s.len(),
{
    if s.len() == 0 {
    } else if name == s[0].0 {
        assert forall|i: int, j: int|
            0 <= i < j < insert_pair(s, name, val).len() implies lex_lt(
            #[trigger] insert_pair(s, name, val)[i].0,
            #[trigger] insert_pair(s, name, val)[j].0,
        ) by {
            assert(insert_pair(s, name, val)[j] == s[j]);
            if i > 0 {
                assert(insert_pair(s, name, val)[i] == s[i]);
            }
        }
    } else if lex_lt(name, s[0].0) {
        assert forall|i: int, j: int|
            0 <= i < j < insert_pair(s, name, val).len() implies lex_lt(
            #[trigger] insert_pair(s, name, val)[i].0,
            #[trigger] insert_pair(s, name, val)[j].0,
        ) by {
            assert(insert_pair(s, name, val)[j] == s[j - 1]);
            if i > 0 {
                assert(insert_pair(s, name, val)[i] == s[i - 1]);
            } else {
                if j - 1 > 0 {
                    lemma_lex_lt_trans(name, s[0].0, s[j - 1].0);
                }
            }
        }
    } else {
        assert(forall|i: int, j: int|
            0 <= i < j < s.skip(1).len() ==> lex_lt(
                (#[trigger] s.skip(1)[i]).0,
                (#[trigger] s.skip(1)[j]).0,
            ));
        lemma_insert_keeps_sorted(s.skip(1), name, val);
        lemma_lex_lt_props(name, s[0].0);
        lemma_insert_head_order(s.skip(1), name, val, s[0].0);
        assert forall|i: int, j: int|
            0 <= i < j < insert_pair(s, name, val).len() implies lex_lt(
            #[trigger] insert_pair(s, name, val)[i].0,
            #[trigger] insert_pair(s, name, val)[j].0,
        ) by {
            let t = insert_pair(s.skip(1), name, val);
            assert(insert_pair(s, name, val) == seq![s[0]] + t);
            if i == 0 {
                assert(insert_pair(s, name, val)[j].0 == t[j - 1].0);
            } else {
                assert(insert_pair(s, name, val)[i].0 == t[i - 1].0);
                assert(insert_pair(s, name, val)[j].0 == t[j - 1].0);
            }
        }
    }
}

/// Every name of an inserted mapping is either the new name or one of the
/// old names; used to order the head across an insertion into the tail.
pub proof fn lemma_insert_head_order(
    s: Seq<(Seq<char>, u64)>,
    name: Seq<char>,
    val: u64,
    head: Seq<char>,
)
    requires
        lex_lt(head, name),
        forall|i: int| 0 <= i < s.len() ==> lex_lt(head, (#[trigger] s[i]).0),
    ensures
        forall|i: int|
            0 <= i < insert_pair(s, name, val).len() ==> lex_lt(
                head,
                (#[trigger] insert_pair(s, name, val)[i]).0,
            ),
    decreases s.len(),
{
    if s.len() == 0 {
    } else if name == s[0].0 {
        assert(forall|i: int|
            1 <= i < insert_pair(s, name, val).len() ==> (#[trigger] insert_pair(s, name, val)[i]).0
                == s[i].0);
    } else if lex_lt(name, s[0].0) {
        assert(forall|i: int|
            1 <= i < insert_pair(s, name, val).len() ==> (#[trigger] insert_pair(s, name, val)[i]).0
                == s[i - 1].0);
    } else {
        assert(forall|i: int| 0 <= i < s.skip(1).len() ==> lex_lt(head, (#[trigger] s.skip(1)[i]).0));
        lemma_insert_head_order(s.skip(1), name, val, head);
        let t = insert_pair(s.skip(1), name, val);
        assert(insert_pair(s, name, val) == seq![s[0]] + t);
        assert(forall|i: int|
            1 <= i < insert_pair(s, name, val).len() ==> (#[trigger] insert_pair(s, name, val)[i]).0
                == t[i - 1].0);
    }
}

/// The order is transitive.
pub proof fn lemma_lex_lt_trans(a: Seq<char>, b: Seq<char>, c: Seq<char>)
    requires
        lex_lt(a, b),
        lex_lt(b, c),
    ensures
        lex_lt(a, c),
    decreases a.len(),
{
    if a.len() > 0 && b.len() > 0 && c.len() > 0 && a[0] == b[0] && b[0] == c[0] {
        lemma_lex_lt_trans(a.skip(1), b.skip(1), c.skip(1));
    }
}

/// First position whose name is not below the given one.
fn lower_bound(v: &Vec<(String, u64)>, name: &String) -> (pos: usize)
    ensures
        pos <= v@.len(),
        forall|j: int| 0 <= j < pos ==> lex_lt((#[trigger] v@[j]).0@, name@),
        pos < v@.len() ==> !lex_lt(v@[pos as int].0@, name@),
{
    let n = v.len();
    for pos in 0..n
        invariant
            n == v.len(),
            forall|j: int| 0 <= j < pos ==> lex_lt((#[trigger] v@[j]).0@, name@),
    {
        let below = str_lt(v[pos].0.as_str(), name.as_str());
        if !below {
            return pos;
        }
    }
    n
}

/// Inserts one binding into a name-ordered mapping, replacing an existing
/// binding of the same name.
pub fn insert_sorted(v: &mut Vec<(String, u64)>, name: String, val: u64)
    ensures
        final(v)@.map_values(|p: (String, u64)| (p.0@, p.1)) == insert_pair(
            old(v)@.map_values(|p: (String, u64)| (p.0@, p.1)),
            name@,
            val,
        ),
{
    let ghost sv = v@.map_values(|p: (String, u64)| (p.0@, p.1));
    let ghost namev = name@;
    let pos = lower_bound(v, &name);
    let n = v.len();
    proof {
        lemma_insert_position(sv, namev, val, pos as int);
    }
    if pos < n {
        let same = str_eq(v[pos].0.as_str(), name.as_str());
        if same {
            let _ = v.remove(pos);
            v.insert(pos, (name, val));
            proof {
                assert(v@.map_values(|p: (String, u64)| (p.0@, p.1)) =~= insert_pair(
                    sv,
                    namev,
                    val,
                ));
            }
            return ;
        }
    }
    v.insert(pos, (name, val));
    proof {
        assert(v@.map_values(|p: (String, u64)| (p.0@, p.1)) =~= insert_pair(sv, namev, val));
    }
}

/// A parse that has failed stays failed over any further lines.
pub proof fn lemma_kyg_fold_err(lines: Seq<Seq<char>>, m: int, n: int)
    requires
        0 <= m <= n,
        kyg_fold(lines, m) is Err,
    ensures
        kyg_fold(lines, n) == kyg_fold(lines, m),
    decreases n - m,
{
    if n > m {
        lemma_kyg_fold_err(lines, m, n - 1);
    }
}

/// The inserted mapping, spelled out at the scan position the executable
/// insertion finds.
pub proof fn lemma_insert_position(s: Seq<(Seq<char>, u64)>, name: Seq<char>, val: u64, pos: int)
    requires
        0 <= pos <= s.len(),
        forall|j: int| 0 <= j < pos ==> lex_lt((#[trigger] s[j]).0, name),
        pos < s.len() ==> !lex_lt(s[pos].0, name),
    ensures
        (pos < s.len() && s[pos].0 == name) ==> insert_pair(s, name, val) == s.take(pos) + seq![
            (name, val),
        ] + s.skip(pos + 1),
        !(pos < s.len() && s[pos].0 == name) ==> insert_pair(s, name, val) == s.take(pos) + seq![
            (name, val),
        ] + s.skip(pos),
    decreases pos,
{
    if pos == 0 {
        if s.len() == 0 {
            assert(insert_pair(s, name, val) =~= s.take(0) + seq![(name, val)] + s.skip(0));
        } else if s[0].0 == name {
            assert(insert_pair(s, name, val) =~= s.take(0) + seq![(name, val)] + s.skip(1));
        } else {
            lemma_lex_lt_props(name, s[0].0);
            assert(lex_lt(name, s[0].0));
            assert(insert_pair(s, name, val) =~= s.take(0) + seq![(name, val)] + s.skip(0));
        }
    } else {
        lemma_lex_lt_props(s[0].0, name);
        assert(s[0].0 != name);
        assert(!lex_lt(name, s[0].0));
        assert forall|j: int| 0 <= j < pos - 1 implies lex_lt((#[trigger] s.skip(1)[j]).0, name) by {
            assert(s.skip(1)[j] == s[j + 1]);
        }
        if pos < s.len() {
            assert(s.skip(1)[pos - 1] == s[pos]);
        }
        lemma_insert_position(s.skip(1), name, val, pos - 1);
        if pos < s.len() && s[pos].0 == name {
            assert(seq![s[0]] + (s.skip(1).take(pos - 1) + seq![(name, val)] + s.skip(1).skip(pos))
                =~= s.take(pos) + seq![(name, val)] + s.skip(pos + 1));
        } else {
            assert(seq![s[0]] + (s.skip(1).take(pos - 1) + seq![(name, val)] + s.skip(1).skip(
                pos - 1,
            )) =~= s.take(pos) + seq![(name, val)] + s.skip(pos));
        }
    }
}

/// One record line decoded: the window name and its obstruction factor in
/// thousandths. `None` for a malformed record.
pub open spec fn parse_kyg_line(line: Seq<char>) -> Option<(Seq<char>, u64)> {
    let parts = split_at(line, ':');
    if parts.len() == 2 {
        let sub = split_at(parts[1], '=');
        if sub.len() == 2 && sub[0] == " fshobst"@ {
            match parse_fixed_spec(sub[1]) {
                Some(v) => Some((parts[0], v)),
                None => None,
            }
        } else {
            None
        }
    } else {
        None
    }
}

/// The mapping after the first `n` lines: empty lines are skipped, records
/// are inserted by key, and the first malformed record stops the parse.
pub open spec fn kyg_fold(lines: Seq<Seq<char>>, n: int) -> Result<
    Seq<(Seq<char>, u64)>,
    ParseError,
>
    decreases n,
{
    if n <= 0 {
        Ok(Seq::empty())
    } else {
        match kyg_fold(lines, n - 1) {
            Err(e) => Err(e),
            Ok(acc) => {
                let line = lines[n - 1];
                if line.len() == 0 {
                    Ok(acc)
                } else {
                    match parse_kyg_line(line) {
                        Some(p) => Ok(insert_pair(acc, p.0, p.1)),
                        None => Err(ParseError::BadRecord),
                    }
                }
            },
        }
    }
}

/// The window-name to obstruction-factor mapping of a whole plain-text
/// export.
pub open spec fn kyg_spec(s: Seq<char>) -> Result<Seq<(Seq<char>, u64)>, ParseError> {
    kyg_fold(split_at(s, '\n'), split_at(s, '\n').len() as int)
}

/// A mapping the fold produces is strictly ordered by name.
pub proof fn lemma_kyg_fold_sorted(lines: Seq<Seq<char>>, n: int)
    ensures
        kyg_fold(lines, n) matches Ok(acc) ==> sorted_by_name(acc),
    decreases n,
{
    if n > 0 {
        lemma_kyg_fold_sorted(lines, n - 1);
        match kyg_fold(lines, n - 1) {
            Ok(acc) => {
                let line = lines[n - 1];
                if line.len() != 0 {
                    match parse_kyg_line(line) {
                        Some(p) => lemma_insert_keeps_sorted(acc, p.0, p.1),
                        None => (),
                    }
                }
            },
            Err(_) => (),
        }
    }
}

/// Law: the plain-text parser is deterministic. Its result is a function
/// of the input characters alone, so two results that both meet the
/// parser's contract on one input are the same mapping or the same error.
pub proof fn lemma_kyg_deterministic(
    s: Seq<char>,
    r1: Result<Seq<(Seq<char>, u64)>, ParseError>,
    r2: Result<Seq<(Seq<char>, u64)>, ParseError>,
)
    requires
        r1 == kyg_spec(s),
        r2 == kyg_spec(s),
    ensures
        r1 == r2,
{
}

/// Parses a plain-text export into the window-name to obstruction-factor
/// mapping, ordered by key. Pure in the input text: the result is a
/// function of the characters alone.
pub fn load_fshobst_data_from_kyg(data: &str) -> (r: Result<Vec<(String, u64)>, ParseError>)
    ensures
        r is Ok <==> kyg_spec(data@) is Ok,
        r matches Ok(v) ==> kyg_spec(data@) == Ok::<_, ParseError>(
            v@.map_values(|p: (String, u64)| (p.0@, p.1)),
        ) && sorted_by_name(v@.map_values(|p: (String, u64)| (p.0@, p.1))),
        r matches Err(e) ==> kyg_spec(data@) == Err::<Seq<(Seq<char>, u64)>, ParseError>(e),
{
    let lines = split_on(data, '\n');
    let ghost linesv = split_at(data@, '\n');
    let n = lines.len();
    let mut acc: Vec<(String, u64)> = Vec::new();
    proof {
        assert(Seq::<(String, u64)>::empty().map_values(|p: (String, u64)| (p.0@, p.1))
            =~= Seq::<(Seq<char>, u64)>::empty());
    }
    for i in 0..n
        invariant
            n == lines.len(),
            linesv == split_at(data@, '\n'),
            lines@.map_values(|p: String| p@) == linesv,
            kyg_fold(linesv, i as int) == Ok::<_, ParseError>(
                acc@.map_values(|p: (String, u64)| (p.0@, p.1)),
            ),
    {
        let line = &lines[i];
        proof {
            assert(lines@[i as int]@ == linesv[i as int]);
        }
        if line.as_str().unicode_len() == 0 {
            proof {
                assert(kyg_fold(linesv, i + 1) == Ok::<_, ParseError>(
                    acc@.map_values(|p: (String, u64)| (p.0@, p.1)),
                ));
            }
        } else {
            let parts = split_on(line.as_str(), ':');
            proof {
                assert(parts@.map_values(|p: String| p@) == split_at(linesv[i as int], ':'));
            }
            if parts.len() != 2 {
                proof {
                    assert(parse_kyg_line(linesv[i as int]) is None);
                    assert(kyg_fold(linesv, i + 1) == Err::<Seq<(Seq<char>, u64)>, ParseError>(
                        ParseError::BadRecord,
                    ));
                    lemma_kyg_fold_err(linesv, i + 1, n as int);
                }
                return Err(ParseError::BadRecord);
            }
            proof {
                assert(parts@[0]@ == split_at(linesv[i as int], ':')[0]);
                assert(parts@[1]@ == split_at(linesv[i as int], ':')[1]);
            }
            let sub = split_on(parts[1].as_str(), '=');
            proof {
                assert(sub@.map_values(|p: String| p@) == split_at(parts@[1]@, '='));
            }
            if sub.len() != 2 {
                proof {
                    assert(parse_kyg_line(linesv[i as int]) is None);
                    assert(kyg_fold(linesv, i + 1) == Err::<Seq<(Seq<char>, u64)>, ParseError>(
                        ParseError::BadRecord,
                    ));
                    lemma_kyg_fold_err(linesv, i + 1, n as int);
                }
                return Err(ParseError::BadRecord);
            }
            proof {
                assert(sub@[0]@ == split_at(parts@[1]@, '=')[0]);
                assert(sub@[1]@ == split_at(parts@[1]@, '=')[1]);
            }
            if !str_eq(sub[0].as_str(), " fshobst") {
                proof {
                    assert(parse_kyg_line(linesv[i as int]) is None);
                    assert(kyg_fold(linesv, i + 1) == Err::<Seq<(Seq<char>, u64)>, ParseError>(
                        ParseError::BadRecord,
                    ));
                    lemma_kyg_fold_err(linesv, i + 1, n as int);
                }
                return Err(ParseError::BadRecord);
            }
            let value = match parse_fixed(sub[1].as_str()) {
                Some(v) => v,
                None => {
                    proof {
                        assert(parse_kyg_line(linesv[i as int]) is None);
                        assert(kyg_fold(linesv, i + 1) == Err::<Seq<(Seq<char>, u64)>, ParseError>(
                            ParseError::BadRecord,
                        ));
                        lemma_kyg_fold_err(linesv, i + 1, n as int);
                    }
                    return Err(ParseError::BadRecord);
                },
            };
            let name = parts[0].clone();
            proof {
                assert(parse_kyg_line(linesv[i as int]) == Some((parts@[0]@, value)));
            }
            insert_sorted(&mut acc, name, value);
            proof {
                assert(kyg_fold(linesv, i + 1) == Ok::<_, ParseError>(
                    acc@.map_values(|p: (String, u64)| (p.0@, p.1)),
                ));
            }
        }
    }
    proof {
        lemma_kyg_fold_sorted(linesv, n as int);
    }
    Ok(acc)
}

} // verus!
