//! Lines of text as vectors of characters: substring search,
//! lexicographic ordering, and sorting of candidate lists.
//!
//! The editor stores every line, name and input as a `Vec<char>`, so a
//! cursor column is always a character index; all byte-versus-character
//! ambiguity stays outside the core.

use vstd::prelude::*;

verus! {

use vstd::multiset::Multiset;

/// `pat` occurs in `s` starting at position `i`.
pub open spec fn occurs_at(s: Seq<char>, pat: Seq<char>, i: int) -> bool {
    0 <= i && i + pat.len() <= s.len() && s.subrange(i, i + pat.len() as int) == pat
}

/// `pat` occurs somewhere in `s`; the empty pattern occurs in everything.
pub open spec fn has_substring(s: Seq<char>, pat: Seq<char>) -> bool {
    exists|i: int| occurs_at(s, pat, i)
}

/// `a` comes no later than `b` in character-by-character (lexicographic)
/// order, comparing from position `i` on.
pub open spec fn lex_le_from(a: Seq<char>, b: Seq<char>, i: int) -> bool
    decreases a.len() - i,
{
    if i >= a.len() {
        true
    } else if i >= b.len() {
        false
    } else if a[i] != b[i] {
        a[i] < b[i]
    } else {
        lex_le_from(a, b, i + 1)
    }
}

/// Lexicographic order on whole lines.
pub open spec fn lex_le(a: Seq<char>, b: Seq<char>) -> bool {
    lex_le_from(a, b, 0)
}

/// `s` is sorted lexicographically.
pub open spec fn sorted_lex(s: Seq<Seq<char>>) -> bool {
    forall|i: int, j: int| 0 <= i < j < s.len() ==> lex_le(#[trigger] s[i], #[trigger] s[j])
}

/// The mathematical contents of a list of lines: each line as its
/// character sequence.
pub open spec fn lines_view(v: Seq<Vec<char>>) -> Seq<Seq<char>> {
    Seq::new(v.len(), |i: int| v[i]@)
}

/// Any two lines are comparable.
pub proof fn lemma_lex_total(a: Seq<char>, b: Seq<char>, i: int)
    requires
        0 <= i,
    ensures
        lex_le_from(a, b, i) || lex_le_from(b, a, i),
    decreases a.len() - i,
{
    if i < a.len() && i < b.len() && a[i] == b[i] {
        lemma_lex_total(a, b, i + 1);
    }
}

/// Lexicographic order is transitive.
pub proof fn lemma_lex_trans(a: Seq<char>, b: Seq<char>, c: Seq<char>, i: int)
    requires
        0 <= i,
        lex_le_from(a, b, i),
        lex_le_from(b, c, i),
    ensures
        lex_le_from(a, c, i),
    decreases a.len() - i,
{
    if i < a.len() && i < b.len() && i < c.len() && a[i] == b[i] && b[i] == c[i] {
        lemma_lex_trans(a, b, c, i + 1);
    }
}

/// Builds a character vector out of a string slice, one character per
/// element.
pub fn str_to_line(s: &str) -> (r: Vec<char>)
    ensures
        r@ == s@,
{
    let n = s.unicode_len();
    let mut r: Vec<char> = Vec::new();
    let mut i: usize = 0;
    while i < n
        invariant
            i <= n,
            n == s@.len(),
            r@ == s@.subrange(0, i as int),
        decreases n - i,
    {
        r.push(s.get_char(i));
        i += 1;
        proof {
            assert(r@ =~= s@.subrange(0, i as int));
        }
    }
    proof {
        assert(r@ =~= s@);
    }
    r
}

/// Copies a line.
pub fn clone_line(v: &Vec<char>) -> (r: Vec<char>)
    ensures
        r@ == v@,
{
    let mut r: Vec<char> = Vec::new();
    let mut i: usize = 0;
    while i < v.len()
        invariant
            i <= v.len(),
            r@ == v@.subrange(0, i as int),
        decreases v.len() - i,
    {
        r.push(v[i]);
        i += 1;
        proof {
            assert(r@ =~= v@.subrange(0, i as int));
        }
    }
    proof {
        assert(r@ =~= v@);
    }
    r
}

/// Compares two lines character by character.
pub fn lines_equal(a: &Vec<char>, b: &Vec<char>) -> (r: bool)
    ensures
        r == (a@ == b@),
{
    if a.len() != b.len() {
        return false;
    }
    let mut i: usize = 0;
    while i < a.len()
        invariant
            i <= a@.len(),
            a@.len() == b@.len(),
            forall|j: int| 0 <= j < i ==> a@[j] == b@[j],
        decreases a@.len() - i,
    {
        if a[i] != b[i] {
            return false;
        }
        i += 1;
    }
    proof {
        assert(a@ =~= b@);
    }
    true
}

/// Copies a list of lines.
pub fn clone_lines(v: &Vec<Vec<char>>) -> (r: Vec<Vec<char>>)
    ensures
        lines_view(r@) == lines_view(v@),
        r@.len() == v@.len(),
{
    let mut r: Vec<Vec<char>> = Vec::new();
    let mut i: usize = 0;
    while i < v.len()
        invariant
            i <= v@.len(),
            r@.len() == i,
            forall|j: int| 0 <= j < i ==> r@[j]@ == v@[j]@,
        decreases v@.len() - i,
    {
        r.push(clone_line(&v[i]));
        i += 1;
    }
    proof {
        assert(lines_view(r@) =~= lines_view(v@));
    }
    r
}

/// Decides whether `pat` occurs in `s` as a contiguous substring.
pub fn contains_chars(s: &Vec<char>, pat: &Vec<char>) -> (r: bool)
    ensures
        r == has_substring(s@, pat@),
{
    if pat.len() > s.len() {
        return false;
    }
    let mut start: usize = 0;
    loop
        invariant
            pat.len() <= s.len(),
            start <= s.len() - pat.len() + 1,
            forall|i: int| 0 <= i < start ==> !occurs_at(s@, pat@, i),
        decreases s.len() - pat.len() + 1 - start,
    {
        if start > s.len() - pat.len() {
            return false;
        }
        let mut k: usize = 0;
        let mut matched: bool = true;
        while matched && k < pat.len()
            invariant
                k <= pat.len(),
                start + pat.len() <= s.len(),
                matched ==> forall|j: int| 0 <= j < k ==> s@[start + j] == pat@[j],
                !matched ==> !occurs_at(s@, pat@, start as int),
            decreases pat.len() - k + (if matched { 1int } else { 0int }),
        {
            if s[start + k] != pat[k] {
                proof {
                    assert(s@.subrange(start as int, start + pat@.len() as int)[k as int]
                        == s@[start + k]);
                }
                matched = false;
            } else {
                k += 1;
            }
        }
        if matched {
            proof {
                assert(s@.subrange(start as int, start + pat@.len() as int) =~= pat@);
                assert(occurs_at(s@, pat@, start as int));
            }
            return true;
        }
        proof {
            if pat@.len() == 0 {
                assert(s@.subrange(start as int, start as int) =~= pat@);
                assert(occurs_at(s@, pat@, start as int));
            }
        }
        start += 1;
    }
}

/// Decides `lex_le` on two lines.
pub fn lex_le_line(a: &Vec<char>, b: &Vec<char>) -> (r: bool)
    ensures
        r == lex_le(a@, b@),
{
    lex_le_line_from(a, b, 0)
}

fn lex_le_line_from(a: &Vec<char>, b: &Vec<char>, i: usize) -> (r: bool)
    ensures
        r == lex_le_from(a@, b@, i as int),
    decreases a.len() - i,
{
    if i >= a.len() {
        true
    } else if i >= b.len() {
        false
    } else if a[i] != b[i] {
        a[i] < b[i]
    } else {
        lex_le_line_from(a, b, i + 1)
    }
}

/// Sorts a list of lines lexicographically.  The result holds exactly the
/// lines that went in, in sorted order.
pub fn sort_lines(v: Vec<Vec<char>>) -> (r: Vec<Vec<char>>)
    ensures
        sorted_lex(lines_view(r@)),
        lines_view(r@).to_multiset() == lines_view(v@).to_multiset(),
{
    broadcast use vstd::multiset::group_multiset_axioms;
    broadcast use vstd::multiset::lemma_multiset_empty_len;
    broadcast use vstd::seq_lib::group_to_multiset_ensures;

    let mut rest = v;
    let mut out: Vec<Vec<char>> = Vec::new();
    proof {
        assert(lines_view(out@) =~= Seq::<Seq<char>>::empty());
        assert(lines_view(out@).to_multiset().add(lines_view(rest@).to_multiset())
            =~= lines_view(v@).to_multiset());
    }
    loop
        invariant
            sorted_lex(lines_view(out@)),
            lines_view(out@).to_multiset().add(lines_view(rest@).to_multiset())
                == lines_view(v@).to_multiset(),
        decreases rest.len(),
    {
        let ghost prev_rest = lines_view(rest@);
        let x = match rest.pop() {
            Some(x) => x,
            None => {
                proof {
                    assert(lines_view(rest@) =~= Seq::<Seq<char>>::empty());
                    vstd::seq_lib::to_multiset_len(lines_view(rest@));
                    assert(lines_view(out@).to_multiset() =~= lines_view(v@).to_multiset());
                }
                return out;
            },
        };
        let ghost prev_out = lines_view(out@);
        proof {
            assert(prev_rest =~= lines_view(rest@).push(x@));
        }
        // find the first position whose line is not below `x`
        let mut idx: usize = 0;
        let mut stop: bool = false;
        while !stop && idx < out.len()
            invariant
                idx <= out.len(),
                forall|j: int| 0 <= j < idx ==> lex_le(#[trigger] lines_view(out@)[j], x@),
                stop ==> idx < out.len() && lex_le(x@, lines_view(out@)[idx as int]),
            decreases out.len() - idx + (if stop { 0int } else { 1int }),
        {
            if lex_le_line(&out[idx], &x) {
                idx += 1;
            } else {
                proof {
                    lemma_lex_total(lines_view(out@)[idx as int], x@, 0);
                }
                stop = true;
            }
        }
        out.insert(idx, x);
        proof {
            assert(lines_view(out@) =~= prev_out.insert(idx as int, x@));
            lemma_sorted_insert(prev_out, x@, idx as int);
            vstd::seq_lib::to_multiset_insert(prev_out, idx as int, x@);
            vstd::seq_lib::to_multiset_build(lines_view(rest@), x@);
            assert(lines_view(out@).to_multiset() == prev_out.to_multiset().insert(x@));
            assert(prev_rest.to_multiset() == lines_view(rest@).to_multiset().insert(x@));
            assert(lines_view(out@).to_multiset().add(lines_view(rest@).to_multiset())
                =~= lines_view(v@).to_multiset());
        }
    }
}

proof fn lemma_sorted_insert(s: Seq<Seq<char>>, x: Seq<char>, idx: int)
    requires
        sorted_lex(s),
        0 <= idx <= s.len(),
        forall|j: int| 0 <= j < idx ==> lex_le(#[trigger] s[j], x),
        idx < s.len() ==> lex_le(x, s[idx]),
    ensures
        sorted_lex(s.insert(idx, x)),
{
    let t = s.insert(idx, x);
    assert forall|i: int, j: int| 0 <= i < j < t.len() implies lex_le(
        #[trigger] t[i],
        #[trigger] t[j],
    ) by {
        if i < idx && j == idx {
            assert(t[i] == s[i]);
        } else if i == idx && j > idx {
            assert(t[j] == s[j - 1]);
            if j - 1 > idx {
                lemma_lex_trans(x, s[idx], s[j - 1], 0);
            }
        } else if i < idx && j > idx {
            assert(t[i] == s[i] && t[j] == s[j - 1]);
            if j - 1 == idx {
                lemma_lex_trans(s[i], x, s[idx], 0);
            }
        } else if i > idx && j > idx {
            assert(t[i] == s[i - 1] && t[j] == s[j - 1]);
        } else if i < idx && j < idx {
            assert(t[i] == s[i] && t[j] == s[j]);
        }
    }
}


/// File content split at newline characters, the way a file becomes
/// buffer lines: every `\n` ends a line, and the text after the last
/// one (possibly empty) is a line too.
pub open spec fn split_lines_spec(s: Seq<char>) -> Seq<Seq<char>>
    decreases s.len(),
{
    if s.len() == 0 {
        seq![Seq::<char>::empty()]
    } else if s[0] == '\n' {
        seq![Seq::<char>::empty()] + split_lines_spec(s.drop_first())
    } else {
        let rest = split_lines_spec(s.drop_first());
        seq![seq![s[0]] + rest[0]] + rest.drop_first()
    }
}

/// Buffer lines joined back into file content with single newlines
/// between them.
pub open spec fn join_lines_spec(ls: Seq<Seq<char>>) -> Seq<char>
    decreases ls.len(),
{
    if ls.len() == 0 {
        Seq::<char>::empty()
    } else if ls.len() == 1 {
        ls[0]
    } else {
        ls[0] + seq!['\n'] + join_lines_spec(ls.drop_first())
    }
}

/// Splitting always yields at least one line.
pub proof fn lemma_split_nonempty(s: Seq<char>)
    ensures
        split_lines_spec(s).len() >= 1,
    decreases s.len(),
{
    if s.len() > 0 {
        lemma_split_nonempty(s.drop_first());
    }
}

/// How one more character extends the split: a newline opens a fresh
/// empty line, anything else lands at the end of the last line.
proof fn lemma_split_snoc(s: Seq<char>, c: char)
    ensures
        c == '\n' ==> split_lines_spec(s.push(c)) == split_lines_spec(s).push(
            Seq::<char>::empty(),
        ),
        c != '\n' ==> split_lines_spec(s.push(c)) == split_lines_spec(s).update(
            split_lines_spec(s).len() - 1,
            split_lines_spec(s).last().push(c),
        ),
    decreases s.len(),
{
    lemma_split_nonempty(s);
    assert(split_lines_spec(Seq::<char>::empty()) =~= seq![Seq::<char>::empty()]);
    if s.len() == 0 {
        if c == '\n' {
            assert(s.push(c).drop_first() =~= Seq::<char>::empty());
            assert(split_lines_spec(s.push(c)) =~= split_lines_spec(s).push(
                Seq::<char>::empty(),
            ));
        } else {
            assert(s.push(c).drop_first() =~= Seq::<char>::empty());
            assert(seq![c] + split_lines_spec(Seq::<char>::empty())[0] =~= Seq::<
                char,
            >::empty().push(c));
            assert(split_lines_spec(s.push(c)) =~= split_lines_spec(s).update(
                0,
                split_lines_spec(s).last().push(c),
            ));
        }
    } else {
        lemma_split_snoc(s.drop_first(), c);
        lemma_split_nonempty(s.drop_first());
        assert(s.push(c).drop_first() =~= s.drop_first().push(c));
        let rest = split_lines_spec(s.drop_first());
        if c == '\n' {
            if s[0] == '\n' {
                assert(split_lines_spec(s.push(c)) == seq![Seq::<char>::empty()] + rest.push(
                    Seq::<char>::empty(),
                ));
                assert(seq![Seq::<char>::empty()] + rest.push(Seq::<char>::empty()) =~= (seq![
                    Seq::<char>::empty(),
                ] + rest).push(Seq::<char>::empty()));
            } else {
                assert(rest.push(Seq::<char>::empty())[0] == rest[0]);
                assert(rest.push(Seq::<char>::empty()).drop_first() =~= rest.drop_first().push(
                    Seq::<char>::empty(),
                ));
                assert(split_lines_spec(s.push(c)) =~= (seq![seq![s[0]] + rest[0]]
                    + rest.drop_first()).push(Seq::<char>::empty()));
            }
        } else {
            if s[0] == '\n' {
                assert(split_lines_spec(s.push(c)) == seq![Seq::<char>::empty()] + rest.update(
                    rest.len() - 1,
                    rest.last().push(c),
                ));
                assert(seq![Seq::<char>::empty()] + rest.update(rest.len() - 1, rest.last().push(
                    c,
                )) =~= (seq![Seq::<char>::empty()] + rest).update(
                    rest.len() as int,
                    rest.last().push(c),
                ));
                assert(split_lines_spec(s).last() == rest.last());
            } else {
                let rest2 = rest.update(rest.len() - 1, rest.last().push(c));
                assert(split_lines_spec(s.push(c)) == seq![seq![s[0]] + rest2[0]]
                    + rest2.drop_first());
                if rest.len() == 1 {
                    assert(rest2[0] == rest[0].push(c));
                    assert(seq![seq![s[0]] + rest2[0]] + rest2.drop_first() =~= split_lines_spec(
                        s,
                    ).update(split_lines_spec(s).len() - 1, split_lines_spec(s).last().push(c)));
                } else {
                    assert(rest2[0] == rest[0]);
                    assert(rest2.drop_first() =~= rest.drop_first().update(
                        rest.drop_first().len() - 1,
                        rest.drop_first().last().push(c),
                    ));
                    assert(seq![seq![s[0]] + rest2[0]] + rest2.drop_first() =~= split_lines_spec(
                        s,
                    ).update(split_lines_spec(s).len() - 1, split_lines_spec(s).last().push(c)));
                }
            }
        }
    }
}

/// How one more line extends the join.
proof fn lemma_join_snoc(ls: Seq<Seq<char>>, l: Seq<char>)
    ensures
        ls.len() == 0 ==> join_lines_spec(ls.push(l)) == l,
        ls.len() > 0 ==> join_lines_spec(ls.push(l)) == join_lines_spec(ls) + seq!['\n'] + l,
    decreases ls.len(),
{
    if ls.len() == 0 {
        assert(join_lines_spec(ls.push(l)) == ls.push(l)[0]);
    } else {
        lemma_join_snoc(ls.drop_first(), l);
        assert(ls.push(l).drop_first() =~= ls.drop_first().push(l));
        if ls.len() == 1 {
            assert(join_lines_spec(ls.push(l)) =~= join_lines_spec(ls) + seq!['\n'] + l);
        } else {
            assert(join_lines_spec(ls.push(l)) =~= join_lines_spec(ls) + seq!['\n'] + l);
        }
    }
}

/// Joining the lines a text was split into restores the text: the two
/// conversions between file content and buffer lines are inverse.
pub proof fn lemma_join_split_roundtrip(s: Seq<char>)
    ensures
        join_lines_spec(split_lines_spec(s)) == s,
    decreases s.len(),
{
    lemma_split_nonempty(s);
    if s.len() == 0 {
    } else if s[0] == '\n' {
        lemma_join_split_roundtrip(s.drop_first());
        lemma_split_nonempty(s.drop_first());
        assert(split_lines_spec(s).drop_first() =~= split_lines_spec(s.drop_first()));
        assert(split_lines_spec(s)[0] == Seq::<char>::empty());
        assert(join_lines_spec(split_lines_spec(s)) == Seq::<char>::empty() + seq!['\n']
            + join_lines_spec(split_lines_spec(s.drop_first())));
        assert(Seq::<char>::empty() + seq!['\n'] + s.drop_first() =~= s);
        assert(join_lines_spec(split_lines_spec(s)) =~= s);
    } else {
        lemma_join_split_roundtrip(s.drop_first());
        let rest = split_lines_spec(s.drop_first());
        lemma_split_nonempty(s.drop_first());
        if rest.len() == 1 {
            assert(join_lines_spec(rest) == rest[0]);
            assert(split_lines_spec(s).len() == 1);
            assert(join_lines_spec(split_lines_spec(s)) == seq![s[0]] + rest[0]);
            assert(seq![s[0]] + s.drop_first() =~= s);
            assert(join_lines_spec(split_lines_spec(s)) =~= s);
        } else {
            assert(split_lines_spec(s).drop_first() =~= rest.drop_first());
            assert(join_lines_spec(split_lines_spec(s)) =~= (seq![s[0]] + rest[0]) + seq!['\n']
                + join_lines_spec(rest.drop_first()));
            assert(join_lines_spec(rest) == rest[0] + seq!['\n'] + join_lines_spec(
                rest.drop_first(),
            ));
            assert((seq![s[0]] + rest[0]) + seq!['\n'] + join_lines_spec(rest.drop_first())
                =~= seq![s[0]] + (rest[0] + seq!['\n'] + join_lines_spec(rest.drop_first())));
            assert(seq![s[0]] + s.drop_first() =~= s);
            assert(join_lines_spec(split_lines_spec(s)) =~= s);
        }
    }
}

/// Splits file content into buffer lines at newline characters.
pub fn split_lines(text: &Vec<char>) -> (r: Vec<Vec<char>>)
    ensures
        lines_view(r@) == split_lines_spec(text@),
        r@.len() >= 1,
{
    let mut out: Vec<Vec<char>> = Vec::new();
    let mut cur: Vec<char> = Vec::new();
    let mut i: usize = 0;
    proof {
        assert(lines_view(out@).push(cur@) =~= split_lines_spec(text@.take(0)));
    }
    while i < text.len()
        invariant
            i <= text@.len(),
            lines_view(out@).push(cur@) == split_lines_spec(text@.take(i as int)),
        decreases text@.len() - i,
    {
        let ghost prev_out = lines_view(out@);
        let ghost prev_cur = cur@;
        let c = text[i];
        proof {
            assert(text@.take(i + 1) =~= text@.take(i as int).push(text@[i as int]));
            lemma_split_snoc(text@.take(i as int), text@[i as int]);
            lemma_split_nonempty(text@.take(i as int));
        }
        if c == '\n' {
            out.push(cur);
            cur = Vec::new();
            proof {
                assert(lines_view(out@) =~= prev_out.push(prev_cur));
                assert(lines_view(out@).push(cur@) =~= split_lines_spec(text@.take(i + 1)));
            }
        } else {
            cur.push(c);
            proof {
                assert(prev_out.push(prev_cur).update(prev_out.len() as int, prev_cur.push(
                    text@[i as int],
                )) =~= prev_out.push(prev_cur.push(text@[i as int])));
                assert(lines_view(out@).push(cur@) =~= split_lines_spec(text@.take(i + 1)));
            }
        }
        i += 1;
    }
    proof {
        assert(text@.take(text@.len() as int) =~= text@);
    }
    out.push(cur);
    proof {
        assert(lines_view(out@) =~= split_lines_spec(text@));
    }
    out
}

/// Joins buffer lines into file content with newlines between them.
pub fn join_lines(lines: &Vec<Vec<char>>) -> (r: Vec<char>)
    ensures
        r@ == join_lines_spec(lines_view(lines@)),
{
    let mut r: Vec<char> = Vec::new();
    let mut i: usize = 0;
    proof {
        assert(lines_view(lines@).take(0) =~= Seq::<Seq<char>>::empty());
    }
    while i < lines.len()
        invariant
            i <= lines@.len(),
            r@ == join_lines_spec(lines_view(lines@).take(i as int)),
        decreases lines@.len() - i,
    {
        let ghost before = r@;
        if i > 0 {
            r.push('\n');
        }
        let line = &lines[i];
        let mut k: usize = 0;
        while k < line.len()
            invariant
                k <= line@.len(),
                line@ == lines@[i as int]@,
                i < lines@.len(),
                r@ == (if i > 0 {
                    before + seq!['\n'] + line@.take(k as int)
                } else {
                    before + line@.take(k as int)
                }),
            decreases line@.len() - k,
        {
            r.push(line[k]);
            k += 1;
            proof {
                if i > 0 {
                    assert(r@ =~= before + seq!['\n'] + line@.take(k as int));
                } else {
                    assert(r@ =~= before + line@.take(k as int));
                }
            }
        }
        proof {
            let lv = lines_view(lines@);
            assert(lv.take(i + 1) =~= lv.take(i as int).push(lv[i as int]));
            lemma_join_snoc(lv.take(i as int), lv[i as int]);
            assert(line@.take(line@.len() as int) =~= line@);
            if i > 0 {
                assert(lv.take(i as int).len() > 0);
                assert(r@ =~= join_lines_spec(lv.take(i as int)) + seq!['\n'] + lv[i as int]);
            } else {
                assert(r@ =~= lv[i as int]);
            }
            assert(r@ =~= join_lines_spec(lv.take(i + 1)));
        }
        i += 1;
    }
    proof {
        assert(lines_view(lines@).take(lines@.len() as int) =~= lines_view(lines@));
    }
    r
}

} // verus!
