//! Splitting a command line into words and joining words back.

use vstd::prelude::*;

verus! {

/// The pieces of `s` between single spaces, in order. Every space ends a
/// piece, so two spaces in a row give an empty piece and the empty line is
/// one empty piece.
pub open spec fn split_spec(s: Seq<char>) -> Seq<Seq<char>>
    decreases s.len(),
{
    if s.len() == 0 {
        seq![Seq::<char>::empty()]
    } else {
        let p = split_spec(s.drop_last());
        if s.last() == ' ' {
            p.push(Seq::<char>::empty())
        } else {
            p.update(p.len() - 1, p.last().push(s.last()))
        }
    }
}

/// The words `parts`, with one space between each two.
pub open spec fn join_spec(parts: Seq<Seq<char>>) -> Seq<char>
    decreases parts.len(),
{
    if parts.len() == 0 {
        Seq::<char>::empty()
    } else if parts.len() == 1 {
        parts[0]
    } else {
        join_spec(parts.drop_last()) + seq![' '] + parts.last()
    }
}

/// A line always splits into at least one piece.
pub proof fn lemma_split_nonempty(s: Seq<char>)
    ensures
        split_spec(s).len() >= 1,
    decreases s.len(),
{
    if s.len() > 0 {
        lemma_split_nonempty(s.drop_last());
    }
}

/// Appending a character to the last word appends it to the joined text.
proof fn lemma_join_extend_last(parts: Seq<Seq<char>>, c: char)
    requires
        parts.len() >= 1,
    ensures
        join_spec(parts.update(parts.len() - 1, parts.last().push(c))) == join_spec(parts).push(c),
{
    let q = parts.update(parts.len() - 1, parts.last().push(c));
    if parts.len() == 1 {
        assert(join_spec(q) == q[0]);
    } else {
        assert(q.drop_last() =~= parts.drop_last());
        assert(join_spec(q) == join_spec(q.drop_last()) + seq![' '] + q.last());
        assert(join_spec(q) =~= join_spec(parts).push(c));
    }
}

/// Joining the pieces of a line with single spaces gives the line back.
pub proof fn lemma_join_split(s: Seq<char>)
    ensures
        join_spec(split_spec(s)) == s,
    decreases s.len(),
{
    if s.len() == 0 {
        assert(join_spec(split_spec(s)) =~= s);
    } else {
        let p = split_spec(s.drop_last());
        lemma_join_split(s.drop_last());
        lemma_split_nonempty(s.drop_last());
        if s.last() == ' ' {
            let q = p.push(Seq::<char>::empty());
            assert(q.drop_last() =~= p);
            assert(join_spec(q) =~= s);
        } else {
            lemma_join_extend_last(p, s.last());
            assert(join_spec(p).push(s.last()) =~= s);
        }
    }
}

/// A text without spaces.
pub open spec fn no_space(s: Seq<char>) -> bool {
    forall|i: int| 0 <= i < s.len() ==> s[i] != ' '
}

/// A text without spaces is one piece.
pub proof fn lemma_split_no_space(a: Seq<char>)
    requires
        no_space(a),
    ensures
        split_spec(a) == seq![a],
    decreases a.len(),
{
    if a.len() == 0 {
        assert(a =~= Seq::<char>::empty());
        assert(split_spec(a) =~= seq![a]);
    } else {
        let d = a.drop_last();
        assert(no_space(d));
        lemma_split_no_space(d);
        assert(a.last() != ' ');
        assert(d.push(a.last()) =~= a);
        assert(split_spec(a) == seq![d].update(0, d.push(a.last())));
        assert(split_spec(a) =~= seq![a]);
    }
}

/// A word without spaces, a space, then `b`: the word is the first piece
/// and the pieces of `b` follow.
pub proof fn lemma_split_first_word(a: Seq<char>, b: Seq<char>)
    requires
        no_space(a),
    ensures
        split_spec(a + seq![' '] + b) == seq![a] + split_spec(b),
    decreases b.len(),
{
    let s = a + seq![' '] + b;
    if b.len() == 0 {
        assert(s.drop_last() =~= a);
        lemma_split_no_space(a);
        assert(split_spec(s) =~= seq![a] + split_spec(b));
    } else {
        let b0 = b.drop_last();
        lemma_split_first_word(a, b0);
        assert(s.drop_last() =~= a + seq![' '] + b0);
        assert(s.last() == b.last());
        lemma_split_nonempty(b0);
        let p = split_spec(b0);
        if b.last() == ' ' {
            assert(split_spec(s) =~= (seq![a] + p).push(Seq::<char>::empty()));
            assert(split_spec(b) =~= p.push(Seq::<char>::empty()));
            assert(split_spec(s) =~= seq![a] + split_spec(b));
        } else {
            let q = seq![a] + p;
            assert(split_spec(s) == q.update(q.len() - 1, q.last().push(b.last())));
            assert(split_spec(b) == p.update(p.len() - 1, p.last().push(b.last())));
            assert(split_spec(s) =~= seq![a] + split_spec(b));
        }
    }
}

/// The views of a run of string slices.
pub open spec fn views(parts: Seq<&str>) -> Seq<Seq<char>> {
    parts.map_values(|p: &str| p@)
}

/// Splits `line` at every space (`str::split(' ')`).
pub fn split_words(line: &str) -> (parts: Vec<&str>)
    ensures
        views(parts@) == split_spec(line@),
{
    let n = line.unicode_len();
    let mut parts: Vec<&str> = Vec::new();
    let mut start: usize = 0;
    let mut i: usize = 0;
    assert(line@.subrange(0, 0) =~= Seq::<char>::empty());
    while i < n
        invariant
            n == line@.len(),
            start <= i <= n,
            views(parts@).push(line@.subrange(start as int, i as int)) =~= split_spec(
                line@.subrange(0, i as int),
            ),
        decreases n - i,
    {
        let c = line.get_char(i);
        let ghost prefix = line@.subrange(0, i as int + 1);
        let ghost before = views(parts@);
        let ghost current = line@.subrange(start as int, i as int);
        assert(prefix.drop_last() =~= line@.subrange(0, i as int));
        assert(prefix.last() == c);
        if c == ' ' {
            let piece = line.substring_char(start, i);
            parts.push(piece);
            assert(views(parts@) =~= before.push(current));
            start = i + 1;
            assert(line@.subrange(start as int, i as int + 1) =~= Seq::<char>::empty());
        } else {
            assert(line@.subrange(start as int, i as int + 1) =~= current.push(c));
        }
        i = i + 1;
    }
    let last = line.substring_char(start, n);
    parts.push(last);
    assert(line@.subrange(0, n as int) =~= line@);
    parts
}

/// The words `parts[start..]` with one space between each two
/// (`parts[start..].join(" ")`).
pub fn join_words(parts: &Vec<&str>, start: usize) -> (s: String)
    requires
        start <= parts@.len(),
    ensures
        s@ == join_spec(views(parts@).subrange(start as int, parts@.len() as int)),
{
    let n = parts.len();
    if start == n {
        assert(views(parts@).subrange(start as int, n as int) =~= Seq::<Seq<char>>::empty());
        return String::new();
    }
    let mut res = String::from_str(parts[start]);
    let mut j: usize = start + 1;
    assert(views(parts@).subrange(start as int, j as int) =~= seq![parts@[start as int]@]);
    while j < n
        invariant
            n == parts@.len(),
            start < j <= n,
            res@ == join_spec(views(parts@).subrange(start as int, j as int)),
        decreases n - j,
    {
        let ghost before = views(parts@).subrange(start as int, j as int);
        let ghost after = views(parts@).subrange(start as int, j as int + 1);
        assert(after.drop_last() =~= before);
        assert(after.last() == parts@[j as int]@);
        proof {
            reveal_strlit(" ");
        }
        res.append(" ");
        res.append(parts[j]);
        assert(res@ =~= join_spec(before) + seq![' '] + after.last());
        j = j + 1;
    }
    res
}

/// Whether two string slices hold the same characters (`==` on `str`).
pub fn str_eq(a: &str, b: &str) -> (eq: bool)
    ensures
        eq == (a@ == b@),
{
    let n = a.unicode_len();
    if n != b.unicode_len() {
        return false;
    }
    let mut i: usize = 0;
    while i < n
        invariant
            n == a@.len(),
            n == b@.len(),
            i <= n,
            forall|k: int| 0 <= k < i ==> a@[k] == b@[k],
        decreases n - i,
    {
        if a.get_char(i) != b.get_char(i) {
            return false;
        }
        i = i + 1;
    }
    assert(a@ =~= b@);
    true
}

} // verus!
