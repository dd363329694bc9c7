//! Splitting a listing body into lines, and its inverse.
//!
//! The store answers a listing request with the matching keys joined by
//! single newline characters. `split_lines` says exactly what splitting a
//! body on the newline character yields, mirroring how text is split on a
//! separator: the result always holds at least one segment, and an empty
//! body yields one empty segment. `join_lines` is the store's side of the
//! exchange, and the round-trip lemma shows that splitting recovers every
//! newline-free key list.

use vstd::prelude::*;

verus! {

/// The segments of `s` delimited by the newline character, in order.
/// There is always at least one segment; an empty `s` gives one empty
/// segment, and a trailing newline gives a trailing empty segment.
pub open spec fn split_lines(s: Seq<char>) -> Seq<Seq<char>>
    decreases s.len(),
{
    if s.len() == 0 {
        seq![Seq::<char>::empty()]
    } else if s[0] == '\n' {
        seq![Seq::<char>::empty()] + split_lines(s.skip(1))
    } else {
        let rest = split_lines(s.skip(1));
        seq![seq![s[0]] + rest[0]] + rest.skip(1)
    }
}

/// The lines joined back into one body, with a single newline between
/// each pair of neighbours and none at either end.
pub open spec fn join_lines(lines: Seq<Seq<char>>) -> Seq<char>
    decreases lines.len(),
{
    if lines.len() == 0 {
        Seq::<char>::empty()
    } else if lines.len() == 1 {
        lines[0]
    } else {
        lines[0] + seq!['\n'] + join_lines(lines.skip(1))
    }
}

/// A body without any newline is one single segment.
pub proof fn lemma_split_no_newline(s: Seq<char>)
    requires
        forall|j: int| 0 <= j < s.len() ==> s[j] != '\n',
    ensures
        split_lines(s) == seq![s],
    decreases s.len(),
{
    if s.len() == 0 {
        assert(s =~= Seq::<char>::empty());
    } else {
        lemma_split_no_newline(s.skip(1));
        let rest = split_lines(s.skip(1));
        assert(seq![s[0]] + rest[0] =~= s);
        assert(rest.skip(1) =~= Seq::<Seq<char>>::empty());
        assert(seq![seq![s[0]] + rest[0]] + rest.skip(1) =~= seq![s]);
    }
}

/// Splitting peels off everything before the first newline as the first
/// segment and continues after it.
pub proof fn lemma_split_first_newline(s: Seq<char>, i: int)
    requires
        0 <= i < s.len(),
        s[i] == '\n',
        forall|j: int| 0 <= j < i ==> s[j] != '\n',
    ensures
        split_lines(s) == seq![s.take(i)] + split_lines(s.skip(i + 1)),
    decreases i,
{
    if i == 0 {
        assert(s.take(0) =~= Seq::<char>::empty());
        assert(seq![Seq::<char>::empty()] + split_lines(s.skip(1)) =~= seq![s.take(0)]
            + split_lines(s.skip(1)));
    } else {
        let t = s.skip(1);
        assert(t[i - 1] == '\n');
        assert(forall|j: int| 0 <= j < i - 1 ==> t[j] != '\n');
        lemma_split_first_newline(t, i - 1);
        let rest = split_lines(t);
        assert(rest == seq![t.take(i - 1)] + split_lines(t.skip(i)));
        assert(rest[0] == t.take(i - 1));
        assert(seq![s[0]] + t.take(i - 1) =~= s.take(i));
        assert(rest.skip(1) =~= split_lines(t.skip(i)));
        assert(t.skip(i) =~= s.skip(i + 1));
        assert(seq![seq![s[0]] + rest[0]] + rest.skip(1) =~= seq![s.take(i)] + split_lines(
            s.skip(i + 1),
        ));
    }
}

/// The round trip: a non-empty list of newline-free lines, joined and
/// split again, comes back unchanged.
pub proof fn lemma_split_join(lines: Seq<Seq<char>>)
    requires
        lines.len() >= 1,
        forall|k: int, j: int|
            0 <= k < lines.len() && 0 <= j < lines[k].len() ==> lines[k][j] != '\n',
    ensures
        split_lines(join_lines(lines)) == lines,
    decreases lines.len(),
{
    if lines.len() == 1 {
        lemma_split_no_newline(lines[0]);
        assert(seq![lines[0]] =~= lines);
    } else {
        let first = lines[0];
        let rest = lines.skip(1);
        let joined = join_lines(lines);
        assert(joined == first + seq!['\n'] + join_lines(rest));
        let n0 = first.len() as int;
        assert(forall|j: int| 0 <= j < n0 ==> joined[j] != '\n');
        assert(joined[n0] == '\n');
        lemma_split_first_newline(joined, n0);
        assert(joined.take(n0) =~= first);
        assert(joined.skip(n0 + 1) =~= join_lines(rest));
        assert(forall|k: int, j: int|
            0 <= k < rest.len() && 0 <= j < rest[k].len() ==> rest[k][j] != '\n');
        lemma_split_join(rest);
        assert(seq![first] + rest =~= lines);
    }
}

} // verus!
