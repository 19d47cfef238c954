//! Character-sequence models and verified helpers for the small amount of
//! text processing the parser needs: finding a character, comparing strings,
//! and splitting text into lines the way `str::lines` does.

use vstd::prelude::*;

verus! {

/// Index of the first occurrence of `c` in `s`, or `s.len()` when `s` does
/// not contain `c`.
pub open spec fn first_index_of(s: Seq<char>, c: char) -> int
    decreases s.len(),
{
    if s.len() == 0 {
        0
    } else if s[0] == c {
        0
    } else {
        1 + first_index_of(s.subrange(1, s.len() as int), c)
    }
}

/// Whether `s` contains the character `c`.
pub open spec fn contains_char(s: Seq<char>, c: char) -> bool {
    exists|i: int| 0 <= i < s.len() && s[i] == c
}

/// `first_index_of` points at the first occurrence of `c`, and at `s.len()`
/// when there is none.
pub proof fn lemma_first_index_of(s: Seq<char>, c: char)
    ensures
        0 <= first_index_of(s, c) <= s.len(),
        first_index_of(s, c) < s.len() ==> s[first_index_of(s, c)] == c,
        forall|j: int| 0 <= j < first_index_of(s, c) ==> s[j] != c,
    decreases s.len(),
{
    if s.len() == 0 {
    } else if s[0] == c {
    } else {
        let tail = s.subrange(1, s.len() as int);
        lemma_first_index_of(tail, c);
        assert forall|j: int| 0 <= j < first_index_of(s, c) implies s[j] != c by {
            if j > 0 {
                assert(tail[j - 1] == s[j]);
            }
        }
    }
}

/// An index at or before which `c` does not occur, and at which `c` stands
/// unless the index is the length, determines `first_index_of` exactly.
pub proof fn lemma_first_index_of_is(s: Seq<char>, c: char, i: int)
    requires
        0 <= i <= s.len(),
        forall|j: int| 0 <= j < i ==> s[j] != c,
        i < s.len() ==> s[i] == c,
    ensures
        first_index_of(s, c) == i,
{
    lemma_first_index_of(s, c);
    let f = first_index_of(s, c);
    if i < s.len() {
        if f < i {
            assert(s[f] != c);
        }
        if f > i {
            assert(s[i] != c);
        }
    } else {
        if f < s.len() {
            assert(s[f] != c);
        }
    }
}

/// `contains_char` holds exactly when `first_index_of` falls short of the
/// length.
pub proof fn lemma_first_index_of_contains(s: Seq<char>, c: char)
    ensures
        contains_char(s, c) <==> first_index_of(s, c) < s.len(),
{
    lemma_first_index_of(s, c);
    if contains_char(s, c) {
        let w = choose|i: int| 0 <= i < s.len() && s[i] == c;
        if first_index_of(s, c) == s.len() {
            assert(s[w] != c);
        }
    }
}

/// A line before its terminator: one trailing carriage return is removed.
pub open spec fn strip_cr(s: Seq<char>) -> Seq<char> {
    if s.len() > 0 && s[s.len() - 1] == '\r' {
        s.subrange(0, s.len() - 1)
    } else {
        s
    }
}

/// The lines of `s`, split as `str::lines` splits them: a line ends at a
/// line feed, an immediately preceding carriage return belongs to the
/// terminator, and a final line needs no terminator.
pub open spec fn spec_lines(s: Seq<char>) -> Seq<Seq<char>>
    decreases s.len(),
{
    if s.len() == 0 {
        seq![]
    } else {
        let i = first_index_of(s, '\n');
        if 0 <= i < s.len() {
            seq![strip_cr(s.subrange(0, i))] + spec_lines(s.subrange(i + 1, s.len() as int))
        } else {
            seq![s]
        }
    }
}

/// The views of a sequence of strings.
pub open spec fn string_views(s: Seq<String>) -> Seq<Seq<char>> {
    s.map_values(|x: String| x@)
}

/// Taking the views of the strings distributes over pushing one string.
pub proof fn lemma_string_views_push(s: Seq<String>, x: String)
    ensures
        string_views(s.push(x)) == string_views(s).push(x@),
{
    assert(string_views(s.push(x)) =~= string_views(s).push(x@));
}

/// Whether the character sequences of `a` and `b` are equal, compared one
/// character at a time.
pub fn str_eq(a: &str, b: &str) -> (r: bool)
    ensures
        r == (a@ == b@),
{
    let n = a.unicode_len();
    if n != b.unicode_len() {
        return false;
    }
    let mut i: usize = 0;
    while i < n
        invariant
            0 <= i <= n,
            n == a@.len(),
            n == b@.len(),
            forall|j: int| 0 <= j < i ==> a@[j] == b@[j],
        decreases n - i,
    {
        if a.get_char(i) != b.get_char(i) {
            return false;
        }
        i = i + 1;
    }
    proof {
        assert(a@ =~= b@);
    }
    true
}

/// The position of the first `c` in `s` at or after `from`, or the length of
/// `s` when no such occurrence exists.
pub fn find_char(s: &str, c: char, from: usize) -> (r: usize)
    requires
        from as int <= s@.len(),
    ensures
        from <= r <= s@.len(),
        r < s@.len() ==> s@[r as int] == c,
        forall|k: int| from <= k < r ==> s@[k] != c,
{
    let n = s.unicode_len();
    let mut i: usize = from;
    while i < n
        invariant
            from <= i <= n,
            n == s@.len(),
            forall|k: int| from <= k < i ==> s@[k] != c,
        decreases n - i,
    {
        if s.get_char(i) == c {
            return i;
        }
        i = i + 1;
    }
    n
}

/// The lines of `s`, each as an owned string, in input order.
pub fn split_lines(s: &str) -> (r: Vec<String>)
    ensures
        r@.len() == spec_lines(s@).len(),
        forall|i: int| 0 <= i < r@.len() ==> r@[i]@ == spec_lines(s@)[i],
{
    let n = s.unicode_len();
    let mut res: Vec<String> = Vec::new();
    let mut start: usize = 0;
    proof {
        assert(s@.subrange(0, n as int) =~= s@);
    }
    while start < n
        invariant
            0 <= start <= n,
            n == s@.len(),
            spec_lines(s@) =~= res@.map_values(|l: String| l@) + spec_lines(
                s@.subrange(start as int, n as int),
            ),
        decreases n - start,
    {
        let ghost rest = s@.subrange(start as int, n as int);
        let j = find_char(s, '\n', start);
        proof {
            assert forall|k: int| 0 <= k < j - start implies rest[k] != '\n' by {
                assert(rest[k] == s@[start + k]);
            }
            if j < n {
                assert(rest[j - start] == s@[j as int]);
            }
            lemma_first_index_of_is(rest, '\n', j - start);
        }
        let end = if j < n && j > start && s.get_char(j - 1) == '\r' {
            j - 1
        } else {
            j
        };
        let piece = s.substring_char(start, end);
        res.push(String::from_str(piece));
        proof {
            let seg = rest.subrange(0, j - start);
            if j < n {
                if j > start && s@[j - 1] == '\r' {
                    assert(seg[j - start - 1] == s@[j - 1]);
                    assert(strip_cr(seg) =~= s@.subrange(start as int, end as int));
                } else {
                    if seg.len() > 0 {
                        assert(seg[j - start - 1] == s@[j - 1]);
                    }
                    assert(strip_cr(seg) == seg);
                    assert(seg =~= s@.subrange(start as int, end as int));
                }
                assert(rest.subrange(j - start + 1, rest.len() as int) =~= s@.subrange(
                    j + 1,
                    n as int,
                ));
            } else {
                assert(rest =~= s@.subrange(start as int, end as int));
            }
        }
        if j < n {
            start = j + 1;
        } else {
            start = n;
        }
        proof {
            assert(spec_lines(s@) =~= res@.map_values(|l: String| l@) + spec_lines(
                s@.subrange(start as int, n as int),
            ));
        }
    }
    proof {
        assert(spec_lines(s@.subrange(n as int, n as int)) =~= Seq::<Seq<char>>::empty());
        assert(spec_lines(s@) =~= res@.map_values(|l: String| l@));
    }
    res
}

} // verus!

