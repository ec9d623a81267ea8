//! Character-level helpers on which the record rules are built.
//!
//! Strings are handled as sequences of characters: a `&str` is turned into a
//! `Vec<char>`, worked on, and turned back into a `String` at the end.

use vstd::prelude::*;

verus! {

/// `String::push` appends one character.
pub assume_specification[ String::push ](s: &mut String, ch: char)
    ensures
        final(s)@ == old(s)@.push(ch),
;

/// The characters of `s`, in order.
pub fn chars_of(s: &str) -> (v: Vec<char>)
    ensures
        v@ == s@,
{
    let n: usize = s.unicode_len();
    let mut v: Vec<char> = Vec::new();
    let mut i: usize = 0;
    while i < n
        invariant
            i <= n,
            n == s@.len(),
            v@ == s@.subrange(0, i as int),
        decreases n - i,
    {
        let c: char = s.get_char(i);
        v.push(c);
        proof {
            assert(v@ =~= s@.subrange(0, i + 1));
        }
        i += 1;
    }
    proof {
        assert(s@.subrange(0, n as int) =~= s@);
    }
    v
}

/// The string made of the characters of `v`, in order.
pub fn string_of(v: &Vec<char>) -> (s: String)
    ensures
        s@ == v@,
{
    let mut s: String = String::new();
    let mut i: usize = 0;
    while i < v.len()
        invariant
            i <= v.len(),
            s@ == v@.subrange(0, i as int),
        decreases v.len() - i,
    {
        s.push(v[i]);
        proof {
            assert(s@ =~= v@.subrange(0, i + 1));
        }
        i += 1;
    }
    proof {
        assert(v@.subrange(0, v.len() as int) =~= v@);
    }
    s
}

/// The characters of `v` from index `from` up to, not including, `to`.
pub fn slice_of(v: &Vec<char>, from: usize, to: usize) -> (r: Vec<char>)
    requires
        from <= to <= v.len(),
    ensures
        r@ == v@.subrange(from as int, to as int),
{
    let mut r: Vec<char> = Vec::new();
    let mut i: usize = from;
    while i < to
        invariant
            from <= i <= to,
            to <= v.len(),
            r@ == v@.subrange(from as int, i as int),
        decreases to - i,
    {
        r.push(v[i]);
        proof {
            assert(r@ =~= v@.subrange(from as int, i + 1));
        }
        i += 1;
    }
    r
}

/// Appends the characters of `tail` to `out`.
pub fn append_chars(out: &mut Vec<char>, tail: &Vec<char>)
    ensures
        final(out)@ == old(out)@ + tail@,
{
    let mut i: usize = 0;
    while i < tail.len()
        invariant
            i <= tail.len(),
            out@ == old(out)@ + tail@.subrange(0, i as int),
        decreases tail.len() - i,
    {
        out.push(tail[i]);
        proof {
            assert(out@ =~= old(out)@ + tail@.subrange(0, i + 1));
        }
        i += 1;
    }
    proof {
        assert(tail@.subrange(0, tail.len() as int) =~= tail@);
    }
}

/// Tells whether `s` begins with `prefix`.
pub fn has_prefix(s: &Vec<char>, prefix: &Vec<char>) -> (r: bool)
    ensures
        r == prefix@.is_prefix_of(s@),
{
    if prefix.len() > s.len() {
        return false;
    }
    let mut i: usize = 0;
    while i < prefix.len()
        invariant
            i <= prefix.len() <= s.len(),
            forall|k: int| 0 <= k < i ==> prefix@[k] == s@[k],
        decreases prefix.len() - i,
    {
        if prefix[i] != s[i] {
            proof {
                assert(s@.subrange(0, prefix@.len() as int)[i as int] == s@[i as int]);
            }
            return false;
        }
        i += 1;
    }
    proof {
        assert(prefix@ =~= s@.subrange(0, prefix@.len() as int));
    }
    true
}

/// Tells whether `a` and `b` hold the same characters.
pub fn same_chars(a: &Vec<char>, b: &Vec<char>) -> (r: bool)
    ensures
        r == (a@ == b@),
{
    if a.len() != b.len() {
        return false;
    }
    let r: bool = has_prefix(a, b);
    proof {
        if r {
            assert(a@ =~= b@);
        } else if a@ == b@ {
            assert(b@ =~= a@.subrange(0, b@.len() as int));
        }
    }
    r
}

/// `s` without every leading copy of `prefix`.
pub open spec fn spec_strip_leading(s: Seq<char>, prefix: Seq<char>) -> Seq<char>
    decreases s.len(),
{
    if prefix.len() > 0 && prefix.is_prefix_of(s) {
        spec_strip_leading(s.subrange(prefix.len() as int, s.len() as int), prefix)
    } else {
        s
    }
}

/// Removes every leading copy of `prefix` from `s`.
pub fn strip_leading(s: &Vec<char>, prefix: &Vec<char>) -> (r: Vec<char>)
    ensures
        r@ == spec_strip_leading(s@, prefix@),
{
    let mut rest: Vec<char> = slice_of(s, 0, s.len());
    proof {
        assert(s@.subrange(0, s.len() as int) =~= s@);
    }
    while prefix.len() > 0 && has_prefix(&rest, prefix)
        invariant
            spec_strip_leading(s@, prefix@) == spec_strip_leading(rest@, prefix@),
        decreases rest.len(),
    {
        rest = slice_of(&rest, prefix.len(), rest.len());
    }
    rest
}

/// The characters that count as white space when a label is trimmed.
pub open spec fn spec_is_space(c: char) -> bool {
    let n = c as u32;
    (0x09 <= n && n <= 0x0D) || n == 0x20 || n == 0x85 || n == 0xA0 || n == 0x1680 || (0x2000
        <= n && n <= 0x200A) || n == 0x2028 || n == 0x2029 || n == 0x202F || n == 0x205F || n
        == 0x3000
}

/// Tells whether `c` is a white-space character.
pub fn is_space(c: char) -> (r: bool)
    ensures
        r == spec_is_space(c),
{
    let n: u32 = c as u32;
    (0x09 <= n && n <= 0x0D) || n == 0x20 || n == 0x85 || n == 0xA0 || n == 0x1680 || (0x2000
        <= n && n <= 0x200A) || n == 0x2028 || n == 0x2029 || n == 0x202F || n == 0x205F || n
        == 0x3000
}

/// `s` without its leading white space.
pub open spec fn spec_trim_start(s: Seq<char>) -> Seq<char>
    decreases s.len(),
{
    if s.len() > 0 && spec_is_space(s[0]) {
        spec_trim_start(s.drop_first())
    } else {
        s
    }
}

/// `s` without its trailing white space.
pub open spec fn spec_trim_end(s: Seq<char>) -> Seq<char>
    decreases s.len(),
{
    if s.len() > 0 && spec_is_space(s.last()) {
        spec_trim_end(s.drop_last())
    } else {
        s
    }
}

/// `s` without leading and trailing white space.
pub open spec fn spec_trim(s: Seq<char>) -> Seq<char> {
    spec_trim_end(spec_trim_start(s))
}

/// Removes leading and trailing white space.
pub fn trim(s: &Vec<char>) -> (r: Vec<char>)
    ensures
        r@ == spec_trim(s@),
{
    let n: usize = s.len();
    let mut start: usize = 0;
    proof {
        assert(s@.subrange(0, n as int) =~= s@);
    }
    while start < n && is_space(s[start])
        invariant
            start <= n,
            n == s.len(),
            spec_trim_start(s@) == spec_trim_start(s@.subrange(start as int, n as int)),
        decreases n - start,
    {
        proof {
            assert(s@.subrange(start as int, n as int).drop_first() =~= s@.subrange(
                start + 1,
                n as int,
            ));
        }
        start += 1;
    }
    let mut end: usize = n;
    while end > start && is_space(s[end - 1])
        invariant
            start <= end <= n,
            n == s.len(),
            spec_trim(s@) == spec_trim_end(s@.subrange(start as int, end as int)),
        decreases end - start,
    {
        proof {
            assert(s@.subrange(start as int, end as int).drop_last() =~= s@.subrange(
                start as int,
                end - 1,
            ));
        }
        end -= 1;
    }
    slice_of(s, start, end)
}

/// `s` without its trailing `c` characters.
pub open spec fn spec_strip_trailing(s: Seq<char>, c: char) -> Seq<char>
    decreases s.len(),
{
    if s.len() > 0 && s.last() == c {
        spec_strip_trailing(s.drop_last(), c)
    } else {
        s
    }
}

/// The index just behind the last `c` in `s`; 0 where `s` holds no `c`.
pub open spec fn spec_after_last(s: Seq<char>, c: char) -> int
    decreases s.len(),
{
    if s.len() == 0 {
        0
    } else if s.last() == c {
        s.len() as int
    } else {
        spec_after_last(s.drop_last(), c)
    }
}

/// The index of the first `c` in `s`; the length of `s` where it holds no `c`.
pub open spec fn spec_first_index(s: Seq<char>, c: char) -> int
    decreases s.len(),
{
    if s.len() == 0 {
        0
    } else if s[0] == c {
        0
    } else {
        1 + spec_first_index(s.drop_first(), c)
    }
}

/// The last path segment of `s`: trailing slashes are dropped, and what
/// stands behind the last remaining slash is the segment.
pub open spec fn spec_last_segment(s: Seq<char>) -> Seq<char> {
    let t = spec_strip_trailing(s, '/');
    t.subrange(spec_after_last(t, '/'), t.len() as int)
}

/// The bounds of `spec_after_last`, and that nothing behind it is `c`.
pub proof fn lemma_after_last(s: Seq<char>, c: char)
    ensures
        0 <= spec_after_last(s, c) <= s.len(),
        spec_after_last(s, c) > 0 ==> s[spec_after_last(s, c) - 1] == c,
        forall|k: int| spec_after_last(s, c) <= k < s.len() ==> s[k] != c,
    decreases s.len(),
{
    if s.len() > 0 && s.last() != c {
        lemma_after_last(s.drop_last(), c);
        assert forall|k: int| spec_after_last(s, c) <= k < s.len() implies s[k] != c by {
            if k < s.len() - 1 {
                assert(s[k] == s.drop_last()[k]);
            }
        }
        if spec_after_last(s, c) > 0 {
            assert(s[spec_after_last(s, c) - 1] == s.drop_last()[spec_after_last(s, c) - 1]);
        }
    }
}

/// The bounds of `spec_first_index`, and that nothing before it is `c`.
pub proof fn lemma_first_index(s: Seq<char>, c: char)
    ensures
        0 <= spec_first_index(s, c) <= s.len(),
        spec_first_index(s, c) < s.len() ==> s[spec_first_index(s, c)] == c,
        forall|k: int| 0 <= k < spec_first_index(s, c) ==> s[k] != c,
    decreases s.len(),
{
    if s.len() > 0 && s[0] != c {
        lemma_first_index(s.drop_first(), c);
        assert forall|k: int| 0 <= k < spec_first_index(s, c) implies s[k] != c by {
            if k > 0 {
                assert(s[k] == s.drop_first()[k - 1]);
            }
        }
    }
}

/// What is left of a string once its trailing `c` characters are dropped
/// is a prefix of it that does not end in `c`, and all that was dropped is `c`.
pub proof fn lemma_strip_trailing(s: Seq<char>, c: char)
    ensures
        spec_strip_trailing(s, c).is_prefix_of(s),
        spec_strip_trailing(s, c).len() > 0 ==> spec_strip_trailing(s, c).last() != c,
        forall|k: int| spec_strip_trailing(s, c).len() <= k < s.len() ==> s[k] == c,
    decreases s.len(),
{
    if s.len() > 0 && s.last() == c {
        lemma_strip_trailing(s.drop_last(), c);
        let t = spec_strip_trailing(s.drop_last(), c);
        assert(t =~= s.subrange(0, t.len() as int));
        assert forall|k: int| t.len() <= k < s.len() implies s[k] == c by {
            if k < s.len() - 1 {
                assert(s[k] == s.drop_last()[k]);
            }
        }
    } else {
        assert(s =~= s.subrange(0, s.len() as int));
    }
}

/// The last path segment of a string holds no slash, and it is empty
/// only where the string holds nothing but slashes.
pub proof fn lemma_last_segment(s: Seq<char>)
    ensures
        forall|k: int|
            0 <= k < spec_last_segment(s).len() ==> (#[trigger] spec_last_segment(s)[k]) != '/',
        spec_last_segment(s).len() > 0 <==> exists|k: int|
            0 <= k < s.len() && (#[trigger] s[k]) != '/',
{
    let t = spec_strip_trailing(s, '/');
    let from = spec_after_last(t, '/');
    let seg = spec_last_segment(s);
    lemma_strip_trailing(s, '/');
    lemma_after_last(t, '/');
    assert forall|k: int| 0 <= k < seg.len() implies (#[trigger] seg[k]) != '/' by {
        assert(seg[k] == t[from + k]);
    }
    if t.len() > 0 {
        assert(t.last() != '/');
        assert(from < t.len());
        assert(t[t.len() - 1] == s.subrange(0, t.len() as int)[t.len() - 1]);
        assert(s[t.len() - 1] != '/');
    } else {
        assert forall|k: int| 0 <= k < s.len() implies (#[trigger] s[k]) == '/' by {}
    }
}

/// What stands before the first `c` of a string holds no `c`.
pub proof fn lemma_before_first(s: Seq<char>, c: char)
    ensures
        0 <= spec_first_index(s, c) <= s.len(),
        forall|k: int|
            0 <= k < spec_first_index(s, c) ==> (#[trigger] s.subrange(
                0,
                spec_first_index(s, c),
            )[k]) != c,
{
    lemma_first_index(s, c);
}

/// The last path segment of `s`.
pub fn last_segment(s: &Vec<char>) -> (r: Vec<char>)
    ensures
        r@ == spec_last_segment(s@),
{
    let mut end: usize = s.len();
    proof {
        assert(s@.subrange(0, s.len() as int) =~= s@);
    }
    while end > 0 && s[end - 1] == '/'
        invariant
            end <= s.len(),
            spec_strip_trailing(s@, '/') == spec_strip_trailing(s@.subrange(0, end as int), '/'),
        decreases end,
    {
        proof {
            assert(s@.subrange(0, end as int).drop_last() =~= s@.subrange(0, end - 1));
        }
        end -= 1;
    }
    let ghost t = s@.subrange(0, end as int);
    let mut start: usize = end;
    while start > 0 && s[start - 1] != '/'
        invariant
            start <= end <= s.len(),
            t == s@.subrange(0, end as int),
            spec_after_last(t, '/') == spec_after_last(s@.subrange(0, start as int), '/'),
        decreases start,
    {
        proof {
            assert(s@.subrange(0, start as int).drop_last() =~= s@.subrange(0, start - 1));
        }
        start -= 1;
    }
    proof {
        assert(t.subrange(start as int, end as int) =~= s@.subrange(start as int, end as int));
    }
    slice_of(s, start, end)
}

/// The index of the first `c` in `s`, or the length of `s`.
pub fn first_index(s: &Vec<char>, c: char) -> (r: usize)
    ensures
        r == spec_first_index(s@, c),
        r <= s.len(),
{
    let mut i: usize = 0;
    proof {
        assert(s@.subrange(0, s.len() as int) =~= s@);
    }
    while i < s.len() && s[i] != c
        invariant
            i <= s.len(),
            spec_first_index(s@, c) == i + spec_first_index(s@.subrange(i as int, s.len() as int), c),
        decreases s.len() - i,
    {
        proof {
            assert(s@.subrange(i as int, s.len() as int).drop_first() =~= s@.subrange(
                i + 1,
                s.len() as int,
            ));
        }
        i += 1;
    }
    i
}

/// The index just behind the last `c` in `s`, or 0.
pub fn after_last(s: &Vec<char>, c: char) -> (r: usize)
    ensures
        r == spec_after_last(s@, c),
        r <= s.len(),
{
    let mut i: usize = s.len();
    proof {
        assert(s@.subrange(0, s.len() as int) =~= s@);
    }
    while i > 0 && s[i - 1] != c
        invariant
            i <= s.len(),
            spec_after_last(s@, c) == spec_after_last(s@.subrange(0, i as int), c),
        decreases i,
    {
        proof {
            assert(s@.subrange(0, i as int).drop_last() =~= s@.subrange(0, i - 1));
        }
        i -= 1;
    }
    i
}

/// The characters that separate the names of a class list.
pub open spec fn spec_is_separator(c: char) -> bool {
    let n = c as u32;
    n == 0x09 || n == 0x0A || n == 0x0C || n == 0x0D || n == 0x20
}

/// Tells whether `c` separates the names of a class list.
pub fn is_separator(c: char) -> (r: bool)
    ensures
        r == spec_is_separator(c),
{
    let n: u32 = c as u32;
    n == 0x09 || n == 0x0A || n == 0x0C || n == 0x0D || n == 0x20
}

/// Tells whether a name of the list `s` stands from `from` up to `to`: a
/// run of characters that are no separators, bounded on each side by a
/// separator or by an end of the list.
pub open spec fn spec_is_name_at(s: Seq<char>, from: int, to: int) -> bool {
    &&& 0 <= from < to <= s.len()
    &&& (from == 0 || spec_is_separator(s[from - 1]))
    &&& (to == s.len() || spec_is_separator(s[to]))
    &&& forall|k: int| from <= k < to ==> !spec_is_separator(#[trigger] s[k])
}

/// Tells whether `name` is one of the names of the list `s`.
pub open spec fn spec_has_name(s: Seq<char>, name: Seq<char>) -> bool {
    exists|from: int, to: int| #[trigger]
        spec_is_name_at(s, from, to) && s.subrange(from, to) == name
}

/// Tells whether `name` is one of the names of the class list `s`.
pub fn has_name(s: &Vec<char>, name: &Vec<char>) -> (r: bool)
    ensures
        r == spec_has_name(s@, name@),
{
    let n: usize = s.len();
    let mut i: usize = 0;
    while i < n
        invariant
            i <= n,
            n == s.len(),
            i < n ==> (i == 0 || spec_is_separator(s@[i - 1])),
            forall|from: int, to: int|
                from < i && #[trigger] spec_is_name_at(s@, from, to) ==> s@.subrange(from, to)
                    != name@,
        decreases n - i,
    {
        if is_separator(s[i]) {
            proof {
                assert forall|from: int, to: int|
                    from < i + 1 && #[trigger] spec_is_name_at(s@, from, to) implies s@.subrange(
                    from,
                    to,
                ) != name@ by {
                    if from == i {
                        assert(!spec_is_separator(s@[from]));
                    }
                }
            }
            i += 1;
        } else {
            let start: usize = i;
            let mut j: usize = i;
            while j < n && !is_separator(s[j])
                invariant
                    start <= j <= n,
                    n == s.len(),
                    forall|k: int| start <= k < j ==> !spec_is_separator(#[trigger] s@[k]),
                decreases n - j,
            {
                j += 1;
            }
            let word: Vec<char> = slice_of(s, start, j);
            if same_chars(&word, name) {
                proof {
                    assert(spec_is_name_at(s@, start as int, j as int));
                }
                return true;
            }
            let next: usize = if j < n {
                j + 1
            } else {
                j
            };
            proof {
                assert forall|from: int, to: int|
                    from < next && #[trigger] spec_is_name_at(s@, from, to) implies s@.subrange(
                    from,
                    to,
                ) != name@ by {
                    if from == start {
                        if to < j {
                            assert(!spec_is_separator(s@[to]));
                        } else if to > j {
                            assert(!spec_is_separator(s@[j as int]));
                        }
                    } else if start < from <= j {
                        if from < j {
                            assert(!spec_is_separator(s@[from - 1]));
                        } else {
                            assert(!spec_is_separator(s@[from]));
                        }
                    }
                }
            }
            i = next;
        }
    }
    false
}

/// `s` with every `from` replaced by `to`.
pub open spec fn spec_replace_char(s: Seq<char>, from: char, to: char) -> Seq<char> {
    Seq::new(
        s.len(),
        |i: int|
            if s[i] == from {
                to
            } else {
                s[i]
            },
    )
}

/// Replaces every `from` in `s` by `to`.
pub fn replace_char(s: &Vec<char>, from: char, to: char) -> (r: Vec<char>)
    ensures
        r@ == spec_replace_char(s@, from, to),
{
    let mut r: Vec<char> = Vec::new();
    let mut i: usize = 0;
    while i < s.len()
        invariant
            i <= s.len(),
            r@.len() == i,
            forall|k: int| 0 <= k < i ==> r@[k] == spec_replace_char(s@, from, to)[k],
        decreases s.len() - i,
    {
        let c: char = s[i];
        if c == from {
            r.push(to);
        } else {
            r.push(c);
        }
        i += 1;
    }
    proof {
        assert(r@ =~= spec_replace_char(s@, from, to));
    }
    r
}

} // verus!
