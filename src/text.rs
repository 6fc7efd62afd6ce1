//! Plain text helpers over characters: whitespace trimming and reading the
//! default branch out of a remote's description.
use vstd::prelude::*;
use vstd::std_specs::iter::IteratorSpec;

verus! {

/// The characters that carry the Unicode `White_Space` property.
pub open spec fn is_white(c: char) -> bool {
    ||| c == '\t' || c == '\n' || c == '\u{0B}' || c == '\u{0C}' || c == '\r' || c == ' '
    ||| c == '\u{85}' || c == '\u{A0}' || c == '\u{1680}'
    ||| ('\u{2000}' <= c && c <= '\u{200A}')
    ||| c == '\u{2028}' || c == '\u{2029}' || c == '\u{202F}' || c == '\u{205F}'
    ||| c == '\u{3000}'
}

/// `s` without its leading and trailing whitespace.
pub open spec fn trimmed(s: Seq<char>) -> Seq<char>
    decreases s.len(),
{
    if s.len() > 0 && is_white(s[0]) {
        trimmed(s.drop_first())
    } else if s.len() > 0 && is_white(s.last()) {
        trimmed(s.drop_last())
    } else {
        s
    }
}

/// Whether `c` is a whitespace character.
pub fn white(c: char) -> (r: bool)
    ensures
        r == is_white(c),
{
    c == '\t' || c == '\n' || c == '\u{0B}' || c == '\u{0C}' || c == '\r' || c == ' ' || c
        == '\u{85}' || c == '\u{A0}' || c == '\u{1680}' || ('\u{2000}' <= c && c <= '\u{200A}')
        || c == '\u{2028}' || c == '\u{2029}' || c == '\u{202F}' || c == '\u{205F}' || c
        == '\u{3000}'
}

/// The characters of `s`, in order.
pub fn chars_of(s: &str) -> (r: Vec<char>)
    ensures
        r@ == s@,
{
    let mut it = s.chars();
    let mut v: Vec<char> = Vec::new();
    loop
        invariant
            v@ + it.remaining() == s@,
            it.decrease() is Some,
        decreases it.decrease()->0,
    {
        let ghost before = it.remaining();
        match it.next() {
            Some(c) => {
                v.push(c);
                assert(v@ + it.remaining() =~= s@) by {
                    assert(before =~= seq![c] + before.drop_first());
                }
            },
            None => {
                assert(v@ =~= s@);
                return v;
            },
        }
    }
}

proof fn lemma_trim_front(s: Seq<char>, i: int)
    requires
        0 <= i <= s.len(),
        forall|k: int| 0 <= k < i ==> is_white(#[trigger] s[k]),
    ensures
        trimmed(s) == trimmed(s.subrange(i, s.len() as int)),
    decreases i,
{
    if i > 0 {
        lemma_trim_front(s.drop_first(), i - 1);
        assert(s.drop_first().subrange(i - 1, s.len() - 1) =~= s.subrange(i, s.len() as int));
    } else {
        assert(s.subrange(0, s.len() as int) =~= s);
    }
}

proof fn lemma_trim_back(s: Seq<char>, j: int)
    requires
        1 <= j <= s.len(),
        !is_white(s[0]),
        forall|k: int| j <= k < s.len() ==> is_white(#[trigger] s[k]),
    ensures
        trimmed(s) == trimmed(s.subrange(0, j)),
    decreases s.len() - j,
{
    if j < s.len() {
        lemma_trim_back(s.drop_last(), j);
        assert(s.drop_last().subrange(0, j) =~= s.subrange(0, j));
    } else {
        assert(s.subrange(0, j) =~= s);
    }
}

/// `s` without its leading and trailing whitespace.
pub fn trim(s: &str) -> (r: String)
    ensures
        r@ == trimmed(s@),
{
    let cs = chars_of(s);
    let n = cs.len();
    let mut i: usize = 0;
    while i < n && white(cs[i])
        invariant
            cs@ == s@,
            n == cs@.len(),
            i <= n,
            forall|k: int| 0 <= k < i ==> is_white(#[trigger] s@[k]),
        decreases n - i,
    {
        i = i + 1;
    }
    proof {
        lemma_trim_front(s@, i as int);
    }
    let mut j: usize = n;
    while j > i && white(cs[j - 1])
        invariant
            cs@ == s@,
            n == cs@.len(),
            i <= j <= n,
            forall|k: int| j <= k < n ==> is_white(#[trigger] s@[k]),
        decreases j,
    {
        j = j - 1;
    }
    proof {
        let t = s@.subrange(i as int, n as int);
        if j > i {
            lemma_trim_back(t, j - i);
            assert(t.subrange(0, j - i) =~= s@.subrange(i as int, j as int));
            assert(trimmed(s@.subrange(i as int, j as int)) == s@.subrange(i as int, j as int));
        } else {
            assert(s@.subrange(i as int, j as int) =~= Seq::<char>::empty());
        }
    }
    String::from_str(s.substring_char(i, j))
}

/// The text that introduces the default branch in a remote's description.
pub open spec fn head_marker() -> Seq<char> {
    seq!['H', 'E', 'A', 'D', ' ', 'b', 'r', 'a', 'n', 'c', 'h', ':']
}

/// Whether `line` holds the marker somewhere.
pub open spec fn has_marker(line: Seq<char>) -> bool {
    exists|k: int|
        0 <= k && k + head_marker().len() <= line.len() && #[trigger] line.subrange(
            k,
            k + head_marker().len(),
        ) == head_marker()
}

/// What comes after the first `c` of `s` (nothing when there is none).
pub open spec fn after(s: Seq<char>, c: char) -> Seq<char>
    decreases s.len(),
{
    if s.len() == 0 {
        Seq::empty()
    } else if s[0] == c {
        s.drop_first()
    } else {
        after(s.drop_first(), c)
    }
}

/// The branch named by `line` when it holds the marker.
pub open spec fn branch_in_line(line: Seq<char>) -> Option<Seq<char>> {
    if has_marker(line) {
        Some(trimmed(after(line, ':')))
    } else {
        None
    }
}

/// Reads `s` from position `i` on, within the line that began at `start`:
/// the branch named by the first line that holds the marker, if any does.
/// Lines are separated by `'\n'`.
pub open spec fn scan_lines(s: Seq<char>, start: int, i: int) -> Option<Seq<char>>
    decreases s.len() - i,
{
    if i >= s.len() {
        branch_in_line(s.subrange(start, s.len() as int))
    } else if s[i] == '\n' {
        if has_marker(s.subrange(start, i)) {
            branch_in_line(s.subrange(start, i))
        } else {
            scan_lines(s, i + 1, i + 1)
        }
    } else {
        scan_lines(s, start, i + 1)
    }
}

/// The default branch that a remote's description names: what follows the
/// first colon, trimmed, on its first line that holds the marker.
pub open spec fn default_branch_of(s: Seq<char>) -> Option<Seq<char>> {
    scan_lines(s, 0, 0)
}

/// Whether `cs[start..end]` holds the marker.
fn marker_within(cs: &Vec<char>, marker: &Vec<char>, start: usize, end: usize) -> (r: bool)
    requires
        start <= end <= cs@.len(),
        marker@ == head_marker(),
    ensures
        r == has_marker(cs@.subrange(start as int, end as int)),
{
    let ghost line = cs@.subrange(start as int, end as int);
    let m = marker.len();
    if end - start < m {
        return false;
    }
    let mut k: usize = start;
    while k <= end - m
        invariant
            start <= k,
            k <= end,
            start + m <= end,
            end <= cs@.len(),
            m == head_marker().len(),
            marker@ == head_marker(),
            line == cs@.subrange(start as int, end as int),
            forall|q: int|
                0 <= q < k - start ==> #[trigger] line.subrange(q, q + m) != head_marker(),
        decreases end - k,
    {
        let mut x: usize = 0;
        while x < m && cs[k + x] == marker[x]
            invariant
                x <= m,
                k + m <= end,
                end <= cs@.len(),
                m == marker@.len(),
                forall|y: int| 0 <= y < x ==> cs@[k + y] == #[trigger] marker@[y],
            decreases m - x,
        {
            x = x + 1;
        }
        if x == m {
            proof {
                let q = k - start;
                assert(line.subrange(q, q + m) =~= head_marker());
            }
            return true;
        }
        assert(line.subrange(k - start, k - start + m)[x as int] != head_marker()[x as int]);
        k = k + 1;
    }
    proof {
        assert forall|q: int|
            0 <= q && q + head_marker().len() <= line.len() implies #[trigger] line.subrange(
            q,
            q + head_marker().len(),
        ) != head_marker() by {
            assert(q < k - start);
        }
    }
    false
}

proof fn lemma_after(s: Seq<char>, c: char, i: int)
    requires
        0 <= i <= s.len(),
        forall|y: int| 0 <= y < i ==> #[trigger] s[y] != c,
        i == s.len() || s[i] == c,
    ensures
        after(s, c) == if i < s.len() {
            s.subrange(i + 1, s.len() as int)
        } else {
            Seq::<char>::empty()
        },
    decreases s.len(),
{
    if s.len() > 0 && s[0] != c {
        lemma_after(s.drop_first(), c, i - 1);
        if i < s.len() {
            assert(s.drop_first().subrange(i, s.len() - 1) =~= s.subrange(i + 1, s.len() as int));
        }
    } else if s.len() > 0 {
        assert(s.drop_first() =~= s.subrange(1, s.len() as int));
    }
}

/// The first position at or after `from` and before `to` that holds `c`,
/// or `to` when there is none.
fn find_char(cs: &Vec<char>, c: char, from: usize, to: usize) -> (r: usize)
    requires
        from <= to <= cs@.len(),
    ensures
        from <= r <= to,
        r < to ==> cs@[r as int] == c,
        forall|y: int| from <= y < r ==> #[trigger] cs@[y] != c,
{
    let mut i: usize = from;
    while i < to && cs[i] != c
        invariant
            from <= i <= to,
            to <= cs@.len(),
            forall|y: int| from <= y < i ==> #[trigger] cs@[y] != c,
        decreases to - i,
    {
        i = i + 1;
    }
    i
}

/// The bounds, within `cs`, of what follows the first colon of
/// `cs[start..end]` (empty when it has none).
fn after_colon_bounds(cs: &Vec<char>, start: usize, end: usize) -> (r: (usize, usize))
    requires
        start <= end <= cs@.len(),
    ensures
        r.0 <= r.1 <= end,
        cs@.subrange(r.0 as int, r.1 as int) == after(cs@.subrange(start as int, end as int), ':'),
{
    let ghost line = cs@.subrange(start as int, end as int);
    let a = find_char(cs, ':', start, end);
    proof {
        lemma_after(line, ':', a - start);
    }
    if a == end {
        assert(cs@.subrange(end as int, end as int) =~= Seq::<char>::empty());
        return (end, end);
    }
    assert(line.subrange(a - start + 1, line.len() as int) =~= cs@.subrange(a + 1, end as int));
    (a + 1, end)
}

/// The default branch that the description `info` of a remote names: what
/// follows the first colon, trimmed, on its first line that holds
/// `HEAD branch:`; `None` when no line does.
pub fn default_branch(info: &str) -> (r: Option<String>)
    ensures
        match r {
            Some(b) => default_branch_of(info@) == Some(b@),
            None => default_branch_of(info@) is None,
        },
{
    let cs = chars_of(info);
    let marker_text = "HEAD branch:";
    proof {
        reveal_strlit("HEAD branch:");
    }
    let marker = chars_of(marker_text);
    assert(marker@ =~= head_marker());
    let n = cs.len();
    let mut start: usize = 0;
    let mut i: usize = 0;
    while i < n
        invariant
            cs@ == info@,
            marker@ == head_marker(),
            n == cs@.len(),
            start <= i <= n,
            scan_lines(info@, start as int, i as int) == scan_lines(info@, 0, 0),
        decreases n - i,
    {
        if cs[i] == '\n' {
            if marker_within(&cs, &marker, start, i) {
                let (a, b) = after_colon_bounds(&cs, start, i);
                let found = trim(info.substring_char(a, b));
                return Some(found);
            }
            start = i + 1;
        }
        i = i + 1;
    }
    if marker_within(&cs, &marker, start, n) {
        let (a, b) = after_colon_bounds(&cs, start, n);
        return Some(trim(info.substring_char(a, b)));
    }
    None
}

} // verus!
