use vstd::prelude::*;

verus! {

/// `pattern` stands in `text` starting at position `i`.
pub open spec fn occurs_at(text: Seq<char>, pattern: Seq<char>, i: int) -> bool {
    &&& 0 <= i
    &&& i + pattern.len() <= text.len()
    &&& text.subrange(i, i + pattern.len()) == pattern
}

/// `pattern` stands somewhere in `text`; the empty pattern stands in every
/// text.
pub open spec fn occurs_in(text: Seq<char>, pattern: Seq<char>) -> bool {
    exists|i: int| occurs_at(text, pattern, i)
}

/// The lines of `lines`, each followed by a line break, one after another.
pub open spec fn lines_joined(lines: Seq<Seq<char>>) -> Seq<char>
    decreases lines.len(),
{
    if lines.len() == 0 {
        Seq::empty()
    } else {
        lines_joined(lines.drop_last()) + lines.last() + seq!['\n']
    }
}

/// Whether two strings hold the same characters.
pub fn str_equal(a: &str, b: &str) -> (r: bool)
    ensures
        r == (a@ == b@),
{
    let n = a.unicode_len();
    if n != b.unicode_len() {
        return false;
    }
    let mut i: usize = 0;
    while i < n
        invariant
            n == a@.len(),
            n == b@.len(),
            i <= n,
            forall|j: int| 0 <= j < i ==> a@[j] == b@[j],
        decreases n - i,
    {
        if a.get_char(i) != b.get_char(i) {
            return false;
        }
        i = i + 1;
    }
    assert(a@ =~= b@);
    true
}

/// Whether `pattern` stands in `text` at position `i`.
fn matches_at(text: &str, pattern: &str, i: usize, m: usize) -> (r: bool)
    requires
        m == pattern@.len(),
        i + m <= text@.len(),
        text@.len() <= usize::MAX,
    ensures
        r == (text@.subrange(i as int, i + m) == pattern@),
{
    let mut j: usize = 0;
    while j < m
        invariant
            m == pattern@.len(),
            i + m <= text@.len(),
            text@.len() <= usize::MAX,
            j <= m,
            forall|k: int| 0 <= k < j ==> text@[i + k] == pattern@[k],
        decreases m - j,
    {
        if text.get_char(i + j) != pattern.get_char(j) {
            assert(text@.subrange(i as int, i + m)[j as int] != pattern@[j as int]);
            return false;
        }
        j = j + 1;
    }
    assert(text@.subrange(i as int, i + m) =~= pattern@);
    true
}

/// Whether `pattern` stands somewhere in `text`.
pub fn contains_text(text: &str, pattern: &str) -> (r: bool)
    ensures
        r == occurs_in(text@, pattern@),
{
    let n = text.unicode_len();
    let m = pattern.unicode_len();
    if m > n {
        assert forall|i: int| !occurs_at(text@, pattern@, i) by {}
        return false;
    }
    let last = n - m;
    let mut i: usize = 0;
    loop
        invariant
            n == text@.len(),
            m == pattern@.len(),
            last == n - m,
            i <= last,
            forall|k: int| 0 <= k < i ==> !occurs_at(text@, pattern@, k),
        ensures
            forall|k: int| 0 <= k <= last ==> !occurs_at(text@, pattern@, k),
        decreases last - i,
    {
        if matches_at(text, pattern, i, m) {
            assert(occurs_at(text@, pattern@, i as int));
            return true;
        }
        if i == last {
            break;
        }
        i = i + 1;
    }
    assert forall|k: int| !occurs_at(text@, pattern@, k) by {
        if 0 <= k && k + m <= n {
            assert(k <= last);
        }
    }
    false
}

/// The lines, each followed by a line break, in one string.
pub fn join_lines(lines: &Vec<String>) -> (r: String)
    ensures
        r@ == lines_joined(lines@.map_values(|s: String| s@)),
{
    let ghost views = lines@.map_values(|s: String| s@);
    let mut r = String::new();
    let mut i: usize = 0;
    proof {
        reveal_strlit("\n");
        assert(views.take(0) =~= Seq::<Seq<char>>::empty());
    }
    while i < lines.len()
        invariant
            views == lines@.map_values(|s: String| s@),
            i <= lines.len(),
            r@ == lines_joined(views.take(i as int)),
            "\n"@ == seq!['\n'],
        decreases lines.len() - i,
    {
        r.append(lines[i].as_str());
        r.append("\n");
        assert(views.take(i + 1).drop_last() =~= views.take(i as int));
        assert(views.take(i + 1).last() == lines[i as int]@);
        i = i + 1;
    }
    assert(views.take(lines.len() as int) =~= views);
    r
}

} // verus!
