//! Character-level helpers shared by the textual identifier formats.
use vstd::prelude::*;
use core::cmp::Ordering;

verus! {

/// Error produced when an identifier's text does not follow its grammar.
#[derive(Debug, Clone, Copy, PartialEq, Eq)]
pub struct ParseError {
    /// What was wrong with the text.
    pub reason: &'static str,
}

/// `i` is the one and only position of `c` in `s`.
pub open spec fn is_single_index(s: Seq<char>, c: char, i: int) -> bool {
    &&& 0 <= i < s.len()
    &&& s[i] == c
    &&& forall|j: int| 0 <= j < s.len() && j != i ==> s[j] != c
}

/// The position of `c` in `s` when `c` occurs exactly once.
pub open spec fn single_index(s: Seq<char>, c: char) -> Option<int> {
    if exists|i: int| is_single_index(s, c, i) {
        Some(choose|i: int| is_single_index(s, c, i))
    } else {
        None
    }
}

/// Text before position `i`.
pub open spec fn before(s: Seq<char>, i: int) -> Seq<char> {
    s.subrange(0, i)
}

/// Text after position `i`.
pub open spec fn after(s: Seq<char>, i: int) -> Seq<char> {
    s.subrange(i + 1, s.len() as int)
}

/// `a`, then the separator `c`, then `b`.
pub open spec fn joined(a: Seq<char>, c: char, b: Seq<char>) -> Seq<char> {
    a + seq![c] + b
}

/// Joining two texts that lack `c` puts the only `c` between them, and the
/// two parts come back unchanged.
pub proof fn lemma_joined_splits(a: Seq<char>, c: char, b: Seq<char>)
    requires
        !a.contains(c),
        !b.contains(c),
    ensures
        single_index(joined(a, c, b), c) == Some(a.len() as int),
        before(joined(a, c, b), a.len() as int) == a,
        after(joined(a, c, b), a.len() as int) == b,
{
    let s = joined(a, c, b);
    let k = a.len() as int;
    assert forall|j: int| 0 <= j < s.len() && j != k implies s[j] != c by {
        if j < k {
            assert(s[j] == a[j]);
        } else {
            assert(s[j] == b[j - k - 1]);
        }
    }
    assert(is_single_index(s, c, k));
    let i = choose|i: int| is_single_index(s, c, i);
    assert(i == k);
    assert(before(s, k) =~= a);
    assert(after(s, k) =~= b);
}

/// The first position at or after `from` where `c` stands, if any.
pub fn index_of(s: &str, c: char, from: usize) -> (r: Option<usize>)
    requires
        from <= s@.len(),
    ensures
        s@.len() <= usize::MAX,
        match r {
            Some(i) => from <= i < s@.len() && s@[i as int] == c && forall|j: int|
                from <= j < i ==> s@[j] != c,
            None => forall|j: int| from <= j < s@.len() ==> s@[j] != c,
        },
{
    let n = s.unicode_len();
    let mut i = from;
    while i < n
        invariant
            n == s@.len(),
            from <= i <= n,
            forall|j: int| from <= j < i ==> s@[j] != c,
        decreases n - i,
    {
        if s.get_char(i) == c {
            return Some(i);
        }
        i = i + 1;
    }
    None
}

/// Position of `c` in `s` when it occurs exactly once, `None` otherwise.
pub fn find_single(s: &str, c: char) -> (r: Option<usize>)
    ensures
        match r {
            Some(i) => single_index(s@, c) == Some(i as int),
            None => single_index(s@, c) is None,
        },
{
    match index_of(s, c, 0) {
        None => {
            assert(!exists|i: int| is_single_index(s@, c, i));
            None
        },
        Some(i) => {
            match index_of(s, c, i + 1) {
                None => {
                    assert(is_single_index(s@, c, i as int));
                    proof {
                        let k = choose|k: int| is_single_index(s@, c, k);
                        assert(k == i);
                    }
                    Some(i)
                },
                Some(j) => {
                    assert forall|k: int| !is_single_index(s@, c, k) by {
                        if is_single_index(s@, c, k) {
                            assert(k == i || k == j);
                        }
                    }
                    None
                },
            }
        },
    }
}

/// Owned copy of the characters `from..to` of `s`.
pub fn slice(s: &str, from: usize, to: usize) -> (r: String)
    requires
        from <= to <= s@.len(),
    ensures
        r@ == s@.subrange(from as int, to as int),
{
    String::from_str(s.substring_char(from, to))
}

/// `k` is where `a` and `b` part: they agree before it, and at `k` one of
/// them ends or their characters differ.
pub open spec fn text_parts_at(a: Seq<char>, b: Seq<char>, k: int) -> bool {
    &&& 0 <= k <= a.len()
    &&& k <= b.len()
    &&& forall|i: int| 0 <= i < k ==> a[i] == b[i]
    &&& (k == a.len() || k == b.len() || a[k] != b[k])
}

/// Lexicographic order on texts, by character.
pub open spec fn text_lt(a: Seq<char>, b: Seq<char>) -> bool {
    exists|k: int|
        text_parts_at(a, b, k) && k < b.len() && (k == a.len() || a[k] < b[k])
}

proof fn lemma_text_parting_unique(a: Seq<char>, b: Seq<char>, k1: int, k2: int)
    requires
        text_parts_at(a, b, k1),
        text_parts_at(a, b, k2),
    ensures
        k1 == k2,
{
    if k1 < k2 {
        assert(a[k1] == b[k1]);
    } else if k2 < k1 {
        assert(a[k2] == b[k2]);
    }
}

proof fn lemma_text_parting_exists(a: Seq<char>, b: Seq<char>, from: int) -> (k: int)
    requires
        0 <= from <= a.len(),
        from <= b.len(),
        forall|i: int| 0 <= i < from ==> a[i] == b[i],
    ensures
        text_parts_at(a, b, k),
    decreases a.len() - from,
{
    if from == a.len() || from == b.len() || a[from] != b[from] {
        from
    } else {
        lemma_text_parting_exists(a, b, from + 1)
    }
}

/// Exactly one of `a < b`, `a == b`, `b < a` holds.
pub proof fn lemma_text_trichotomy(a: Seq<char>, b: Seq<char>)
    ensures
        text_lt(a, b) || a == b || text_lt(b, a),
        !(text_lt(a, b) && a == b),
        !(text_lt(b, a) && a == b),
        !(text_lt(a, b) && text_lt(b, a)),
{
    let k = lemma_text_parting_exists(a, b, 0);
    assert(text_parts_at(b, a, k));
    if k == a.len() && k == b.len() {
        assert(a =~= b);
    } else if k == a.len() {
        assert(text_lt(a, b));
    } else if k == b.len() {
        assert(text_lt(b, a));
    } else if a[k] < b[k] {
        assert(text_lt(a, b));
    } else {
        assert(text_lt(b, a));
    }
    if text_lt(a, b) {
        let k1 = choose|k1: int|
            text_parts_at(a, b, k1) && k1 < b.len() && (k1 == a.len() || a[k1] < b[k1]);
        lemma_text_parting_unique(a, b, k, k1);
    }
    if text_lt(b, a) {
        let k2 = choose|k2: int|
            text_parts_at(b, a, k2) && k2 < a.len() && (k2 == b.len() || b[k2] < a[k2]);
        assert(text_parts_at(a, b, k2));
        lemma_text_parting_unique(a, b, k, k2);
    }
}

/// The order on texts is transitive.
pub proof fn lemma_text_transitive(a: Seq<char>, b: Seq<char>, c: Seq<char>)
    requires
        text_lt(a, b),
        text_lt(b, c),
    ensures
        text_lt(a, c),
{
    let k1 = choose|k: int|
        text_parts_at(a, b, k) && k < b.len() && (k == a.len() || a[k] < b[k]);
    let k2 = choose|k: int|
        text_parts_at(b, c, k) && k < c.len() && (k == b.len() || b[k] < c[k]);
    let k = if k1 < k2 {
        k1
    } else {
        k2
    };
    assert(text_parts_at(a, c, k) && k < c.len() && (k == a.len() || a[k] < c[k]));
}

/// Compares two texts in lexicographic order of code points.
pub fn compare_text(a: &str, b: &str) -> (r: Ordering)
    ensures
        (r == Ordering::Less) == text_lt(a@, b@),
        (r == Ordering::Equal) == (a@ == b@),
        (r == Ordering::Greater) == text_lt(b@, a@),
{
    let na = a.unicode_len();
    let nb = b.unicode_len();
    let mut i: usize = 0;
    let mut same = true;
    while same && i < na && i < nb
        invariant
            na == a@.len(),
            nb == b@.len(),
            i <= na,
            i <= nb,
            forall|j: int| 0 <= j < i ==> a@[j] == b@[j],
            !same ==> i < na && i < nb && a@[i as int] != b@[i as int],
        decreases na - i + if same { 1int } else { 0int },
    {
        if a.get_char(i) == b.get_char(i) {
            i = i + 1;
        } else {
            same = false;
        }
    }
    proof {
        lemma_text_trichotomy(a@, b@);
        assert(text_parts_at(a@, b@, i as int));
        assert(text_parts_at(b@, a@, i as int));
    }
    if i == na && i == nb {
        proof {
            assert(a@ =~= b@);
        }
        Ordering::Equal
    } else if i == na {
        Ordering::Less
    } else if i == nb {
        Ordering::Greater
    } else if a.get_char(i) < b.get_char(i) {
        Ordering::Less
    } else {
        Ordering::Greater
    }
}

} // verus!
