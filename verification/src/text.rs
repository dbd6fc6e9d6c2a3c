//! Plain text operations on lines and messages, with their meaning stated
//! over sequences of characters.

use vstd::prelude::*;

verus! {

/// The `n`-th piece (counting from 0) of `s` cut at every `sep`, as
/// `str::split` yields them; `None` when `s` has fewer than `n` separators.
pub open spec fn split_field(s: Seq<char>, sep: char, n: nat) -> Option<Seq<char>>
    decreases n,
{
    match s.index_of_first(sep) {
        None => if n == 0 {
            Some(s)
        } else {
            None
        },
        Some(i) => if n == 0 {
            Some(s.take(i))
        } else {
            split_field(s.skip(i + 1), sep, (n - 1) as nat)
        },
    }
}

/// `s` with every occurrence of `c` taken out.
pub open spec fn remove_char(s: Seq<char>, c: char) -> Seq<char> {
    s.filter(other_than(c))
}

/// The test "is not `c`", as a predicate on characters.
pub open spec fn other_than(c: char) -> spec_fn(char) -> bool {
    |x: char| x != c
}

/// `s` with every occurrence of `from` replaced by `to`.
pub open spec fn replace_char(s: Seq<char>, from: char, to: char) -> Seq<char> {
    s.map_values(|x: char| if x == from { to } else { x })
}

/// The part of `s` after the first `sep`, as `str::split_once` gives it;
/// `None` when `s` holds no `sep`.
pub open spec fn after_first(s: Seq<char>, sep: char) -> Option<Seq<char>> {
    match s.index_of_first(sep) {
        Some(i) => Some(s.skip(i + 1)),
        None => None,
    }
}

/// The index of the first `c` in `s` is `i` when `s[i] == c` and no earlier
/// character is `c`.
proof fn lemma_first_index(s: Seq<char>, c: char, i: int)
    requires
        0 <= i < s.len(),
        s[i] == c,
        forall|j: int| 0 <= j < i ==> s[j] != c,
    ensures
        s.index_of_first(c) == Some(i),
{
    s.index_of_first_ensures(c);
    assert(s.contains(c));
}

/// `s` has no `c` at all exactly when its first index is `None`.
proof fn lemma_no_index(s: Seq<char>, c: char)
    requires
        forall|j: int| 0 <= j < s.len() ==> s[j] != c,
    ensures
        s.index_of_first(c) is None,
{
    s.index_of_first_ensures(c);
}

/// The characters of `s`, one by one.
pub fn chars_of(s: &str) -> (res: Vec<char>)
    ensures
        res@ == s@,
{
    let mut res: Vec<char> = Vec::new();
    for c in it: s.chars()
        invariant
            res@ == it.seq().take(it.index() as int),
            it.seq() == s@,
    {
        res.push(c);
    }
    res
}


/// The position of the first `c` at or after `start`, as an index into `s`.
pub fn find_from(s: &Vec<char>, c: char, start: usize) -> (res: Option<usize>)
    requires
        start <= s.len(),
    ensures
        match res {
            Some(i) => start <= i < s.len() && s@.skip(start as int).index_of_first(c) == Some(
                i - start,
            ),
            None => s@.skip(start as int).index_of_first(c) is None,
        },
{
    let ghost rest = s@.skip(start as int);
    let mut i = start;
    while i < s.len()
        invariant
            start <= i <= s.len(),
            rest == s@.skip(start as int),
            forall|j: int| 0 <= j < i - start ==> rest[j] != c,
        decreases s.len() - i,
    {
        if s[i] == c {
            proof {
                lemma_first_index(rest, c, i - start);
            }
            return Some(i);
        }
        i = i + 1;
    }
    proof {
        lemma_no_index(rest, c);
    }
    None
}

/// Where the `n`-th piece of `s` cut at `sep` lies: the piece is
/// `s[a..b]`; `None` when `s` has fewer than `n` separators.
pub fn split_field_range(s: &Vec<char>, sep: char, n: usize) -> (res: Option<(usize, usize)>)
    ensures
        match res {
            Some((a, b)) => a <= b <= s.len() && split_field(s@, sep, n as nat) == Some(
                s@.subrange(a as int, b as int),
            ),
            None => split_field(s@, sep, n as nat) is None,
        },
{
    let mut start: usize = 0;
    let mut k: usize = 0;
    assert(s@.skip(0) =~= s@);
    while k < n
        invariant
            k <= n,
            start <= s.len(),
            split_field(s@, sep, n as nat) == split_field(s@.skip(start as int), sep, (n - k) as nat),
        decreases n - k,
    {
        match find_from(s, sep, start) {
            Some(i) => {
                assert(s@.skip(start as int).skip(i - start + 1) =~= s@.skip(i + 1));
                start = i + 1;
            },
            None => {
                return None;
            },
        }
        k = k + 1;
    }
    match find_from(s, sep, start) {
        Some(i) => {
            assert(s@.skip(start as int).take(i - start) =~= s@.subrange(start as int, i as int));
            Some((start, i))
        },
        None => {
            assert(s@.skip(start as int) =~= s@.subrange(start as int, s.len() as int));
            Some((start, s.len()))
        },
    }
}


/// Taking `c` out of a run that holds nothing but `c` leaves nothing.
proof fn lemma_remove_all(s: Seq<char>, c: char)
    requires
        forall|j: int| 0 <= j < s.len() ==> s[j] == c,
    ensures
        remove_char(s, c).len() == 0,
{
    let p = other_than(c);
    assert(s.all(|x: char| !p(x)));
    s.lemma_all_neg_filter_empty(p);
}

/// The first character of `s[a..b]` that is not `skip`, if there is one; it
/// is the first character left once every `skip` is taken out.
pub fn first_char_except(s: &Vec<char>, a: usize, b: usize, skip: char) -> (res: Option<char>)
    requires
        a <= b <= s.len(),
    ensures
        ({
            let kept = remove_char(s@.subrange(a as int, b as int), skip);
            match res {
                Some(x) => kept.len() > 0 && kept[0] == x,
                None => kept.len() == 0,
            }
        }),
{
    let ghost sub = s@.subrange(a as int, b as int);
    let ghost p = other_than(skip);
    let mut i = a;
    while i < b
        invariant
            a <= i <= b <= s.len(),
            sub == s@.subrange(a as int, b as int),
            p == other_than(skip),
            forall|j: int| a <= j < i ==> s@[j] == skip,
        decreases b - i,
    {
        if s[i] != skip {
            proof {
                let k = i - a;
                lemma_remove_all(sub.take(k), skip);
                assert(sub =~= sub.take(k) + (seq![sub[k]] + sub.skip(k + 1)));
                Seq::filter_distributes_over_add(sub.take(k), seq![sub[k]] + sub.skip(k + 1), p);
                sub.skip(k + 1).lemma_filter_prepend(sub[k], p);
            }
            return Some(s[i]);
        }
        i = i + 1;
    }
    proof {
        lemma_remove_all(sub, skip);
    }
    None
}


/// Whether `s` holds the character `c`.
pub fn contains_char(s: &str, c: char) -> (res: bool)
    ensures
        res == s@.contains(c),
{
    let chars = chars_of(s);
    let mut i: usize = 0;
    while i < chars.len()
        invariant
            i <= chars@.len(),
            chars@ == s@,
            forall|j: int| 0 <= j < i ==> chars@[j] != c,
        decreases chars.len() - i,
    {
        if chars[i] == c {
            assert(s@[i as int] == c);
            return true;
        }
        i = i + 1;
    }
    false
}

/// A new string holding `a` followed by `b`.
pub fn concat(a: &str, b: &str) -> (res: String)
    ensures
        res@ == a@ + b@,
{
    let mut res = String::from_str(a);
    res.append(b);
    res
}


/// Whether `a` and `b` are the same text.
pub fn same_text(a: &str, b: &str) -> (res: bool)
    ensures
        res == (a@ == b@),
{
    let x = chars_of(a);
    let y = chars_of(b);
    if x.len() != y.len() {
        return false;
    }
    let mut i: usize = 0;
    while i < x.len()
        invariant
            i <= x@.len() == y@.len(),
            x@ == a@,
            y@ == b@,
            forall|j: int| 0 <= j < i ==> x@[j] == y@[j],
        decreases x.len() - i,
    {
        if x[i] != y[i] {
            return false;
        }
        i = i + 1;
    }
    assert(x@ =~= y@);
    true
}

/// Whether `s` begins with `prefix`.
pub fn has_prefix(s: &str, prefix: &str) -> (res: bool)
    ensures
        res == prefix@.is_prefix_of(s@),
{
    let x = chars_of(s);
    let y = chars_of(prefix);
    if y.len() > x.len() {
        return false;
    }
    let mut i: usize = 0;
    while i < y.len()
        invariant
            i <= y@.len() <= x@.len(),
            x@ == s@,
            y@ == prefix@,
            forall|j: int| 0 <= j < i ==> x@[j] == y@[j],
        decreases y.len() - i,
    {
        if x[i] != y[i] {
            return false;
        }
        i = i + 1;
    }
    true
}


/// `s` with every `c` taken out.
pub fn without_char(s: &str, c: char) -> (res: String)
    ensures
        res@ == remove_char(s@, c),
{
    let chars = chars_of(s);
    let mut res = String::new();
    let mut i: usize = 0;
    assert(s@.take(0).filter(other_than(c)) =~= Seq::<char>::empty()) by {
        reveal(Seq::filter);
    }
    while i < chars.len()
        invariant
            i <= chars@.len(),
            chars@ == s@,
            res@ == remove_char(s@.take(i as int), c),
        decreases chars.len() - i,
    {
        assert(s@.take(i + 1) =~= s@.take(i as int).push(s@[i as int]));
        proof {
            s@.take(i as int).lemma_filter_push(s@[i as int], other_than(c));
        }
        if chars[i] != c {
            res.append(s.substring_char(i, i + 1));
        }
        i = i + 1;
    }
    assert(s@.take(s@.len() as int) =~= s@);
    res
}

/// Where the pair `a` `b` first stands in `s`.
pub open spec fn find_pair(s: Seq<char>, a: char, b: char) -> Option<int>
    decreases s.len(),
{
    if s.len() < 2 {
        None
    } else if s[0] == a && s[1] == b {
        Some(0)
    } else {
        match find_pair(s.drop_first(), a, b) {
            Some(i) => Some(i + 1),
            None => None,
        }
    }
}

/// The part of `s` after the first pair `a` `b`, as `str::split_once` with a
/// two-character pattern gives it; `None` when the pair does not occur.
pub open spec fn after_first_pair(s: Seq<char>, a: char, b: char) -> Option<Seq<char>> {
    match find_pair(s, a, b) {
        Some(i) => Some(s.skip(i + 2)),
        None => None,
    }
}

/// Where the pair `a` `b` first stands in `s`.
pub fn find_pair_in(s: &Vec<char>, a: char, b: char) -> (res: Option<usize>)
    ensures
        match res {
            Some(i) => i + 2 <= s.len() && find_pair(s@, a, b) == Some(i as int),
            None => find_pair(s@, a, b) is None,
        },
{
    let mut i: usize = 0;
    assert(s@.skip(0) =~= s@);
    while i < s.len() && i + 1 < s.len()
        invariant
            i <= s.len(),
            find_pair(s@, a, b) == match find_pair(s@.skip(i as int), a, b) {
                Some(j) => Some(j + i),
                None => None,
            },
        decreases s.len() - i,
    {
        assert(s@.skip(i as int).drop_first() =~= s@.skip(i + 1));
        if s[i] == a && s[i + 1] == b {
            return Some(i);
        }
        i = i + 1;
    }
    None
}

} // verus!
