//! Small verified operations on text.

use vstd::prelude::*;

verus! {

/// `s` with every space replaced by an underscore.
pub open spec fn underscored(s: Seq<char>) -> Seq<char> {
    Seq::new(s.len(), |i: int| if s[i] == ' ' { '_' } else { s[i] })
}

/// Whether `s` begins with `prefix`.
pub open spec fn has_prefix(s: Seq<char>, prefix: Seq<char>) -> bool {
    prefix.len() <= s.len() && s.subrange(0, prefix.len() as int) == prefix
}

/// The views of a sequence of strings.
pub open spec fn views(v: Seq<String>) -> Seq<Seq<char>> {
    v.map_values(|s: String| s@)
}

/// Replaces every space of `s` with an underscore.
pub fn replace_spaces(s: &str) -> (r: String)
    ensures
        r@ == underscored(s@),
{
    let n = s.unicode_len();
    let mut r = String::new();
    let mut i: usize = 0;
    while i < n
        invariant
            n == s@.len(),
            i <= n,
            r@ == underscored(s@).subrange(0, i as int),
        decreases n - i,
    {
        let c = s.get_char(i);
        if c == ' ' {
            r.append("_");
            proof {
                reveal_strlit("_");
            }
        } else {
            r.append(s.substring_char(i, i + 1));
        }
        assert(r@ =~= underscored(s@).subrange(0, i + 1));
        i = i + 1;
    }
    assert(r@ =~= underscored(s@));
    r
}

/// Whether `s` begins with `prefix`.
pub fn starts_with(s: &str, prefix: &str) -> (r: bool)
    ensures
        r == has_prefix(s@, prefix@),
{
    let n = s.unicode_len();
    let m = prefix.unicode_len();
    if m > n {
        return false;
    }
    let mut i: usize = 0;
    while i < m
        invariant
            n == s@.len(),
            m == prefix@.len(),
            m <= n,
            i <= m,
            forall|j: int| 0 <= j < i ==> s@[j] == prefix@[j],
        decreases m - i,
    {
        if s.get_char(i) != prefix.get_char(i) {
            assert(s@.subrange(0, m as int)[i as int] != prefix@[i as int]);
            return false;
        }
        i = i + 1;
    }
    assert(s@.subrange(0, m as int) =~= prefix@);
    true
}

/// Whether two strings hold the same text.
pub fn same_text(a: &str, b: &str) -> (r: bool)
    ensures
        r == (a@ == b@),
{
    a.to_owned() == b.to_owned()
}

/// The concatenation of three pieces of text.
pub fn join3(a: &str, b: &str, c: &str) -> (r: String)
    ensures
        r@ == a@ + b@ + c@,
{
    let mut r = a.to_owned();
    r.append(b);
    r.append(c);
    r
}

/// The items of `v` separated by `sep`.
pub open spec fn joined(v: Seq<Seq<char>>, sep: Seq<char>) -> Seq<char>
    decreases v.len(),
{
    if v.len() == 0 {
        Seq::empty()
    } else if v.len() == 1 {
        v[0]
    } else {
        joined(v.drop_last(), sep) + sep + v.last()
    }
}

/// Joins the strings of `v` with `sep` between each two.
pub fn join(v: &Vec<String>, sep: &str) -> (r: String)
    ensures
        r@ == joined(views(v@), sep@),
{
    let mut r = String::new();
    let mut i: usize = 0;
    while i < v.len()
        invariant
            i <= v@.len(),
            r@ == joined(views(v@.subrange(0, i as int)), sep@),
        decreases v.len() - i,
    {
        assert(views(v@.subrange(0, i + 1)).drop_last() =~= views(v@.subrange(0, i as int)));
        if i > 0 {
            r.append(sep);
        } else {
            assert(r@ =~= Seq::<char>::empty());
        }
        r.append(v[i].as_str());
        i = i + 1;
    }
    assert(v@.subrange(0, v@.len() as int) =~= v@);
    r
}

/// `a` sorts strictly before `b`: at the first position where they differ
/// `a` holds the smaller character, or `a` is a proper prefix of `b`.
pub open spec fn text_lt(a: Seq<char>, b: Seq<char>) -> bool {
    exists|k: int|
        0 <= k <= a.len() && k <= b.len() && #[trigger] a.subrange(0, k) == b.subrange(0, k) && (
        (k == a.len() && k < b.len()) || (k < a.len() && k < b.len() && a[k] < b[k]))
}

/// Each item sorts strictly before the next.
pub open spec fn strictly_sorted(v: Seq<Seq<char>>) -> bool {
    forall|i: int| 0 <= i < v.len() - 1 ==> text_lt(#[trigger] v[i], v[i + 1])
}

/// Compares two texts: negative when `a` sorts first, positive when `b`
/// does, zero when they are equal.
pub fn compare_text(a: &str, b: &str) -> (r: i8)
    ensures
        r < 0 ==> text_lt(a@, b@),
        r > 0 ==> text_lt(b@, a@),
        r == 0 ==> a@ == b@,
{
    let n = a.unicode_len();
    let m = b.unicode_len();
    let mut i: usize = 0;
    while i < n && i < m
        invariant
            n == a@.len(),
            m == b@.len(),
            i <= n,
            i <= m,
            a@.subrange(0, i as int) == b@.subrange(0, i as int),
        decreases n - i,
    {
        let x = a.get_char(i);
        let y = b.get_char(i);
        if x < y {
            assert(text_lt(a@, b@)) by {
                assert(a@.subrange(0, i as int) == b@.subrange(0, i as int));
            }
            return -1;
        }
        if y < x {
            assert(text_lt(b@, a@)) by {
                assert(b@.subrange(0, i as int) == a@.subrange(0, i as int));
            }
            return 1;
        }
        assert(a@.subrange(0, i + 1) =~= a@.subrange(0, i as int).push(x));
        assert(b@.subrange(0, i + 1) =~= b@.subrange(0, i as int).push(y));
        i = i + 1;
    }
    if n < m {
        assert(a@.subrange(0, n as int) =~= a@);
        assert(text_lt(a@, b@)) by {
            assert(a@.subrange(0, i as int) == b@.subrange(0, i as int));
        }
        -1
    } else if m < n {
        assert(b@.subrange(0, m as int) =~= b@);
        assert(text_lt(b@, a@)) by {
            assert(b@.subrange(0, i as int) == a@.subrange(0, i as int));
        }
        1
    } else {
        assert(a@ =~= a@.subrange(0, i as int));
        assert(b@ =~= b@.subrange(0, i as int));
        0
    }
}

/// Adds `item` to a strictly sorted list, unless the list holds it already.
pub fn insert_sorted(v: &mut Vec<String>, item: String)
    requires
        strictly_sorted(views(old(v)@)),
    ensures
        strictly_sorted(views(final(v)@)),
        forall|x: Seq<char>| #[trigger]
            views(final(v)@).contains(x) <==> views(old(v)@).contains(x) || x == item@,
{
    let ghost before = views(v@);
    let mut k: usize = 0;
    while k < v.len()
        invariant
            views(v@) == before,
            before == views(old(v)@),
            strictly_sorted(before),
            k <= v@.len(),
            forall|j: int| 0 <= j < k ==> text_lt(#[trigger] before[j], item@),
        decreases v.len() - k,
    {
        let c = compare_text(item.as_str(), v[k].as_str());
        if c == 0 {
            assert(before[k as int] == item@);
            assert forall|x: Seq<char>| #[trigger]
                views(v@).contains(x) <==> before.contains(x) || x == item@ by {
                if x == item@ {
                    assert(before[k as int] == x);
                }
            }
            return;
        }
        if c < 0 {
            v.insert(k, item);
            proof {
                let after = views(v@);
                assert(after =~= before.insert(k as int, item@));
                assert forall|i: int| 0 <= i < after.len() - 1 implies text_lt(
                    #[trigger] after[i],
                    after[i + 1],
                ) by {
                    if i < k as int - 1 {
                        assert(after[i] == before[i] && after[i + 1] == before[i + 1]);
                    } else if i == k as int - 1 {
                        assert(after[i] == before[i]);
                    } else if i == k as int {
                    } else {
                        assert(after[i] == before[i - 1] && after[i + 1] == before[i]);
                    }
                }
                assert forall|x: Seq<char>| #[trigger]
                    after.contains(x) <==> before.contains(x) || x == item@ by {
                    if after.contains(x) {
                        let j = choose|j: int| 0 <= j < after.len() && after[j] == x;
                        if j < k {
                            assert(before[j] == x);
                        } else if j > k {
                            assert(before[j - 1] == x);
                        }
                    }
                    if before.contains(x) {
                        let j = choose|j: int| 0 <= j < before.len() && before[j] == x;
                        if j < k {
                            assert(after[j] == x);
                        } else {
                            assert(after[j + 1] == x);
                        }
                    }
                    if x == item@ {
                        assert(after[k as int] == x);
                    }
                }
            }
            return;
        }
        k = k + 1;
    }
    v.push(item);
    proof {
        let after = views(v@);
        assert(after =~= before.push(item@));
        assert forall|i: int| 0 <= i < after.len() - 1 implies text_lt(
            #[trigger] after[i],
            after[i + 1],
        ) by {
            if i < before.len() - 1 {
                assert(after[i] == before[i] && after[i + 1] == before[i + 1]);
            } else {
                assert(after[i] == before[i]);
            }
        }
        assert forall|x: Seq<char>| #[trigger]
            after.contains(x) <==> before.contains(x) || x == item@ by {
            if after.contains(x) {
                let j = choose|j: int| 0 <= j < after.len() && after[j] == x;
                if j < before.len() {
                    assert(before[j] == x);
                }
            }
            if before.contains(x) {
                let j = choose|j: int| 0 <= j < before.len() && before[j] == x;
                assert(after[j] == x);
            }
            if x == item@ {
                assert(after[before.len() as int] == x);
            }
        }
    }
}

/// Whether `v` holds `s`.
pub fn contains_text(v: &Vec<String>, s: &str) -> (r: bool)
    ensures
        r == views(v@).contains(s@),
{
    let mut i: usize = 0;
    while i < v.len()
        invariant
            i <= v@.len(),
            forall|j: int| 0 <= j < i ==> v@[j]@ != s@,
        decreases v.len() - i,
    {
        if same_text(v[i].as_str(), s) {
            assert(views(v@)[i as int] == s@);
            return true;
        }
        i = i + 1;
    }
    proof {
        if views(v@).contains(s@) {
            let j = choose|j: int| 0 <= j < views(v@).len() && views(v@)[j] == s@;
            assert(v@[j]@ == s@);
        }
    }
    false
}

/// The distinct texts of `v`, sorted.
pub fn sorted_unique(v: &Vec<String>) -> (r: Vec<String>)
    ensures
        strictly_sorted(views(r@)),
        forall|x: Seq<char>| #[trigger] views(r@).contains(x) <==> views(v@).contains(x),
{
    let mut r: Vec<String> = Vec::new();
    let mut i: usize = 0;
    assert(views(r@) =~= Seq::<Seq<char>>::empty());
    while i < v.len()
        invariant
            i <= v@.len(),
            strictly_sorted(views(r@)),
            forall|x: Seq<char>| #[trigger]
                views(r@).contains(x) <==> views(v@).subrange(0, i as int).contains(x),
        decreases v.len() - i,
    {
        let item = v[i].clone();
        insert_sorted(&mut r, item);
        proof {
            assert(views(v@).subrange(0, i + 1) =~= views(v@).subrange(0, i as int).push(
                views(v@)[i as int],
            ));
            assert forall|x: Seq<char>| #[trigger]
                views(r@).contains(x) <==> views(v@).subrange(0, i + 1).contains(x) by {
                let p = views(v@).subrange(0, i as int);
                if p.push(views(v@)[i as int]).contains(x) {
                    let j = choose|j: int| 0 <= j < p.len() + 1 && p.push(views(v@)[i as int])[j] == x;
                    if j < p.len() {
                        assert(p[j] == x);
                    }
                }
                if p.contains(x) {
                    let j = choose|j: int| 0 <= j < p.len() && p[j] == x;
                    assert(p.push(views(v@)[i as int])[j] == x);
                }
                if x == views(v@)[i as int] {
                    assert(p.push(views(v@)[i as int])[p.len() as int] == x);
                }
            }
        }
        i = i + 1;
    }
    assert(views(v@).subrange(0, v@.len() as int) =~= views(v@));
    r
}

} // verus!
