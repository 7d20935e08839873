use vstd::prelude::*;
use vstd::string::StrSliceExecFns;

verus! {

/// Lexicographic order on texts, by code point.
pub open spec fn text_lt(a: Seq<char>, b: Seq<char>) -> bool
    decreases a.len(),
{
    if a.len() == 0 {
        b.len() > 0
    } else if b.len() == 0 {
        false
    } else if a[0] != b[0] {
        a[0] < b[0]
    } else {
        text_lt(a.skip(1), b.skip(1))
    }
}

pub proof fn lemma_text_lt_irreflexive(a: Seq<char>)
    ensures
        !text_lt(a, a),
    decreases a.len(),
{
    if a.len() > 0 {
        lemma_text_lt_irreflexive(a.skip(1));
    }
}

pub proof fn lemma_text_lt_transitive(a: Seq<char>, b: Seq<char>, c: Seq<char>)
    requires
        text_lt(a, b),
        text_lt(b, c),
    ensures
        text_lt(a, c),
    decreases a.len(),
{
    if a.len() > 0 && b.len() > 0 && c.len() > 0 {
        if a[0] == b[0] && b[0] == c[0] {
            lemma_text_lt_transitive(a.skip(1), b.skip(1), c.skip(1));
        }
    }
}

pub proof fn lemma_text_lt_total(a: Seq<char>, b: Seq<char>)
    requires
        a != b,
    ensures
        text_lt(a, b) || text_lt(b, a),
    decreases a.len(),
{
    if a.len() > 0 && b.len() > 0 && a[0] == b[0] {
        if a.skip(1) == b.skip(1) {
            assert(a.skip(1).len() == a.len() - 1 && b.skip(1).len() == b.len() - 1);
            assert(a =~= b) by {
                assert forall|i: int| 0 <= i < a.len() implies a[i] == b[i] by {
                    if i > 0 {
                        assert(a[i] == a.skip(1)[i - 1]);
                        assert(b[i] == b.skip(1)[i - 1]);
                    }
                }
            }
        }
        lemma_text_lt_total(a.skip(1), b.skip(1));
    } else if a.len() == 0 && b.len() == 0 {
        assert(a =~= b);
    }
}

/// Texts of the strings.
pub open spec fn texts(v: Seq<String>) -> Seq<Seq<char>> {
    v.map_values(|s: String| s@)
}

/// Strictly increasing, so without repeats.
pub open spec fn strictly_sorted(v: Seq<Seq<char>>) -> bool {
    forall|i: int, j: int| 0 <= i < j < v.len() ==> text_lt(#[trigger] v[i], #[trigger] v[j])
}

/// `key` is the normal form of `addresses`: the same texts, sorted, each once.
pub open spec fn is_normal_form(key: Seq<Seq<char>>, addresses: Seq<Seq<char>>) -> bool {
    strictly_sorted(key) && key.to_set() == addresses.to_set()
}

/// Two address lists that hold the same texts, in any order and with any
/// repeats, have one normal form.
pub proof fn lemma_normal_form_unique(
    k1: Seq<Seq<char>>,
    k2: Seq<Seq<char>>,
    a1: Seq<Seq<char>>,
    a2: Seq<Seq<char>>,
)
    requires
        is_normal_form(k1, a1),
        is_normal_form(k2, a2),
        a1.to_set() == a2.to_set(),
    ensures
        k1 == k2,
    decreases k1.len(),
{
    lemma_sorted_same_set_equal(k1, k2);
}

proof fn lemma_sorted_same_set_equal(k1: Seq<Seq<char>>, k2: Seq<Seq<char>>)
    requires
        strictly_sorted(k1),
        strictly_sorted(k2),
        k1.to_set() == k2.to_set(),
    ensures
        k1 == k2,
    decreases k1.len(),
{
    if k1.len() == 0 {
        if k2.len() > 0 {
            assert(k2.to_set().contains(k2[0]));
        }
    } else if k2.len() == 0 {
        assert(k1.to_set().contains(k1[0]));
    } else {
        let x = k1[0];
        let y = k2[0];
        assert(k1.to_set().contains(x));
        assert(k2.to_set().contains(y));
        let iy = choose|i: int| 0 <= i < k1.len() && k1[i] == y;
        let ix = choose|i: int| 0 <= i < k2.len() && k2[i] == x;
        if x != y {
            assert(iy > 0);
            assert(ix > 0);
            assert(text_lt(x, y));
            assert(text_lt(y, x));
            lemma_text_lt_transitive(x, y, x);
            lemma_text_lt_irreflexive(x);
        }
        let r1 = k1.skip(1);
        let r2 = k2.skip(1);
        assert forall|i: int, j: int| 0 <= i < j < r1.len() implies text_lt(
            #[trigger] r1[i],
            #[trigger] r1[j],
        ) by {
            assert(r1[i] == k1[i + 1]);
            assert(r1[j] == k1[j + 1]);
        }
        assert forall|i: int, j: int| 0 <= i < j < r2.len() implies text_lt(
            #[trigger] r2[i],
            #[trigger] r2[j],
        ) by {
            assert(r2[i] == k2[i + 1]);
            assert(r2[j] == k2[j + 1]);
        }
        assert forall|z: Seq<char>| r1.to_set().contains(z) implies r2.to_set().contains(z) by {
            let i = choose|i: int| 0 <= i < r1.len() && r1[i] == z;
            assert(k1[i + 1] == z);
            assert(k1.to_set().contains(z));
            let j = choose|j: int| 0 <= j < k2.len() && k2[j] == z;
            assert(text_lt(x, z));
            if j == 0 {
                lemma_text_lt_irreflexive(x);
            }
            assert(r2[j - 1] == z);
        }
        assert forall|z: Seq<char>| r2.to_set().contains(z) implies r1.to_set().contains(z) by {
            let i = choose|i: int| 0 <= i < r2.len() && r2[i] == z;
            assert(k2[i + 1] == z);
            assert(k2.to_set().contains(z));
            let j = choose|j: int| 0 <= j < k1.len() && k1[j] == z;
            assert(text_lt(y, z));
            if j == 0 {
                lemma_text_lt_irreflexive(y);
            }
            assert(r1[j - 1] == z);
        }
        assert(r1.to_set() =~= r2.to_set());
        lemma_sorted_same_set_equal(r1, r2);
        assert(k1 =~= k2) by {
            assert forall|i: int| 0 <= i < k1.len() implies k1[i] == k2[i] by {
                if i > 0 {
                    assert(k1[i] == r1[i - 1]);
                    assert(k2[i] == r2[i - 1]);
                }
            }
        }
    }
}

/// Whether `a` comes before `b`.
pub fn text_less(a: &str, b: &str) -> (r: bool)
    ensures
        r == text_lt(a@, b@),
{
    let la = a.unicode_len();
    let lb = b.unicode_len();
    let mut i: usize = 0;
    assert(a@.skip(0) == a@);
    assert(b@.skip(0) == b@);
    while i < la && i < lb
        invariant
            la == a@.len(),
            lb == b@.len(),
            i <= la,
            i <= lb,
            text_lt(a@, b@) == text_lt(a@.skip(i as int), b@.skip(i as int)),
        decreases la - i,
    {
        let ca = a.get_char(i);
        let cb = b.get_char(i);
        assert(a@.skip(i as int)[0] == ca);
        assert(b@.skip(i as int)[0] == cb);
        if ca != cb {
            return ca < cb;
        }
        assert(a@.skip(i as int).skip(1) == a@.skip(i + 1));
        assert(b@.skip(i as int).skip(1) == b@.skip(i + 1));
        i = i + 1;
    }
    i == la && i < lb
}

/// Whether two lists hold the same texts in the same order.
pub fn same_texts(a: &Vec<String>, b: &Vec<String>) -> (r: bool)
    ensures
        r == (texts(a@) == texts(b@)),
{
    if a.len() != b.len() {
        assert(texts(a@).len() != texts(b@).len());
        return false;
    }
    let mut i: usize = 0;
    while i < a.len()
        invariant
            a@.len() == b@.len(),
            i <= a@.len(),
            forall|j: int| 0 <= j < i ==> (#[trigger] a@[j])@ == b@[j]@,
        decreases a@.len() - i,
    {
        if a[i] != b[i] {
            assert(texts(a@)[i as int] != texts(b@)[i as int]);
            return false;
        }
        i = i + 1;
    }
    assert(texts(a@) =~= texts(b@));
    true
}

/// The addresses sorted, each once: the form under which queries are cached
/// and sent.
pub fn normalized_addresses(addresses: &[String]) -> (r: Vec<String>)
    ensures
        is_normal_form(texts(r@), texts(addresses@)),
{
    let mut out: Vec<String> = Vec::new();
    let mut i: usize = 0;
    while i < addresses.len()
        invariant
            i <= addresses@.len(),
            strictly_sorted(texts(out@)),
            texts(out@).to_set() == texts(addresses@.take(i as int)).to_set(),
        decreases addresses@.len() - i,
    {
        let x = &addresses[i];
        let ghost before = texts(out@);
        // first place whose text is not below x
        let mut j: usize = 0;
        while j < out.len() && text_less(out[j].as_str(), x.as_str())
            invariant
                j <= out@.len(),
                texts(out@) == before,
                forall|k: int| 0 <= k < j ==> text_lt(#[trigger] texts(out@)[k], x@),
            decreases out@.len() - j,
        {
            assert(texts(out@)[j as int] == out@[j as int]@);
            j = j + 1;
        }
        assert(texts(addresses@.take(i + 1)) == texts(addresses@.take(i as int)).push(x@));
        if j < out.len() && out[j] == *x {
            proof {
                let t = texts(addresses@.take(i as int));
                t.lemma_push_to_set_commute(x@);
                assert(before.to_set().contains(before[j as int]));
                assert(before[j as int] == x@);
                assert(texts(out@).to_set() =~= texts(addresses@.take(i + 1)).to_set());
            }
        } else {
            out.insert(j, x.clone());
            let ghost after = texts(out@);
            assert(after =~= before.insert(j as int, x@));
            proof {
                if j < before.len() {
                    assert(!text_lt(before[j as int], x@));
                    assert(before[j as int] != x@);
                    lemma_text_lt_total(before[j as int], x@);
                }
            }
            assert forall|p: int, q: int| 0 <= p < q < after.len() implies text_lt(
                #[trigger] after[p],
                #[trigger] after[q],
            ) by {
                if q < j {
                    assert(after[p] == before[p] && after[q] == before[q]);
                } else if q == j {
                    assert(after[p] == before[p]);
                } else if p == j {
                    assert(after[q] == before[q - 1]);
                    if q - 1 > j {
                        assert(text_lt(before[j as int], before[q - 1]));
                        lemma_text_lt_transitive(x@, before[j as int], before[q - 1]);
                    }
                } else if p < j {
                    assert(after[p] == before[p] && after[q] == before[q - 1]);
                } else {
                    assert(after[p] == before[p - 1] && after[q] == before[q - 1]);
                }
            }
            assert(after.to_set() =~= texts(addresses@.take(i + 1)).to_set()) by {
                assert forall|z: Seq<char>| after.to_set().contains(z) implies texts(
                    addresses@.take(i + 1),
                ).to_set().contains(z) by {
                    let k = choose|k: int| 0 <= k < after.len() && after[k] == z;
                    if k < j {
                        assert(before[k] == z);
                        assert(before.to_set().contains(z));
                    } else if k > j {
                        assert(before[k - 1] == z);
                        assert(before.to_set().contains(z));
                    }
                    let t = texts(addresses@.take(i as int));
                    if z != x@ {
                        let m = choose|m: int| 0 <= m < t.len() && t[m] == z;
                        assert(t.push(x@)[m] == z);
                    } else {
                        assert(t.push(x@)[t.len() as int] == z);
                    }
                }
                assert forall|z: Seq<char>| texts(addresses@.take(i + 1)).to_set().contains(
                    z,
                ) implies after.to_set().contains(z) by {
                    let t = texts(addresses@.take(i as int));
                    let m = choose|m: int| 0 <= m < t.push(x@).len() && t.push(x@)[m] == z;
                    if m < t.len() {
                        assert(t[m] == z);
                        assert(t.to_set().contains(z));
                        assert(before.to_set().contains(z));
                        let k = choose|k: int| 0 <= k < before.len() && before[k] == z;
                        if k < j {
                            assert(after[k] == z);
                        } else {
                            assert(after[k + 1] == z);
                        }
                    } else {
                        assert(after[j as int] == z);
                    }
                }
            }
        }
        i = i + 1;
    }
    assert(addresses@.take(addresses@.len() as int) == addresses@);
    out
}

} // verus!
