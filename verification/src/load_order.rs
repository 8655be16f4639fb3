//! Which files of a preset directory are loaded, and in which order: the
//! files with the `38x6` extension, in ascending order of their names, so
//! that a later name wins over an earlier one.

use vstd::prelude::*;

verus! {

/// Whether `a` comes before `b` in code-point order (a proper prefix comes
/// first).
pub open spec fn name_lt(a: Seq<char>, b: Seq<char>) -> bool
    decreases a.len(),
{
    if a.len() == 0 {
        b.len() > 0
    } else if b.len() == 0 {
        false
    } else if a[0] != b[0] {
        a[0] < b[0]
    } else {
        name_lt(a.drop_first(), b.drop_first())
    }
}

/// Whether a file name carries the extension `38x6`: it ends in `.38x6`
/// with at least one character before the dot.
pub open spec fn is_preset_file_name(s: Seq<char>) -> bool {
    let n = s.len();
    &&& n >= 6
    &&& s[n - 5] == '.'
    &&& s[n - 4] == '3'
    &&& s[n - 3] == '8'
    &&& s[n - 2] == 'x'
    &&& s[n - 1] == '6'
}

/// The load order of names `i` and `j`: by name, equal names by position.
pub open spec fn load_before(names: Seq<Seq<char>>, i: int, j: int) -> bool {
    name_lt(names[i], names[j]) || (names[i] == names[j] && i < j)
}

/// `order` lists, each once, the positions of the preset file names in
/// `names`, in load order.
pub open spec fn is_load_order(names: Seq<Seq<char>>, order: Seq<usize>) -> bool {
    &&& forall|k: int| 0 <= k < order.len() ==> #[trigger] order[k] < names.len()
    &&& forall|k: int| 0 <= k < order.len() ==> is_preset_file_name(names[#[trigger] order[k] as int])
    &&& forall|i: int|
        0 <= i < names.len() && is_preset_file_name(names[i]) ==> #[trigger] order.contains(i as usize)
    &&& forall|k: int, l: int|
        0 <= k < l < order.len() ==> load_before(names, #[trigger] order[k] as int, #[trigger] order[l] as int)
}

proof fn lemma_name_irreflexive(a: Seq<char>)
    ensures
        !name_lt(a, a),
    decreases a.len(),
{
    if a.len() > 0 {
        lemma_name_irreflexive(a.drop_first());
    }
}

proof fn lemma_name_total(a: Seq<char>, b: Seq<char>)
    ensures
        name_lt(a, b) ==> !name_lt(b, a),
        a != b ==> name_lt(a, b) || name_lt(b, a),
    decreases a.len(),
{
    if a.len() > 0 && b.len() > 0 {
        lemma_name_total(a.drop_first(), b.drop_first());
        if a[0] == b[0] && a.drop_first() == b.drop_first() {
            assert(a =~= seq![a[0]] + a.drop_first());
            assert(b =~= seq![b[0]] + b.drop_first());
            assert(a =~= b);
        }
    } else if a.len() == 0 && b.len() == 0 {
        assert(a =~= b);
    }
}

proof fn lemma_name_transitive(a: Seq<char>, b: Seq<char>, c: Seq<char>)
    ensures
        name_lt(a, b) && name_lt(b, c) ==> name_lt(a, c),
    decreases a.len(),
{
    if a.len() > 0 && b.len() > 0 && c.len() > 0 {
        lemma_name_transitive(a.drop_first(), b.drop_first(), c.drop_first());
    }
}

/// `name_lt` is a strict total order.
pub proof fn lemma_name_order(a: Seq<char>, b: Seq<char>, c: Seq<char>)
    ensures
        !name_lt(a, a),
        name_lt(a, b) ==> !name_lt(b, a),
        a != b ==> name_lt(a, b) || name_lt(b, a),
        name_lt(a, b) && name_lt(b, c) ==> name_lt(a, c),
{
    lemma_name_irreflexive(a);
    lemma_name_total(a, b);
    lemma_name_transitive(a, b, c);
}

/// Load order is a strict total order on distinct positions.
proof fn lemma_load_order(names: Seq<Seq<char>>, i: int, j: int, k: int)
    ensures
        !load_before(names, i, i),
        i != j ==> (load_before(names, i, j) <==> !load_before(names, j, i)),
        load_before(names, i, j) && load_before(names, j, k) ==> load_before(names, i, k),
{
    lemma_name_order(names[i], names[j], names[k]);
    lemma_name_order(names[j], names[i], names[k]);
    lemma_name_order(names[i], names[k], names[j]);
    lemma_name_order(names[j], names[k], names[i]);
    lemma_name_order(names[k], names[i], names[j]);
    lemma_name_order(names[k], names[j], names[i]);
}

/// Whether `a` comes before `b` in code-point order.
pub fn name_less(a: &str, b: &str) -> (r: bool)
    ensures
        r == name_lt(a@, b@),
{
    let la = a.unicode_len();
    let lb = b.unicode_len();
    let mut k: usize = 0;
    assert(a@.skip(0) =~= a@);
    assert(b@.skip(0) =~= b@);
    while k < la && k < lb
        invariant
            la == a@.len(),
            lb == b@.len(),
            k <= la,
            k <= lb,
            name_lt(a@, b@) == name_lt(a@.skip(k as int), b@.skip(k as int)),
        decreases la - k,
    {
        let ca = a.get_char(k);
        let cb = b.get_char(k);
        assert(a@.skip(k as int)[0] == ca);
        assert(b@.skip(k as int)[0] == cb);
        if ca != cb {
            return ca < cb;
        }
        assert(a@.skip(k as int).drop_first() =~= a@.skip(k + 1));
        assert(b@.skip(k as int).drop_first() =~= b@.skip(k + 1));
        k = k + 1;
    }
    k == la && k < lb
}

/// Whether a file name carries the extension `38x6`.
pub fn is_preset_file(name: &str) -> (r: bool)
    ensures
        r == is_preset_file_name(name@),
{
    let n = name.unicode_len();
    if n < 6 {
        return false;
    }
    name.get_char(n - 5) == '.' && name.get_char(n - 4) == '3' && name.get_char(n - 3) == '8'
        && name.get_char(n - 2) == 'x' && name.get_char(n - 1) == '6'
}

fn load_less(names: &Vec<String>, i: usize, j: usize) -> (r: bool)
    requires
        i < names@.len(),
        j < names@.len(),
        i != j,
    ensures
        r == load_before(names@.map_values(|s: String| s@), i as int, j as int),
{
    let ghost ns = names@.map_values(|s: String| s@);
    proof {
        lemma_name_order(ns[i as int], ns[j as int], ns[i as int]);
    }
    if name_less(names[i].as_str(), names[j].as_str()) {
        true
    } else if name_less(names[j].as_str(), names[i].as_str()) {
        false
    } else {
        i < j
    }
}

/// The positions of the preset files among the file names of a directory,
/// in the order they are loaded: ascending by name.
pub fn preset_load_order(names: &Vec<String>) -> (order: Vec<usize>)
    ensures
        is_load_order(names@.map_values(|s: String| s@), order@),
{
    let ghost ns = names@.map_values(|s: String| s@);
    let mut order: Vec<usize> = Vec::new();
    let mut i: usize = 0;
    while i < names.len()
        invariant
            ns == names@.map_values(|s: String| s@),
            i <= names@.len(),
            forall|k: int| 0 <= k < order@.len() ==> #[trigger] order@[k] < i,
            forall|k: int| 0 <= k < order@.len() ==> is_preset_file_name(ns[#[trigger] order@[k] as int]),
            forall|m: int| 0 <= m < i && is_preset_file_name(ns[m]) ==> #[trigger] order@.contains(m as usize),
            forall|k: int, l: int|
                0 <= k < l < order@.len() ==> load_before(ns, #[trigger] order@[k] as int, #[trigger] order@[l] as int),
        decreases names@.len() - i,
    {
        if is_preset_file(names[i].as_str()) {
            let mut p: usize = 0;
            while p < order.len() && !load_less(names, i, order[p])
                invariant
                    ns == names@.map_values(|s: String| s@),
                    i < names@.len(),
                    p <= order@.len(),
                    forall|k: int| 0 <= k < order@.len() ==> #[trigger] order@[k] < i,
                    forall|q: int| 0 <= q < p ==> !load_before(ns, i as int, #[trigger] order@[q] as int),
                decreases order@.len() - p,
            {
                p = p + 1;
            }
            let ghost before = order@;
            proof {
                assert forall|q: int| 0 <= q < p implies load_before(ns, #[trigger] before[q] as int, i as int) by {
                    lemma_load_order(ns, i as int, before[q] as int, i as int);
                }
                assert forall|q: int| p <= q < before.len() implies load_before(ns, i as int, #[trigger] before[q] as int) by {
                    lemma_load_order(ns, i as int, before[p as int] as int, before[q] as int);
                    if q > p {
                        assert(load_before(ns, before[p as int] as int, before[q] as int));
                    }
                }
            }
            order.insert(p, i);
            assert(order@ == before.insert(p as int, i));
            assert forall|k: int, l: int| 0 <= k < l < order@.len() implies load_before(
                ns,
                #[trigger] order@[k] as int,
                #[trigger] order@[l] as int,
            ) by {
                if k < p && l < p {
                    assert(order@[k] == before[k] && order@[l] == before[l]);
                } else if k < p && l == p {
                    assert(order@[k] == before[k]);
                } else if k < p {
                    assert(order@[k] == before[k] && order@[l] == before[l - 1]);
                    lemma_load_order(ns, before[k] as int, i as int, before[l - 1] as int);
                } else if k == p {
                    assert(order@[l] == before[l - 1]);
                } else {
                    assert(order@[k] == before[k - 1] && order@[l] == before[l - 1]);
                }
            }
            assert forall|m: int| 0 <= m < i + 1 && is_preset_file_name(ns[m]) implies #[trigger] order@.contains(
                m as usize,
            ) by {
                if m < i {
                    assert(before.contains(m as usize));
                    let q = choose|q: int| 0 <= q < before.len() && before[q] == m as usize;
                    if q < p {
                        assert(order@[q] == before[q]);
                    } else {
                        assert(order@[q + 1] == before[q]);
                    }
                } else {
                    assert(order@[p as int] == i);
                }
            }
            assert forall|k: int| 0 <= k < order@.len() implies #[trigger] order@[k] < i + 1 by {
                if k < p {
                    assert(order@[k] == before[k]);
                } else if k > p {
                    assert(order@[k] == before[k - 1]);
                }
            }
            assert forall|k: int| 0 <= k < order@.len() implies is_preset_file_name(ns[#[trigger] order@[k] as int]) by {
                if k < p {
                    assert(order@[k] == before[k]);
                } else if k > p {
                    assert(order@[k] == before[k - 1]);
                }
            }
        }
        i = i + 1;
    }
    order
}

} // verus!
