//! Canonical address lists: strictly ascending in the canonical order, so
//! sorted and free of duplicate addresses, holding exactly the addresses
//! given.
use vstd::prelude::*;

use crate::ip::{
    ip_less,
    ip_lt,
    lemma_ip_lt_asymmetric,
    lemma_ip_lt_irreflexive,
    lemma_ip_lt_total,
    lemma_ip_lt_transitive,
    IpValue,
};

verus! {

/// Each text comes strictly before every later one.
pub open spec fn strictly_ascending(s: Seq<IpValue>) -> bool {
    forall|i: int, j: int| 0 <= i < j < s.len() ==> ip_lt(#[trigger] s[i], #[trigger] s[j])
}

/// `out` is the canonical form of `input`: the same addresses, each once,
/// in canonical order.
pub open spec fn is_canonical_form(input: Seq<IpValue>, out: Seq<IpValue>) -> bool {
    &&& strictly_ascending(out)
    &&& out.to_set() == input.to_set()
}

proof fn lemma_ascending_has_no_duplicates(s: Seq<IpValue>)
    requires
        strictly_ascending(s),
    ensures
        s.no_duplicates(),
{
    assert forall|i: int, j: int| 0 <= i < s.len() && 0 <= j < s.len() && i != j implies s[i]
        != s[j] by {
        if i < j {
            assert(ip_lt(s[i], s[j]));
        } else {
            assert(ip_lt(s[j], s[i]));
        }
        lemma_ip_lt_irreflexive(s[i]);
    }
}

/// At most one list is the canonical form of a given set of addresses.
pub proof fn lemma_canonical_form_unique(a: Seq<IpValue>, b: Seq<IpValue>)
    requires
        strictly_ascending(a),
        strictly_ascending(b),
        a.to_set() == b.to_set(),
    ensures
        a == b,
    decreases a.len(),
{
    if a.len() == 0 {
        if b.len() > 0 {
            assert(b.to_set().contains(b[0]));
        }
        assert(a =~= b);
    } else {
        assert(a.to_set().contains(a[0]));
        assert(b.contains(a[0]));
        let j = choose|j: int| 0 <= j < b.len() && b[j] == a[0];
        assert(b.to_set().contains(b[0]));
        assert(a.contains(b[0]));
        let i = choose|i: int| 0 <= i < a.len() && a[i] == b[0];
        if j > 0 {
            assert(ip_lt(b[0], b[j]));
            if i > 0 {
                assert(ip_lt(a[0], a[i]));
                lemma_ip_lt_asymmetric(b[0], a[0]);
            } else {
                lemma_ip_lt_irreflexive(a[0]);
            }
        }
        assert(a[0] == b[0]);
        let ta = a.drop_first();
        let tb = b.drop_first();
        lemma_ascending_has_no_duplicates(a);
        lemma_ascending_has_no_duplicates(b);
        assert(ta.to_set() =~= tb.to_set()) by {
            assert forall|x: IpValue| ta.contains(x) implies tb.contains(x) by {
                let k = choose|k: int| 0 <= k < ta.len() && ta[k] == x;
                assert(a[k + 1] == x);
                assert(a.to_set().contains(x));
                let m = choose|m: int| 0 <= m < b.len() && b[m] == x;
                assert(m != 0);
                assert(tb[m - 1] == x);
            }
            assert forall|x: IpValue| tb.contains(x) implies ta.contains(x) by {
                let k = choose|k: int| 0 <= k < tb.len() && tb[k] == x;
                assert(b[k + 1] == x);
                assert(b.to_set().contains(x));
                let m = choose|m: int| 0 <= m < a.len() && a[m] == x;
                assert(m != 0);
                assert(ta[m - 1] == x);
            }
        }
        lemma_canonical_form_unique(ta, tb);
        assert(a =~= seq![a[0]] + ta);
        assert(b =~= seq![b[0]] + tb);
    }
}

/// Canonicalising is idempotent: the canonical form of a canonical list is
/// that list itself.
pub proof fn lemma_canonical_form_idempotent(
    input: Seq<IpValue>,
    once: Seq<IpValue>,
    twice: Seq<IpValue>,
)
    requires
        is_canonical_form(input, once),
        is_canonical_form(once, twice),
    ensures
        twice == once,
        is_canonical_form(input, twice),
{
    lemma_canonical_form_unique(twice, once);
}

/// A canonical list holds as many addresses as there are distinct ones in
/// its input.
pub proof fn lemma_canonical_form_counts_distinct(input: Seq<IpValue>, out: Seq<IpValue>)
    requires
        is_canonical_form(input, out),
    ensures
        out.len() == input.to_set().len(),
{
    lemma_ascending_has_no_duplicates(out);
    out.unique_seq_to_set();
}

/// Sorts `ips` into canonical order and removes repeated addresses.
pub fn canonical_addresses(ips: &Vec<IpValue>) -> (r: Vec<IpValue>)
    ensures
        is_canonical_form(ips@, r@),
        r@.len() == ips@.to_set().len(),
{
    let n = ips.len();
    let mut out: Vec<IpValue> = Vec::new();
    let mut k: usize = 0;
    while k < n
        invariant
            n == ips@.len(),
            k <= n,
            strictly_ascending(out@),
            forall|x: IpValue|
                out@.contains(x) <==> ips@.take(k as int).contains(x),
        decreases n - k,
    {
        let ghost before = out@;
        let ghost x = ips@[k as int];
        let item = &ips[k];
        assert(*item == x);
        let mut p: usize = 0;
        while p < out.len() && ip_less(&out[p], item)
            invariant
                out@ == before,
                p <= out@.len(),
                *item == x,
                forall|q: int| 0 <= q < p ==> ip_lt(#[trigger] before[q], x),
            decreases out@.len() - p,
        {
            p = p + 1;
        }
        if p < out.len() && out[p] == *item {
            assert(before[p as int] == x);
        } else {
            out.insert(p, *item);
            let ghost after = out@;
            assert(after =~= before.insert(p as int, x));
            assert forall|i: int, j: int| 0 <= i < j < after.len() implies ip_lt(
                #[trigger] after[i],
                #[trigger] after[j],
            ) by {
                if p < before.len() {
                    assert(!ip_lt(before[p as int], x));
                    if before[p as int] != x {
                        lemma_ip_lt_total(before[p as int], x);
                    }
                    assert(ip_lt(x, before[p as int]));
                }
                if j == p {
                    assert(ip_lt(before[i], x));
                } else if i == p {
                    if j > p + 1 {
                        assert(ip_lt(before[p as int], before[j - 1]));
                        lemma_ip_lt_transitive(x, before[p as int], before[j - 1]);
                    }
                } else if i < p && j > p {
                    assert(ip_lt(before[i], x));
                    assert(ip_lt(before[i], before[j - 1]));
                } else if i > p {
                    assert(ip_lt(before[i - 1], before[j - 1]));
                } else {
                    assert(ip_lt(before[i], before[j]));
                }
            }
            assert forall|y: IpValue| after.contains(y) <==> (before.contains(y) || y == x) by {
                if after.contains(y) {
                    let m = choose|m: int| 0 <= m < after.len() && after[m] == y;
                    if m < p {
                        assert(before[m] == y);
                    } else if m > p {
                        assert(before[m - 1] == y);
                    }
                }
                if before.contains(y) {
                    let m = choose|m: int| 0 <= m < before.len() && before[m] == y;
                    if m < p {
                        assert(after[m] == y);
                    } else {
                        assert(after[m + 1] == y);
                    }
                }
                if y == x {
                    assert(after[p as int] == y);
                }
            }
        }
        assert forall|y: IpValue|
            ips@.take(k + 1).contains(y) <==> (ips@.take(
                k as int,
            ).contains(y) || y == x) by {
            let t1 = ips@.take(k + 1);
            let t0 = ips@.take(k as int);
            assert(t1 =~= t0.push(x));
            if t1.contains(y) {
                let m = choose|m: int| 0 <= m < t1.len() && t1[m] == y;
                if m < k {
                    assert(t0[m] == y);
                }
            }
            if t0.contains(y) {
                let m = choose|m: int| 0 <= m < t0.len() && t0[m] == y;
                assert(t1[m] == y);
            }
            if y == x {
                assert(t1[k as int] == y);
            }
        }
        k = k + 1;
    }
    assert(ips@.take(n as int) =~= ips@);
    assert(out@.to_set() =~= ips@.to_set());
    proof {
        lemma_canonical_form_counts_distinct(ips@, out@);
    }
    out
}

} // verus!
