//! Sharing mode of a resource across queue families.

use smallvec::SmallVec;
use vstd::prelude::*;

verus! {

/// Queue family indices, held in a `smallvec::SmallVec` with room for four
/// of them inline. The verifier sees nothing inside; `family_items` names what
/// the vector holds.
#[verifier::external_body]
#[derive(Debug)]
pub struct QueueFamilies {
    inner: SmallVec<[u32; 4]>,
}

/// The indices that a queue family vector holds, first to last.
pub uninterp spec fn family_items(v: QueueFamilies) -> Seq<u32>;

/// `SmallVec::new`: an empty vector.
#[verifier::external_body]
fn families_new() -> (v: QueueFamilies)
    ensures
        family_items(v) == Seq::<u32>::empty(),
{
    QueueFamilies { inner: SmallVec::new() }
}

/// `SmallVec::push`: appends `x`, so the vector afterwards holds what it
/// held before, then `x`.
#[verifier::external_body]
fn families_push(v: &mut QueueFamilies, x: u32)
    ensures
        family_items(*final(v)) == family_items(*old(v)).push(x),
{
    v.inner.push(x)
}

/// `SmallVec::len`: the number of indices held.
#[verifier::external_body]
fn families_len(v: &QueueFamilies) -> (n: usize)
    ensures
        n == family_items(*v).len(),
{
    v.inner.len()
}

/// `Index::index` of `SmallVec`, which indexes its slice: the item at
/// position `i`. It panics out of bounds, so `i` must be below the length.
#[verifier::external_body]
fn families_get(v: &QueueFamilies, i: usize) -> (x: u32)
    requires
        i < family_items(*v).len(),
    ensures
        x == family_items(*v)[i as int],
{
    v.inner[i]
}

/// The indices of `s` with every repetition after the first removed,
/// in the order of their first occurrence.
pub open spec fn distinct(s: Seq<u32>) -> Seq<u32>
    decreases s.len(),
{
    if s.len() == 0 {
        Seq::empty()
    } else {
        let head = distinct(s.drop_last());
        if head.contains(s.last()) {
            head
        } else {
            head.push(s.last())
        }
    }
}

/// Mathematical model of a sharing mode.
pub enum SharingModel {
    Exclusive,
    Concurrent(Seq<u32>),
}

/// The sharing mode that a list of queue family indices asks for: concurrent
/// among the distinct families when there are two or more, exclusive otherwise.
pub open spec fn sharing_for(s: Seq<u32>) -> SharingModel {
    let d = distinct(s);
    if d.len() >= 2 {
        SharingModel::Concurrent(d)
    } else {
        SharingModel::Exclusive
    }
}

/// Whether a resource belongs to one queue family at a time or is shared by several.
#[derive(Debug)]
pub enum Sharing {
    Exclusive,
    Concurrent(QueueFamilies),
}

impl View for Sharing {
    type V = SharingModel;

    open spec fn view(&self) -> SharingModel {
        match self {
            Sharing::Exclusive => SharingModel::Exclusive,
            Sharing::Concurrent(v) => SharingModel::Concurrent(family_items(*v)),
        }
    }
}

fn families_contain(v: &QueueFamilies, x: u32) -> (found: bool)
    ensures
        found == family_items(*v).contains(x),
{
    let n: usize = families_len(v);
    let mut i: usize = 0;
    while i < n
        invariant
            i <= n,
            n == family_items(*v).len(),
            forall|k: int| 0 <= k < i ==> family_items(*v)[k] != x,
        decreases n - i,
    {
        if families_get(v, i) == x {
            return true;
        }
        i += 1;
    }
    false
}

/// Collects the distinct queue family indices of `indices`.
pub fn distinct_queue_families(indices: &Vec<u32>) -> (out: QueueFamilies)
    ensures
        family_items(out) == distinct(indices@),
{
    let mut out = families_new();
    let mut i: usize = 0;
    while i < indices.len()
        invariant
            i <= indices.len(),
            family_items(out) == distinct(indices@.take(i as int)),
        decreases indices.len() - i,
    {
        let x: u32 = indices[i];
        proof {
            assert(indices@.take(i + 1).drop_last() == indices@.take(i as int));
        }
        if !families_contain(&out, x) {
            families_push(&mut out, x);
        }
        i += 1;
    }
    proof {
        assert(indices@.take(i as int) == indices@);
    }
    out
}

impl Sharing {
    /// Chooses the sharing mode for the queue families that will use a resource.
    pub fn from_queue_families(indices: &Vec<u32>) -> (r: Sharing)
        ensures
            r@ == sharing_for(indices@),
    {
        let families = distinct_queue_families(indices);
        if families_len(&families) >= 2 {
            Sharing::Concurrent(families)
        } else {
            Sharing::Exclusive
        }
    }

    /// Whether several queue families share the resource.
    pub fn is_concurrent(&self) -> (b: bool)
        ensures
            b == (self@ is Concurrent),
    {
        match self {
            Sharing::Exclusive => false,
            Sharing::Concurrent(_) => true,
        }
    }

    /// The queue families that share the resource; none when it is exclusive.
    pub fn queue_family_indices(&self) -> (r: Vec<u32>)
        ensures
            r@ == match self@ {
                SharingModel::Exclusive => Seq::<u32>::empty(),
                SharingModel::Concurrent(s) => s,
            },
    {
        let mut r: Vec<u32> = Vec::new();
        match self {
            Sharing::Exclusive => {},
            Sharing::Concurrent(v) => {
                let n: usize = families_len(v);
                let mut i: usize = 0;
                while i < n
                    invariant
                        i <= n,
                        n == family_items(*v).len(),
                        r@ == family_items(*v).take(i as int),
                    decreases n - i,
                {
                    r.push(families_get(v, i));
                    proof {
                        assert(family_items(*v).take(i + 1) == family_items(*v).take(i as int).push(
                            family_items(*v)[i as int],
                        ));
                    }
                    i += 1;
                }
                proof {
                    assert(family_items(*v).take(n as int) == family_items(*v));
                }
            },
        }
        r
    }
}

/// The distinct indices repeat nothing, are exactly the indices that occur in
/// `s`, and are no more than `s` holds.
pub proof fn lemma_distinct(s: Seq<u32>)
    ensures
        distinct(s).no_duplicates(),
        forall|x: u32| distinct(s).contains(x) <==> s.contains(x),
        distinct(s).len() <= s.len(),
    decreases s.len(),
{
    if s.len() > 0 {
        let head = s.drop_last();
        lemma_distinct(head);
        let d = distinct(head);
        assert forall|x: u32| distinct(s).contains(x) <==> s.contains(x) by {
            if s.contains(x) {
                let k = choose|k: int| 0 <= k < s.len() && s[k] == x;
                if k < s.len() - 1 {
                    assert(head[k] == x);
                    assert(head.contains(x));
                    assert(d.contains(x));
                    let m = choose|m: int| 0 <= m < d.len() && d[m] == x;
                    assert(distinct(s)[m] == x);
                } else {
                    if !d.contains(x) {
                        assert(distinct(s)[d.len() as int] == x);
                    } else {
                        let m = choose|m: int| 0 <= m < d.len() && d[m] == x;
                        assert(distinct(s)[m] == x);
                    }
                }
            }
            if distinct(s).contains(x) {
                let m = choose|m: int| 0 <= m < distinct(s).len() && distinct(s)[m] == x;
                if m < d.len() {
                    assert(d[m] == x);
                    assert(d.contains(x));
                    assert(head.contains(x));
                    let k = choose|k: int| 0 <= k < head.len() && head[k] == x;
                    assert(s[k] == x);
                } else {
                    assert(x == s.last());
                    assert(s[s.len() - 1] == x);
                }
            }
        }
    }
}

/// Two or more distinct queue families make a resource concurrent; a list
/// that names fewer, and so every list of at most one index, leaves it exclusive.
pub proof fn lemma_sharing_mode(s: Seq<u32>)
    ensures
        (exists|i: int, j: int| 0 <= i < s.len() && 0 <= j < s.len() && s[i] != s[j]) <==> (
        sharing_for(s) is Concurrent),
        s.len() <= 1 ==> sharing_for(s) is Exclusive,
        sharing_for(s) matches SharingModel::Concurrent(d) ==> d == distinct(s),
{
    lemma_distinct(s);
    let d = distinct(s);
    if exists|i: int, j: int| 0 <= i < s.len() && 0 <= j < s.len() && s[i] != s[j] {
        let (i, j) = choose|i: int, j: int| 0 <= i < s.len() && 0 <= j < s.len() && s[i] != s[j];
        assert(s.contains(s[i]));
        assert(s.contains(s[j]));
        assert(d.contains(s[i]));
        assert(d.contains(s[j]));
        let a = choose|a: int| 0 <= a < d.len() && d[a] == s[i];
        let b = choose|b: int| 0 <= b < d.len() && d[b] == s[j];
        assert(a != b);
    }
    if d.len() >= 2 {
        assert(d[0] != d[1]);
        assert(d.contains(d[0]));
        assert(d.contains(d[1]));
        assert(s.contains(d[0]));
        assert(s.contains(d[1]));
        let i = choose|i: int| 0 <= i < s.len() && s[i] == d[0];
        let j = choose|j: int| 0 <= j < s.len() && s[j] == d[1];
        assert(s[i] != s[j]);
    }
}

} // verus!
