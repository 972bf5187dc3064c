//! The bill store: an unordered mapping from bill name to bill record.
//!
//! The store is modelled as a `Map<Seq<char>, u64>` from names to amounts.
//! Internally it is a vector of records with pairwise-distinct names;
//! insertion overwrites the record that carries the same name, so the store
//! never holds two entries under one name.

use vstd::map::*;
use vstd::prelude::*;

verus! {

/// One named bill. The amount is an opaque 64-bit word: the store keeps it
/// and hands it back but never computes with it, so a front end may place any
/// fixed 64-bit encoding of a monetary value here (for instance the bit
/// pattern of a double-precision number).
pub struct Bill {
    pub name: String,
    pub amount: u64,
}

/// The mathematical value of a [`Bill`]: its name as a sequence of
/// characters, together with its amount word.
pub struct BillView {
    pub name: Seq<char>,
    pub amount: u64,
}

impl View for Bill {
    type V = BillView;

    open spec fn view(&self) -> BillView {
        BillView { name: self.name@, amount: self.amount }
    }
}

/// The values of a sequence of bills.
pub open spec fn views_of(s: Seq<Bill>) -> Seq<BillView> {
    s.map_values(|b: Bill| b@)
}

/// No two bills in `s` carry the same name.
spec fn names_unique(s: Seq<Bill>) -> bool {
    forall|i: int, j: int|
        0 <= i < s.len() && 0 <= j < s.len() && i != j ==> s[i].name@ != s[j].name@
}

/// Some bill in `s` carries the name `n`.
spec fn has_name(s: Seq<Bill>, n: Seq<char>) -> bool {
    exists|i: int| 0 <= i < s.len() && s[i].name@ == n
}

/// An index at which `s` carries the name `n` (meaningful when `has_name`).
spec fn name_index(s: Seq<Bill>, n: Seq<char>) -> int {
    choose|i: int| 0 <= i < s.len() && s[i].name@ == n
}

/// The mapping from names to amounts that a sequence of bills represents.
spec fn map_of(s: Seq<Bill>) -> Map<Seq<char>, u64> {
    Map::new(|n: Seq<char>| has_name(s, n), |n: Seq<char>| s[name_index(s, n)].amount)
}

/// When the names in `s` are pairwise distinct, the index carrying a name is
/// the only one, so `name_index` returns exactly it.
proof fn lemma_name_index(s: Seq<Bill>, n: Seq<char>, i: int)
    requires
        names_unique(s),
        0 <= i < s.len(),
        s[i].name@ == n,
    ensures
        has_name(s, n),
        name_index(s, n) == i,
{
    assert(has_name(s, n));
    let j = name_index(s, n);
    assert(0 <= j < s.len() && s[j].name@ == n);
    if j != i {
        assert(s[i].name@ != s[j].name@);
        assert(false);
    }
}

/// Overwriting the one index that carries `b`'s name keeps the names
/// pairwise distinct and inserts `b`'s amount under its name.
proof fn lemma_view_update(s: Seq<Bill>, i: int, b: Bill)
    requires
        names_unique(s),
        0 <= i < s.len(),
        s[i].name@ == b.name@,
    ensures
        names_unique(s.update(i, b)),
        map_of(s.update(i, b)) == map_of(s).insert(b.name@, b.amount),
{
    let t = s.update(i, b);
    assert forall|p: int, q: int|
        0 <= p < t.len() && 0 <= q < t.len() && p != q implies t[p].name@ != t[q].name@ by {
        if p == i {
            assert(t[p].name@ == s[i].name@);
        } else if q == i {
            assert(t[q].name@ == s[i].name@);
        }
    }
    assert_maps_equal!(map_of(t), map_of(s).insert(b.name@, b.amount), k => {
        if k == b.name@ {
            lemma_name_index(t, k, i);
        } else {
            if has_name(s, k) {
                let j = name_index(s, k);
                assert(0 <= j < s.len() && s[j].name@ == k);
                assert(j != i);
                assert(t[j].name@ == k);
                lemma_name_index(t, k, j);
                lemma_name_index(s, k, j);
            }
            if has_name(t, k) {
                let j = name_index(t, k);
                assert(0 <= j < t.len() && t[j].name@ == k);
                assert(j != i);
                assert(s[j].name@ == k);
                lemma_name_index(s, k, j);
            }
        }
    });
}

/// Appending a bill whose name is fresh keeps the names pairwise distinct
/// and inserts its amount under its name.
proof fn lemma_view_push(s: Seq<Bill>, b: Bill)
    requires
        names_unique(s),
        !has_name(s, b.name@),
    ensures
        names_unique(s.push(b)),
        map_of(s.push(b)) == map_of(s).insert(b.name@, b.amount),
{
    let t = s.push(b);
    let n = s.len() as int;
    assert forall|p: int, q: int|
        0 <= p < t.len() && 0 <= q < t.len() && p != q implies t[p].name@ != t[q].name@ by {
        if p == n {
            assert(t[q] == s[q]);
            assert(!(s[q].name@ == b.name@));
        } else if q == n {
            assert(t[p] == s[p]);
            assert(!(s[p].name@ == b.name@));
        }
    }
    assert_maps_equal!(map_of(t), map_of(s).insert(b.name@, b.amount), k => {
        if k == b.name@ {
            assert(t[n].name@ == k);
            lemma_name_index(t, k, n);
        } else {
            if has_name(s, k) {
                let j = name_index(s, k);
                assert(0 <= j < s.len() && s[j].name@ == k);
                assert(t[j].name@ == k);
                lemma_name_index(t, k, j);
                lemma_name_index(s, k, j);
            }
            if has_name(t, k) {
                let j = name_index(t, k);
                assert(0 <= j < t.len() && t[j].name@ == k);
                assert(j != n);
                assert(s[j].name@ == k);
                lemma_name_index(s, k, j);
            }
        }
    });
}

/// Removing the index `i` by swapping the last bill into its place keeps the
/// names pairwise distinct and removes exactly the name carried at `i`.
proof fn lemma_view_swap_remove(s: Seq<Bill>, i: int)
    requires
        names_unique(s),
        0 <= i < s.len(),
    ensures
        names_unique(s.update(i, s.last()).drop_last()),
        map_of(s.update(i, s.last()).drop_last()) == map_of(s).remove(s[i].name@),
{
    let t = s.update(i, s.last()).drop_last();
    let n = s.len() as int;
    assert(t.len() == n - 1);
    assert forall|j: int| 0 <= j < n - 1 implies #[trigger] t[j] == (if j == i {
        s[n - 1]
    } else {
        s[j]
    }) by {}
    assert forall|p: int, q: int|
        0 <= p < t.len() && 0 <= q < t.len() && p != q implies t[p].name@ != t[q].name@ by {
        let p0 = if p == i { n - 1 } else { p };
        let q0 = if q == i { n - 1 } else { q };
        assert(t[p] == s[p0] && t[q] == s[q0] && p0 != q0);
    }
    assert_maps_equal!(map_of(t), map_of(s).remove(s[i].name@), k => {
        if k == s[i].name@ {
            if has_name(t, k) {
                let j = name_index(t, k);
                assert(0 <= j < t.len() && t[j].name@ == k);
                let j0 = if j == i { n - 1 } else { j };
                assert(t[j] == s[j0]);
                assert(j0 != i && s[j0].name@ == s[i].name@);
                assert(false);
            }
        } else {
            if has_name(s, k) {
                let j = name_index(s, k);
                assert(0 <= j < s.len() && s[j].name@ == k);
                assert(j != i);
                lemma_name_index(s, k, j);
                if j == n - 1 {
                    assert(i < n - 1);
                    assert(t[i] == s[n - 1]);
                    lemma_name_index(t, k, i);
                } else {
                    assert(t[j] == s[j]);
                    lemma_name_index(t, k, j);
                }
            }
            if has_name(t, k) {
                let j = name_index(t, k);
                assert(0 <= j < t.len() && t[j].name@ == k);
                let j0 = if j == i { n - 1 } else { j };
                assert(t[j] == s[j0]);
                lemma_name_index(s, k, j0);
            }
        }
    });
}

/// What a listing of the store must show: every listed bill is in the store
/// under its name with its amount, every stored name is listed once with its
/// amount, and no name is listed twice.
pub open spec fn listing_matches(m: Map<Seq<char>, u64>, l: Seq<BillView>) -> bool {
    &&& forall|i: int|
        0 <= i < l.len() ==> m.contains_key((#[trigger] l[i]).name) && m[l[i].name] == l[i].amount
    &&& forall|k: Seq<char>|
        #[trigger] m.contains_key(k) ==> exists|i: int|
            0 <= i < l.len() && (#[trigger] l[i]).name == k && l[i].amount == m[k]
    &&& forall|i: int, j: int|
        0 <= i < l.len() && 0 <= j < l.len() && i != j ==> (#[trigger] l[i]).name != (
        #[trigger] l[j]).name
}

/// A sequence of bills with pairwise-distinct names is a listing of the
/// mapping it represents.
proof fn lemma_listing(s: Seq<Bill>)
    requires
        names_unique(s),
    ensures
        listing_matches(map_of(s), views_of(s)),
{
    let m = map_of(s);
    let l = views_of(s);
    assert(l.len() == s.len());
    assert forall|i: int| 0 <= i < l.len() implies m.contains_key((#[trigger] l[i]).name)
        && m[l[i].name] == l[i].amount by {
        assert(l[i] == s[i]@);
        lemma_name_index(s, s[i].name@, i);
    }
    assert forall|k: Seq<char>| #[trigger] m.contains_key(k) implies exists|i: int|
        0 <= i < l.len() && (#[trigger] l[i]).name == k && l[i].amount == m[k] by {
        assert(has_name(s, k));
        let j = name_index(s, k);
        assert(0 <= j < s.len() && s[j].name@ == k);
        lemma_name_index(s, k, j);
        assert(l[j] == s[j]@);
        assert(0 <= j < l.len() && l[j].name == k && l[j].amount == m[k]);
    }
    assert forall|i: int, j: int|
        0 <= i < l.len() && 0 <= j < l.len() && i != j implies (#[trigger] l[i]).name != (
    #[trigger] l[j]).name by {
        assert(l[i] == s[i]@ && l[j] == s[j]@);
    }
}

/// Law: after a bill is written, any listing of the store shows a bill with
/// its name and its amount.
pub proof fn lemma_added_bill_listed(
    m: Map<Seq<char>, u64>,
    name: Seq<char>,
    amount: u64,
    l: Seq<BillView>,
)
    requires
        listing_matches(m.insert(name, amount), l),
    ensures
        exists|i: int| 0 <= i < l.len() && (#[trigger] l[i]).name == name && l[i].amount == amount,
{
    let m2 = m.insert(name, amount);
    assert(m2.contains_key(name) && m2[name] == amount);
}

/// Law: writing twice under one name is the same as writing the second
/// amount once; the first write leaves no second entry behind.
pub proof fn lemma_last_write_wins(m: Map<Seq<char>, u64>, name: Seq<char>, a1: u64, a2: u64)
    ensures
        m.insert(name, a1).insert(name, a2) == m.insert(name, a2),
{
    assert(m.insert(name, a1).insert(name, a2) =~= m.insert(name, a2));
}

/// Law: a listing never shows one name twice.
pub proof fn lemma_listing_names_distinct(m: Map<Seq<char>, u64>, l: Seq<BillView>)
    requires
        listing_matches(m, l),
    ensures
        forall|i: int, j: int|
            0 <= i < l.len() && 0 <= j < l.len() && i != j ==> (#[trigger] l[i]).name != (
            #[trigger] l[j]).name,
{
}

/// The store of bills: at most one bill per name, amounts keyed by name.
pub struct Bills {
    inner: Vec<Bill>,
}

impl View for Bills {
    type V = Map<Seq<char>, u64>;

    closed spec fn view(&self) -> Map<Seq<char>, u64> {
        map_of(self.inner@)
    }
}

impl Bills {
    /// Validity of the representation: names are pairwise distinct.
    pub closed spec fn wf(&self) -> bool {
        names_unique(self.inner@)
    }

    /// An empty store.
    pub fn new() -> (r: Bills)
        ensures
            r.wf(),
            r@ == Map::<Seq<char>, u64>::empty(),
    {
        let r = Bills { inner: Vec::new() };
        proof {
            assert(r@ =~= Map::<Seq<char>, u64>::empty());
        }
        r
    }

    /// The index of the bill named `name`, if the store holds one.
    fn find_index(&self, name: &String) -> (r: Option<usize>)
        ensures
            match r {
                Some(i) => i < self.inner@.len() && self.inner@[i as int].name@ == name@,
                None => !has_name(self.inner@, name@),
            },
    {
        let mut i: usize = 0;
        while i < self.inner.len()
            invariant
                i <= self.inner@.len(),
                forall|j: int| 0 <= j < i ==> self.inner@[j].name@ != name@,
            decreases self.inner@.len() - i,
        {
            if self.inner[i].name == *name {
                return Some(i);
            }
            i += 1;
        }
        None
    }

    /// Insert `bill`, overwriting any bill that already carries its name.
    pub fn add(&mut self, bill: Bill)
        requires
            old(self).wf(),
        ensures
            final(self).wf(),
            final(self)@ == old(self)@.insert(bill.name@, bill.amount),
    {
        let ghost gb = bill;
        let ghost s = self.inner@;
        match self.find_index(&bill.name) {
            Some(i) => {
                self.inner[i] = bill;
                proof {
                    lemma_view_update(s, i as int, gb);
                }
            },
            None => {
                self.inner.push(bill);
                proof {
                    lemma_view_push(s, gb);
                }
            },
        }
    }

    /// A snapshot of every bill, in no particular order.
    pub fn get_all(&self) -> (r: Vec<Bill>)
        requires
            self.wf(),
        ensures
            listing_matches(self@, views_of(r@)),
    {
        let mut r: Vec<Bill> = Vec::new();
        let mut j: usize = 0;
        while j < self.inner.len()
            invariant
                j <= self.inner@.len(),
                r@.len() == j as int,
                forall|t: int| 0 <= t < j ==> r@[t] == self.inner@[t],
            decreases self.inner@.len() - j,
        {
            let b = &self.inner[j];
            r.push(Bill { name: b.name.clone(), amount: b.amount });
            j += 1;
        }
        proof {
            assert(r@ =~= self.inner@);
            lemma_listing(self.inner@);
        }
        r
    }

    /// Delete the bill named `name`; report whether one existed.
    pub fn remove(&mut self, name: &str) -> (removed: bool)
        requires
            old(self).wf(),
        ensures
            final(self).wf(),
            removed == old(self)@.contains_key(name@),
            final(self)@ == (if removed {
                old(self)@.remove(name@)
            } else {
                old(self)@
            }),
            !final(self)@.contains_key(name@),
    {
        let key: String = name.to_owned();
        let ghost s = self.inner@;
        match self.find_index(&key) {
            Some(i) => {
                self.inner.swap_remove(i);
                proof {
                    lemma_name_index(s, name@, i as int);
                    lemma_view_swap_remove(s, i as int);
                }
                true
            },
            None => false,
        }
    }

    /// Replace the amount of the bill named `name`, if one exists; its name
    /// stays as it is, and no other bill changes.
    pub fn update(&mut self, name: &str, amount: u64) -> (updated: bool)
        requires
            old(self).wf(),
        ensures
            final(self).wf(),
            updated == old(self)@.contains_key(name@),
            final(self)@ == (if updated {
                old(self)@.insert(name@, amount)
            } else {
                old(self)@
            }),
            updated ==> final(self)@.dom() == old(self)@.dom(),
    {
        let key: String = name.to_owned();
        let ghost s = self.inner@;
        match self.find_index(&key) {
            Some(i) => {
                let nm = self.inner[i].name.clone();
                let b = Bill { name: nm, amount };
                let ghost gb = b;
                self.inner[i] = b;
                proof {
                    lemma_name_index(s, name@, i as int);
                    lemma_view_update(s, i as int, gb);
                    assert(final(self)@.dom() =~= old(self)@.dom());
                }
                true
            },
            None => false,
        }
    }
}

} // verus!
