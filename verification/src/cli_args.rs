//! The selectable sort key shared by all list views, and the sorting policy
//! built on it: a stable sort whose order is a total, transitive relation
//! supplied by each sortable record type.

use vstd::prelude::*;
use vstd::seq_lib::to_multiset_insert;
use vstd::seq_lib::to_multiset_remove;

verus! {

/// The name a user gave to a service or characteristic id, if any: the first
/// entry for the id decides.
pub open spec fn spec_name_lookup(entries: Seq<(u128, String)>, id: u128) -> Option<Seq<char>>
    decreases entries.len(),
{
    if entries.len() == 0 {
        None
    } else if entries[0].0 == id {
        Some(entries[0].1@)
    } else {
        spec_name_lookup(entries.skip(1), id)
    }
}

/// User-supplied display names for service and characteristic ids.
pub struct NameMap {
    entries: Vec<(u128, String)>,
}

impl View for NameMap {
    type V = Seq<(u128, String)>;

    closed spec fn view(&self) -> Seq<(u128, String)> {
        self.entries@
    }
}

impl NameMap {
    /// An empty map.
    pub fn new() -> (r: Self)
        ensures
            r@ == Seq::<(u128, String)>::empty(),
    {
        NameMap { entries: Vec::new() }
    }

    /// Adds an entry; an earlier entry for the same id keeps precedence.
    pub fn push(&mut self, id: u128, name: String)
        ensures
            final(self)@ == old(self)@.push((id, name)),
    {
        self.entries.push((id, name));
    }

    /// Looks up the name for an id; the first entry wins.
    pub fn get(&self, id: u128) -> (r: Option<&String>)
        ensures
            match r {
                Some(name) => spec_name_lookup(self@, id) == Some(name@),
                None => spec_name_lookup(self@, id) is None,
            },
    {
        let n = self.entries.len();
        let mut i: usize = 0;
        proof {
            assert(self@.skip(0) =~= self@);
        }
        while i < n
            invariant
                0 <= i <= n,
                n == self@.len(),
                spec_name_lookup(self@, id) == spec_name_lookup(self@.skip(i as int), id),
            decreases n - i,
        {
            proof {
                assert(self@.skip(i as int)[0] == self@[i as int]);
                assert(self@.skip(i as int).skip(1) =~= self@.skip(i + 1 as int));
            }
            if self.entries[i].0 == id {
                return Some(&self.entries[i].1);
            }
            i += 1;
        }
        proof {
            assert(self@.skip(n as int).len() == 0);
        }
        None
    }
}

/// The process-visible configuration, as plain values: all pure inputs to the
/// components of the library.
pub struct Args {
    /// Which discovery adapter to use, when several are available.
    pub adapter_index: usize,
    /// Discovery refresh and value-poll interval, in milliseconds.
    pub scan_interval: u64,
    /// Flags prefixed to every filter expression.
    pub regex_flags: String,
    /// Peripheral name filter applied on start.
    pub device: Option<String>,
    /// Characteristic filter applied on start.
    pub characteristic: Option<String>,
    /// User-supplied display names for service and characteristic ids.
    pub names_map_file: Option<NameMap>,
    /// Sort key for all the views and lists.
    pub sort: Option<GeneralSort>,
}

/// Sort key for all the views and lists.
#[derive(PartialEq, Eq, Structural, Debug, Clone, Copy)]
pub enum GeneralSort {
    /// Case-insensitive name order, items without a resolved name last.
    Name,
    /// The default order of the record type (signal strength, identity).
    DefaultSort,
}

impl Default for GeneralSort {
    fn default() -> (r: Self)
        ensures
            r == GeneralSort::DefaultSort,
    {
        GeneralSort::DefaultSort
    }
}

/// A record type that can be ordered under each `GeneralSort` key.
///
/// `spec_le` is the order the contracts speak of; it must be total and
/// transitive, which the two lemmas oblige every implementer to prove.
pub trait GeneralSortable: Sized {
    /// The order under the given key, as contracts see it.
    spec fn spec_le(sort: GeneralSort, a: &Self, b: &Self) -> bool;

    /// The order is total.
    proof fn lemma_le_total(sort: GeneralSort, a: &Self, b: &Self)
        ensures
            Self::spec_le(sort, a, b) || Self::spec_le(sort, b, a),
    ;

    /// The order is transitive.
    proof fn lemma_le_trans(sort: GeneralSort, a: &Self, b: &Self, c: &Self)
        requires
            Self::spec_le(sort, a, b),
            Self::spec_le(sort, b, c),
        ensures
            Self::spec_le(sort, a, c),
    ;

    /// Decides the order under the given key.
    fn le(sort: &GeneralSort, a: &Self, b: &Self) -> (r: bool)
        ensures
            r == Self::spec_le(*sort, a, b),
    ;
}

/// Whether `s` is ordered under the given key.
pub open spec fn sorted_by_sort<T: GeneralSortable>(sort: GeneralSort, s: Seq<T>) -> bool {
    forall|i: int, j: int| 0 <= i < j < s.len() ==> T::spec_le(sort, &s[i], &s[j])
}

impl GeneralSort {
    /// Compares two records under this key.
    pub fn apply_sort<T: GeneralSortable>(&self, a: &T, b: &T) -> (r: core::cmp::Ordering)
        ensures
            r == core::cmp::Ordering::Less ==> T::spec_le(*self, a, b),
            r == core::cmp::Ordering::Greater ==> T::spec_le(*self, b, a),
            r == core::cmp::Ordering::Equal ==> T::spec_le(*self, a, b) && T::spec_le(
                *self,
                b,
                a,
            ),
            T::spec_le(*self, a, b) ==> r != core::cmp::Ordering::Greater,
            !T::spec_le(*self, a, b) ==> r == core::cmp::Ordering::Greater,
            T::spec_le(*self, a, b) && T::spec_le(*self, b, a) ==> r
                == core::cmp::Ordering::Equal,
    {
        proof {
            T::lemma_le_total(*self, a, b);
        }
        if T::le(self, a, b) {
            if T::le(self, b, a) {
                core::cmp::Ordering::Equal
            } else {
                core::cmp::Ordering::Less
            }
        } else {
            core::cmp::Ordering::Greater
        }
    }

    /// Sorts `v` under this key: the result is ordered, holds exactly the
    /// records that went in, and an already-ordered input comes back
    /// unchanged (so sorting twice gives the same order as sorting once).
    pub fn sort<T: GeneralSortable>(&self, v: &mut Vec<T>)
        ensures
            sorted_by_sort(*self, final(v)@),
            final(v)@.to_multiset() == old(v)@.to_multiset(),
            sorted_by_sort(*self, old(v)@) ==> final(v)@ == old(v)@,
    {
        let sort = *self;
        let ghost orig = v@;
        let n = v.len();
        if n <= 1 {
            return;
        }
        let mut i: usize = 1;
        while i < n
            invariant
                1 <= i <= n,
                n == v@.len(),
                sorted_by_sort(sort, v@.subrange(0, i as int)),
                v@.to_multiset() == orig.to_multiset(),
                sorted_by_sort(sort, orig) ==> v@ == orig,
            decreases n - i,
        {
            let ghost before = v@;
            let x = v.remove(i);
            let mut j: usize = i;
            while j > 0 && !T::le(&sort, &v[j - 1], &x)
                invariant
                    0 <= j <= i,
                    i <= v@.len(),
                    v@ == before.remove(i as int),
                    forall|k: int| j <= k < i ==> !T::spec_le(sort, &v@[k], &x),
                decreases j,
            {
                j -= 1;
            }
            let ghost removed = v@;
            proof {
                broadcast use vstd::multiset::group_multiset_axioms;

                to_multiset_remove(before, i as int);
                before.remove_ensures(i as int);
                // The elements before position `i` are untouched by the removal.
                assert(forall|k: int| 0 <= k < i ==> removed[k] == before[k]);
                // The prefix of length `i` is ordered, pairwise.
                assert forall|a: int, b: int| 0 <= a < b < i implies T::spec_le(
                    sort,
                    &before[a],
                    &before[b],
                ) by {
                    assert(before.subrange(0, i as int)[a] == before[a]);
                    assert(before.subrange(0, i as int)[b] == before[b]);
                }
            }
            v.insert(j, x);
            proof {
                broadcast use vstd::multiset::group_multiset_axioms;

                to_multiset_insert(removed, j as int, x);
                removed.insert_ensures(j as int, x);
                vstd::seq_lib::to_multiset_contains(before, x);
                assert(before[i as int] == x);
                assert(before.contains(x));
                assert(v@.to_multiset() =~= before.to_multiset());
                // The prefix one longer is ordered: every pair is either two
                // old elements in their old order, or `x` against an old one.
                assert forall|p: int, q: int| 0 <= p < q < i + 1 implies T::spec_le(
                    sort,
                    &v@[p],
                    &v@[q],
                ) by {
                    if q < j {
                        assert(v@[p] == before[p] && v@[q] == before[q]);
                    } else if p < j && q == j {
                        assert(v@[p] == before[p] && v@[q] == x);
                        assert(T::spec_le(sort, &before[j - 1], &x));
                        if p < j - 1 {
                            T::lemma_le_trans(sort, &before[p], &before[j - 1], &x);
                        }
                    } else if p < j && q > j {
                        assert(v@[p] == before[p] && v@[q] == removed[q - 1] && removed[q - 1]
                            == before[q - 1]);
                    } else if p == j {
                        assert(v@[p] == x && v@[q] == removed[q - 1] && removed[q - 1] == before[q
                            - 1]);
                        assert(!T::spec_le(sort, &before[q - 1], &x));
                        T::lemma_le_total(sort, &before[q - 1], &x);
                    } else {
                        assert(v@[p] == removed[p - 1] && v@[q] == removed[q - 1]);
                        assert(v@[p] == before[p - 1] && v@[q] == before[q - 1]);
                    }
                }
                assert(sorted_by_sort(sort, v@.subrange(0, i + 1 as int))) by {
                    assert(forall|p: int, q: int|
                        0 <= p < q < i + 1 ==> v@.subrange(0, i + 1 as int)[p] == v@[p]
                            && v@.subrange(0, i + 1 as int)[q] == v@[q]);
                }
                // An already-ordered vector is left exactly as it was.
                if sorted_by_sort(sort, orig) {
                    assert(before == orig);
                    assert(T::spec_le(sort, &before[i - 1], &x));
                    assert(j == i);
                    assert(v@ =~= before);
                }
            }
            i += 1;
        }
        proof {
            assert(v@.subrange(0, n as int) =~= v@);
        }
    }
}

} // verus!
