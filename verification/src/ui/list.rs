//! Identity-stable selection over a live, re-filtered list.
//!
//! A selection is remembered as the identity of the chosen item, not as its
//! position, so that it survives the surrounding collection being re-filtered
//! and re-ordered between two inputs.

use vstd::prelude::*;

verus! {

/// An item that carries a stable identity, so a selection can follow it while
/// the list around it changes shape.
pub trait StableListItem: Sized {
    /// The identity of the item, as contracts see it.
    spec fn spec_id(&self) -> u128;

    /// Returns the stable identity of the item.
    fn id(&self) -> (r: u128)
        ensures
            r == self.spec_id(),
    ;
}

/// One recomputation of the visible list: the items in display order.
pub struct StableIndexList<TItem: StableListItem> {
    vec: Vec<TItem>,
}

impl<TItem: StableListItem> View for StableIndexList<TItem> {
    type V = Seq<TItem>;

    closed spec fn view(&self) -> Seq<TItem> {
        self.vec@
    }
}

/// The position of the first item of `s` whose identity is `id`, if any.
pub open spec fn first_index_with_id<TItem: StableListItem>(s: Seq<TItem>, id: u128) -> Option<
    int,
>
    decreases s.len(),
{
    if s.len() == 0 {
        None
    } else if s[0].spec_id() == id {
        Some(0int)
    } else {
        match first_index_with_id(s.skip(1), id) {
            Some(i) => Some(i + 1),
            None => None,
        }
    }
}

/// What `first_index_with_id` returns: the matching position with no earlier
/// match, or nothing when no item carries the identity.
pub proof fn lemma_first_index_with_id<TItem: StableListItem>(s: Seq<TItem>, id: u128)
    ensures
        match first_index_with_id(s, id) {
            Some(i) => 0 <= i < s.len() && s[i].spec_id() == id && (forall|j: int|
                0 <= j < i ==> s[j].spec_id() != id),
            None => forall|j: int| 0 <= j < s.len() ==> s[j].spec_id() != id,
        },
    decreases s.len(),
{
    if s.len() > 0 && s[0].spec_id() != id {
        let sub = s.skip(1);
        lemma_first_index_with_id(sub, id);
        assert(forall|j: int| 0 <= j < sub.len() ==> sub[j] == s[j + 1]);
        match first_index_with_id(sub, id) {
            Some(i) => {
                assert(sub[i] == s[i + 1]);
                assert forall|j: int| 0 <= j < i + 1 implies s[j].spec_id() != id by {
                    if j > 0 {
                        assert(sub[j - 1] == s[j]);
                    }
                }
            },
            None => {
                assert forall|j: int| 0 <= j < s.len() implies s[j].spec_id() != id by {
                    if j > 0 {
                        assert(sub[j - 1] == s[j]);
                    }
                }
            },
        }
    }
}

impl<TItem: StableListItem> StableIndexList<TItem> {
    /// Creates an empty list.
    pub fn new() -> (r: Self)
        ensures
            r@ == Seq::<TItem>::empty(),
    {
        StableIndexList { vec: Vec::new() }
    }

    /// Returns the item at `index`, or nothing when out of range.
    pub fn get(&self, index: usize) -> (r: Option<&TItem>)
        ensures
            match r {
                Some(item) => index < self@.len() && *item == self@[index as int],
                None => index >= self@.len(),
            },
    {
        if index < self.vec.len() {
            Some(&self.vec[index])
        } else {
            None
        }
    }

    /// The number of visible items.
    pub fn len(&self) -> (r: usize)
        ensures
            r == self@.len(),
    {
        self.vec.len()
    }

    /// Whether no item is visible.
    pub fn is_empty(&self) -> (r: bool)
        ensures
            r == (self@.len() == 0),
    {
        self.vec.is_empty()
    }

    /// Appends an item at the end of the visible order.
    pub fn push(&mut self, item: TItem)
        ensures
            final(self)@ == old(self)@.push(item),
    {
        self.vec.push(item);
    }

    /// The items in display order.
    pub fn iter(&self) -> (r: &Vec<TItem>)
        ensures
            r@ == self@,
    {
        &self.vec
    }

    /// Finds the position of the item with identity `id`, scanning from the
    /// front so the first match wins.
    pub fn index_of_id(&self, id: u128) -> (r: Option<usize>)
        ensures
            match r {
                Some(i) => first_index_with_id(self@, id) == Some(i as int),
                None => first_index_with_id(self@, id) is None,
            },
    {
        let n = self.vec.len();
        let mut i: usize = 0;
        while i < n
            invariant
                n == self@.len(),
                0 <= i <= n,
                forall|j: int| 0 <= j < i ==> self@[j].spec_id() != id,
            decreases n - i,
        {
            if self.vec[i].id() == id {
                proof {
                    lemma_first_index_with_id(self@, id);
                    match first_index_with_id(self@, id) {
                        Some(k) => {
                            if k < i as int {
                                assert(self@[k].spec_id() == id);
                            } else if k > i as int {
                                assert(self@[i as int].spec_id() != id);
                            }
                        },
                        None => {
                            assert(self@[i as int].spec_id() != id);
                        },
                    }
                }
                return Some(i);
            }
            i += 1;
        }
        proof {
            lemma_first_index_with_id(self@, id);
        }
        None
    }
}

} // verus!

verus! {

use crate::keys::Key;

/// What handling a key did to the list: chose an item, or nothing to report.
pub enum HandleInputResult<T> {
    /// The highlighted item was chosen.
    Selected(T),
    /// No item was chosen.
    Unhandled,
}

/// The selection state of one view: the identity the view intends to keep
/// highlighted, and the position it resolved to against the latest list.
#[derive(Debug)]
pub struct StableListState {
    /// The identity the view intends to keep highlighted.
    pub selected_id: Option<u128>,
    /// The resolved position, meaningful only against the list it was
    /// stabilized with.
    pub unstable_state: Option<usize>,
}

impl Default for StableListState {
    /// Starts with nothing selected.
    fn default() -> (r: Self)
        ensures
            r.spec_selected_id() is None,
            r.unstable_state is None,
    {
        StableListState { selected_id: None, unstable_state: None }
    }
}

/// The position the remembered identity resolves to in `s`: its first
/// occurrence, or nothing when it is absent or nothing is remembered.
pub open spec fn stabilized_index<TItem: StableListItem>(s: Seq<TItem>, sel: Option<u128>) -> Option<
    usize,
> {
    match sel {
        None => None,
        Some(id) => match first_index_with_id(s, id) {
            Some(i) => Some(i as usize),
            None => None,
        },
    }
}

/// Stabilization follows the remembered identity: if an item carrying it is
/// still present in the new list, the selection resolves to that item's
/// position; if none is, it resolves to nothing — never to a fallback
/// position.
pub proof fn lemma_stabilize_follows_identity<TItem: StableListItem>(s: Seq<TItem>, id: u128)
    requires
        s.len() <= usize::MAX,
    ensures
        (exists|j: int| 0 <= j < s.len() && s[j].spec_id() == id) ==> (stabilized_index(s, Some(id))
            matches Some(i) && s[i as int].spec_id() == id && (forall|j: int|
            0 <= j < i ==> s[j].spec_id() != id)),
        (forall|j: int| 0 <= j < s.len() ==> s[j].spec_id() != id) ==> stabilized_index(
            s,
            Some(id),
        ) is None,
{
    lemma_first_index_with_id(s, id);
}

/// The position after moving down with wrap-around: from the last position
/// back to the first.
pub open spec fn wrap_next(len: nat, cur: Option<usize>) -> int {
    let i = (match cur {
        Some(i) => i as int,
        None => 0,
    });
    if i >= len - 1 {
        0
    } else {
        i + 1
    }
}

/// The position after moving up with wrap-around: from the first position
/// back to the last.
pub open spec fn wrap_previous(len: nat, cur: Option<usize>) -> int {
    let i = (match cur {
        Some(i) => i as int,
        None => 0,
    });
    if i == 0 || i >= len {
        len - 1
    } else {
        i - 1
    }
}

impl StableListState {
    /// The identity the view intends to keep highlighted.
    pub open spec fn spec_selected_id(&self) -> Option<u128> {
        self.selected_id
    }

    /// Resolves the remembered identity against the current list: its new
    /// position if an item carrying it is still present, nothing otherwise.
    /// A disappeared item never silently promotes a neighbour.
    pub fn stabilize_selected_index<TItem: StableListItem>(
        &mut self,
        list: &StableIndexList<TItem>,
    )
        ensures
            final(self).spec_selected_id() == old(self).spec_selected_id(),
            final(self).unstable_state == stabilized_index(list@, old(self).spec_selected_id()),
    {
        let relative_index = match &self.selected_id {
            Some(id) => list.index_of_id(*id),
            None => None,
        };
        self.unstable_state = relative_index;
    }

    /// Selects by position, remembering the identity of the item there so
    /// the choice survives the next re-filter; selecting nothing clears the
    /// remembered identity.
    pub fn select<TItem: StableListItem>(
        &mut self,
        list: &StableIndexList<TItem>,
        index: Option<usize>,
    )
        requires
            index matches Some(i) ==> i < list@.len(),
        ensures
            final(self).unstable_state == index,
            match index {
                Some(i) => final(self).spec_selected_id() == Some(list@[i as int].spec_id()),
                None => final(self).spec_selected_id() is None,
            },
    {
        self.unstable_state = index;
        match index {
            Some(i) => {
                match list.get(i) {
                    Some(item) => {
                        self.selected_id = Some(item.id());
                    },
                    None => {
                        self.selected_id = None;
                    },
                }
            },
            None => {
                self.selected_id = None;
            },
        }
    }

    /// The position resolved by the last stabilization or selection.
    pub fn selected(&self) -> (r: Option<usize>)
        ensures
            r == self.unstable_state,
    {
        self.unstable_state
    }

    /// Moves the selection down by one, wrapping from the last position to
    /// the first; on an empty list nothing changes.
    pub fn list_select_next<TItem: StableListItem>(&mut self, list: &StableIndexList<TItem>)
        ensures
            list@.len() == 0 ==> *final(self) == *old(self),
            list@.len() > 0 ==> {
                &&& final(self).unstable_state == Some(
                    wrap_next(list@.len(), old(self).unstable_state) as usize,
                )
                &&& final(self).spec_selected_id() == Some(
                    list@[wrap_next(list@.len(), old(self).unstable_state)].spec_id(),
                )
            },
    {
        if list.is_empty() {
            return ;
        }
        let i = match self.selected() {
            Some(i) => i,
            None => 0,
        };
        let len = list.len();
        let next = if i >= len - 1 {
            0
        } else {
            i + 1
        };
        self.select(list, Some(next));
    }

    /// Moves the selection up by one, wrapping from the first position to
    /// the last; on an empty list nothing changes.
    pub fn list_select_previous<TItem: StableListItem>(&mut self, list: &StableIndexList<TItem>)
        ensures
            list@.len() == 0 ==> *final(self) == *old(self),
            list@.len() > 0 ==> {
                &&& final(self).unstable_state == Some(
                    wrap_previous(list@.len(), old(self).unstable_state) as usize,
                )
                &&& final(self).spec_selected_id() == Some(
                    list@[wrap_previous(list@.len(), old(self).unstable_state)].spec_id(),
                )
            },
    {
        if list.is_empty() {
            return ;
        }
        let i = match self.selected() {
            Some(i) => i,
            None => 0,
        };
        let len = list.len();
        let previous = if i == 0 || i >= len {
            len - 1
        } else {
            i - 1
        };
        self.select(list, Some(previous));
    }

    /// Clears the selection, remembered identity included.
    pub fn list_unselect<TItem: StableListItem>(&mut self, list: &StableIndexList<TItem>)
        ensures
            final(self).unstable_state is None,
            final(self).spec_selected_id() is None,
    {
        self.select(list, None);
    }

    /// The resolved position, for the front end's own list widget state.
    pub fn get_ratatui_state(&self) -> (r: Option<usize>)
        ensures
            r == self.unstable_state,
    {
        self.unstable_state
    }

    /// Routes one key: left clears the selection, right or enter chooses the
    /// highlighted item, down and up move with wrap-around; every other key
    /// does nothing.
    pub fn handle_key_input<'a, TItem: StableListItem>(
        &mut self,
        list: &'a StableIndexList<TItem>,
        key: &Key,
    ) -> (r: HandleInputResult<&'a TItem>)
        ensures
            (*key == Key::Left || *key == Key::Char('h')) ==> final(self).unstable_state is None
                && final(self).spec_selected_id() is None && r is Unhandled,
            (*key == Key::Right || *key == Key::Char('l') || *key == Key::Enter) ==> *final(self)
                == *old(self) && (match old(self).unstable_state {
                Some(i) => {
                    if i < list@.len() {
                        r matches HandleInputResult::Selected(item) && *item == list@[i as int]
                    } else {
                        r is Unhandled
                    }
                },
                None => r is Unhandled,
            }),
            (*key == Key::Down || *key == Key::Char('j')) ==> r is Unhandled && (list@.len() == 0
                ==> *final(self) == *old(self)) && (list@.len() > 0 ==> {
                &&& final(self).unstable_state == Some(
                    wrap_next(list@.len(), old(self).unstable_state) as usize,
                )
                &&& final(self).spec_selected_id() == Some(
                    list@[wrap_next(list@.len(), old(self).unstable_state)].spec_id(),
                )
            }),
            (*key == Key::Up || *key == Key::Char('k')) ==> r is Unhandled && (list@.len() == 0
                ==> *final(self) == *old(self)) && (list@.len() > 0 ==> {
                &&& final(self).unstable_state == Some(
                    wrap_previous(list@.len(), old(self).unstable_state) as usize,
                )
                &&& final(self).spec_selected_id() == Some(
                    list@[wrap_previous(list@.len(), old(self).unstable_state)].spec_id(),
                )
            }),
            !(*key == Key::Left || *key == Key::Char('h') || *key == Key::Right || *key
                == Key::Char('l') || *key == Key::Enter || *key == Key::Down || *key == Key::Char(
                'j',
            ) || *key == Key::Up || *key == Key::Char('k')) ==> *final(self) == *old(self)
                && r is Unhandled,
    {
        match key {
            Key::Left | Key::Char('h') => {
                self.list_unselect(list);
                HandleInputResult::Unhandled
            },
            Key::Right | Key::Char('l') | Key::Enter => {
                match self.selected() {
                    Some(selected_index) => {
                        match list.get(selected_index) {
                            Some(item) => HandleInputResult::Selected(item),
                            None => HandleInputResult::Unhandled,
                        }
                    },
                    None => HandleInputResult::Unhandled,
                }
            },
            Key::Down | Key::Char('j') => {
                self.list_select_next(list);
                HandleInputResult::Unhandled
            },
            Key::Up | Key::Char('k') => {
                self.list_select_previous(list);
                HandleInputResult::Unhandled
            },
            _ => HandleInputResult::Unhandled,
        }
    }
}

} // verus!

verus! {

/// One visible position of a filtered list: where the item stands in the
/// underlying snapshot, and the stable identity it carries.
#[derive(PartialEq, Eq, Structural, Debug, Clone, Copy)]
pub struct FilteredEntry {
    /// Position of the item in the snapshot the list was filtered from.
    pub index: usize,
    /// The item's stable identity.
    pub id: u128,
}

impl StableListItem for FilteredEntry {
    open spec fn spec_id(&self) -> u128 {
        self.id
    }

    fn id(&self) -> u128 {
        self.id
    }
}

} // verus!
