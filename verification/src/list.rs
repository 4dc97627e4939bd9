//! A list with a selection that moves through it and wraps at both ends.

use vstd::prelude::*;

verus! {

/// What a list with a selection looks like from outside: its items and the
/// place of the selected one, if one is selected.
pub struct Cursor<T> {
    pub items: Seq<T>,
    pub selected: Option<usize>,
}

impl<T> Cursor<T> {
    /// The selection, if there is one, points at an item.
    pub open spec fn well_formed(self) -> bool {
        self.selected matches Some(i) ==> i < self.items.len()
    }

    /// The place of the item that is worked with: the selected one, or the
    /// first one while none is selected.
    pub open spec fn current_index(self) -> int {
        match self.selected {
            Some(i) => i as int,
            None => 0,
        }
    }

    /// The item that is worked with.
    pub open spec fn current(self) -> T {
        self.items[self.current_index()]
    }

    /// The list after a move of the selection by `steps`.
    pub open spec fn moved(self, steps: isize) -> Cursor<T> {
        Cursor { items: self.items, selected: self.advanced(steps) }
    }

    /// A list of `items` with none of them selected.
    pub open spec fn fresh(items: Seq<T>) -> Cursor<T> {
        Cursor { items, selected: None }
    }

    /// Where the selection is after a move by `steps`, down for positive
    /// and up for negative ones.
    ///
    /// The first move selects the first item, whatever `steps` is. A move
    /// that would pass the end goes to the first item, however far it would
    /// pass it. A move up from the first item goes to the last one. A move
    /// that would pass the start from further down stops at the first item.
    /// In an empty list there is nothing to select.
    pub open spec fn advanced(self, steps: isize) -> Option<usize> {
        let n = self.items.len();
        if n == 0 {
            None
        } else {
            match self.selected {
                None => Some(0),
                Some(i) => if i + steps >= n {
                    Some(0)
                } else if i == 0 && steps < 0 {
                    Some((n - 1) as usize)
                } else if i + steps < 0 {
                    Some(0)
                } else {
                    Some((i + steps) as usize)
                },
            }
        }
    }
}

/// A list of items, one of which may be selected.
#[derive(Debug)]
pub struct ItemLIst<T> {
    items: Vec<T>,
    selected: Option<usize>,
}

impl<T> View for ItemLIst<T> {
    type V = Cursor<T>;

    closed spec fn view(&self) -> Cursor<T> {
        Cursor { items: self.items@, selected: self.selected }
    }
}

impl<T> ItemLIst<T> {
    #[verifier::type_invariant]
    spec fn selection_in_list(self) -> bool {
        self.selected matches Some(i) ==> i < self.items.len()
    }

    /// A list of `items` with none of them selected.
    pub fn new(items: Vec<T>) -> (list: ItemLIst<T>)
        ensures
            list@ == (Cursor { items: items@, selected: None }),
    {
        ItemLIst { items, selected: None }
    }

    /// The items of the list.
    pub fn items(&self) -> (items: &Vec<T>)
        ensures
            items@ == self@.items,
    {
        &self.items
    }

    /// The number of items.
    pub fn len(&self) -> (len: usize)
        ensures
            len == self@.items.len(),
    {
        self.items.len()
    }

    /// The place of the selected item, which always lies in the list.
    pub fn selected(&self) -> (selected: Option<usize>)
        ensures
            selected == self@.selected,
            self@.well_formed(),
    {
        proof {
            use_type_invariant(self);
        }
        self.selected
    }

    /// The item that is worked with: the selected one, or the first one
    /// while none is selected.
    pub fn current(&self) -> (item: &T)
        requires
            self@.items.len() > 0,
        ensures
            *item == self@.current(),
    {
        proof {
            use_type_invariant(self);
        }
        match self.selected {
            Some(selected) => &self.items[selected],
            None => &self.items[0],
        }
    }

    /// Moves the selection by `steps` items.
    pub fn advance_by(&mut self, steps: isize)
        ensures
            final(self)@.items == old(self)@.items,
            final(self)@.selected == old(self)@.advanced(steps),
            final(self)@.well_formed(),
    {
        proof {
            use_type_invariant(&*self);
        }
        let len = self.items.len();
        if len == 0 {
            return ;
        }
        let selected: usize = match self.selected {
            Some(selected) => {
                let target: i128 = selected as i128 + steps as i128;
                if target >= len as i128 {
                    0
                } else if selected == 0 && steps < 0 {
                    len - 1
                } else if target < 0 {
                    0
                } else {
                    target as usize
                }
            },
            None => 0,
        };
        self.selected = Some(selected);
    }

    /// Takes the selection away.
    pub fn unselect(&mut self)
        ensures
            final(self)@ == (Cursor { items: old(self)@.items, selected: None }),
    {
        proof {
            use_type_invariant(&*self);
        }
        self.selected = None;
    }
}

/// A move never leaves the list: after it an item of a list that has items
/// is selected, and that item is in the list.
pub proof fn lemma_advanced_in_list<T>(cursor: Cursor<T>, steps: isize)
    requires
        cursor.well_formed(),
        cursor.items.len() > 0,
    ensures
        cursor.advanced(steps) matches Some(i) && i < cursor.items.len(),
{
}

/// A move by one item down from an item before the last goes to the next
/// one, and a move by one item up from an item after the first goes to the
/// one before.
pub proof fn lemma_advanced_by_one<T>(cursor: Cursor<T>, i: usize)
    requires
        cursor.selected == Some(i),
        i < cursor.items.len(),
    ensures
        i + 1 < cursor.items.len() ==> cursor.advanced(1) == Some((i + 1) as usize),
        i > 0 ==> cursor.advanced((-1) as isize) == Some((i - 1) as usize),
{
}

} // verus!
