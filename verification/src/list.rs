//! A list of records with a cursor that remembers the identifier it last stood on.

use crate::entity::Identifiable;
use crate::cycle::{
    lemma_wrapped_backward, lemma_wrapped_forward, lemma_wrapped_range, lemma_wrapped_turn, wrapped,
};
use vstd::prelude::*;

verus! {

/// The model of a position that may be absent.
pub open spec fn position_view(index: Option<usize>) -> Option<nat> {
    match index {
        Some(i) => Some(i as nat),
        None => None,
    }
}

/// The model of a name that may be absent.
pub open spec fn name_view(name: Option<&str>) -> Option<Seq<char>> {
    match name {
        Some(text) => Some(text@),
        None => None,
    }
}

/// Mathematical model of a [`StatefulList`].
pub struct ListModel<T> {
    pub items: Seq<T>,
    pub selected_index: Option<nat>,
    pub selected_id: Option<Seq<char>>,
}

impl<T: Identifiable> ListModel<T> {
    /// An empty list has no selection, and a position is kept exactly when an identifier is.
    pub open spec fn wf(self) -> bool {
        &&& self.items.len() == 0 ==> self.selected_index is None
        &&& self.selected_index is None <==> self.selected_id is None
    }

    /// The cursor stands on an item.
    pub open spec fn on_item(self) -> bool {
        &&& self.selected_index matches Some(i)
        &&& i < self.items.len()
    }

    /// The cursor stands on an item and remembers that item's identifier.
    pub open spec fn in_sync(self) -> bool {
        &&& self.selected_index matches Some(i)
        &&& i < self.items.len()
        &&& self.selected_id == Some(self.items[i as int].spec_id())
    }

    /// The same items with the cursor on item `i`.
    pub open spec fn select(self, i: nat) -> ListModel<T> {
        ListModel {
            items: self.items,
            selected_index: Some(i),
            selected_id: Some(self.items[i as int].spec_id()),
        }
    }

    /// The same items with no selection.
    pub open spec fn cleared(self) -> ListModel<T> {
        ListModel { items: self.items, selected_index: None, selected_id: None }
    }

    /// The position after a step forward: the first item when there was no
    /// selection, or when the cursor stood on or past the last item.
    pub open spec fn next_index(self) -> nat {
        match self.selected_index {
            Some(i) => if i + 1 >= self.items.len() {
                0
            } else {
                i + 1
            },
            None => 0,
        }
    }

    /// The position after a step back: the first item when there was no
    /// selection, the last item when the cursor stood on the first item or
    /// past the end.
    pub open spec fn previous_index(self) -> nat {
        match self.selected_index {
            Some(i) => if i == 0 || i > self.items.len() {
                (self.items.len() - 1) as nat
            } else {
                (i - 1) as nat
            },
            None => 0,
        }
    }

    /// The list after a step forward.
    pub open spec fn next(self) -> ListModel<T> {
        if self.items.len() == 0 {
            self.cleared()
        } else {
            self.select(self.next_index())
        }
    }

    /// The list after a step back.
    pub open spec fn previous(self) -> ListModel<T> {
        if self.items.len() == 0 {
            self.cleared()
        } else {
            self.select(self.previous_index())
        }
    }

    /// The list after its items are replaced: an empty replacement clears the
    /// selection, any other leaves position and identifier as they were.
    pub open spec fn refresh(self, items: Seq<T>) -> ListModel<T> {
        if items.len() == 0 {
            ListModel { items, selected_index: None, selected_id: None }
        } else {
            ListModel { items, selected_index: self.selected_index, selected_id: self.selected_id }
        }
    }
}

impl<T: Identifiable> ListModel<T> {
    /// The list after `n` steps forward.
    pub open spec fn next_n(self, n: nat) -> ListModel<T>
        decreases n,
    {
        if n == 0 {
            self
        } else {
            self.next_n((n - 1) as nat).next()
        }
    }

    /// The list after `n` steps back.
    pub open spec fn previous_n(self, n: nat) -> ListModel<T>
        decreases n,
    {
        if n == 0 {
            self
        } else {
            self.previous_n((n - 1) as nat).previous()
        }
    }

    /// From a cursor on item `i`, `n` steps forward end on item `(i + n) mod len`.
    pub proof fn lemma_next_n(self, n: nat)
        requires
            self.on_item(),
        ensures
            self.next_n(n).items == self.items,
            self.next_n(n).selected_index == Some(
                wrapped(self.selected_index->0 as int + n as int, self.items.len()),
            ),
            self.in_sync() || n > 0 ==> self.next_n(n).in_sync(),
        decreases n,
    {
        let len = self.items.len();
        let i = self.selected_index->0 as int;
        if n == 0 {
            lemma_wrapped_range(i, len);
        } else {
            self.lemma_next_n((n - 1) as nat);
            lemma_wrapped_forward(i + n - 1, len);
        }
    }

    /// From a cursor on item `i`, `n` steps back end on item `(i - n) mod len`.
    pub proof fn lemma_previous_n(self, n: nat)
        requires
            self.on_item(),
        ensures
            self.previous_n(n).items == self.items,
            self.previous_n(n).selected_index == Some(
                wrapped(self.selected_index->0 as int - n as int, self.items.len()),
            ),
            self.in_sync() || n > 0 ==> self.previous_n(n).in_sync(),
        decreases n,
    {
        let len = self.items.len();
        let i = self.selected_index->0 as int;
        if n == 0 {
            lemma_wrapped_range(i, len);
        } else {
            self.lemma_previous_n((n - 1) as nat);
            lemma_wrapped_backward(i - (n - 1), len);
        }
    }

    /// As many steps forward as the list has items bring the cursor back to
    /// where it stood. With an identifier that matched its item, the whole
    /// list is as before.
    pub proof fn law_next_cycles(self)
        requires
            self.items.len() > 0 ==> self.on_item(),
        ensures
            self.next_n(self.items.len()).selected_index == self.selected_index,
            self.next_n(self.items.len()).items == self.items,
            self.in_sync() ==> self.next_n(self.items.len()) == self,
    {
        let len = self.items.len();
        if len > 0 {
            let i = self.selected_index->0;
            self.lemma_next_n(len);
            lemma_wrapped_turn(i as int, len);
            lemma_wrapped_range(i as int, len);
        }
    }

    /// As many steps back as the list has items bring the cursor back to
    /// where it stood. With an identifier that matched its item, the whole
    /// list is as before.
    pub proof fn law_previous_cycles(self)
        requires
            self.items.len() > 0 ==> self.on_item(),
        ensures
            self.previous_n(self.items.len()).selected_index == self.selected_index,
            self.previous_n(self.items.len()).items == self.items,
            self.in_sync() ==> self.previous_n(self.items.len()) == self,
    {
        let len = self.items.len();
        if len > 0 {
            let i = self.selected_index->0;
            self.lemma_previous_n(len);
            lemma_wrapped_turn(i as int, len);
            lemma_wrapped_range(i as int, len);
        }
    }

    /// A step back undoes a step forward from a cursor that stands on an item.
    pub proof fn law_previous_undoes_next(self)
        requires
            self.in_sync(),
        ensures
            self.next().previous() == self,
    {
    }

    /// A step forward undoes a step back from a cursor that stands on an item.
    pub proof fn law_next_undoes_previous(self)
        requires
            self.in_sync(),
        ensures
            self.previous().next() == self,
    {
    }

    /// Replacing the items by none leaves no selection, whatever stood before.
    pub proof fn law_refresh_empty_clears(self)
        ensures
            self.refresh(Seq::empty()).selected_index is None,
            self.refresh(Seq::empty()).selected_id is None,
    {
    }
}

/// The position of the cursor and the identifier of the item it was put on.
struct Selection {
    index: usize,
    id: String,
}

/// Items in display order and, once the user has moved through them, a selection.
pub struct StatefulList<T: Identifiable> {
    items: Vec<T>,
    selection: Option<Selection>,
}

impl<T: Identifiable> View for StatefulList<T> {
    type V = ListModel<T>;

    closed spec fn view(&self) -> ListModel<T> {
        ListModel {
            items: self.items@,
            selected_index: match self.selection {
                Some(s) => Some(s.index as nat),
                None => None,
            },
            selected_id: match self.selection {
                Some(s) => Some(s.id@),
                None => None,
            },
        }
    }
}

impl<T: Identifiable> StatefulList<T> {
    #[verifier::type_invariant]
    spec fn inv(self) -> bool {
        self.items.len() == 0 ==> self.selection is None
    }

    /// A list over `items` with nothing selected.
    pub fn with_items(items: Vec<T>) -> (list: Self)
        ensures
            list@ == (ListModel { items: items@, selected_index: None, selected_id: None }),
            list@.wf(),
    {
        StatefulList { items, selection: None }
    }

    /// Replaces the items. An empty replacement clears the selection; any
    /// other leaves it untouched, whatever now stands at that position.
    pub fn refresh(&mut self, items: Vec<T>)
        ensures
            final(self)@ == old(self)@.refresh(items@),
            final(self)@.wf(),
    {
        if items.len() == 0 {
            self.selection = None;
        }
        self.items = items;
    }

    /// Moves the cursor one item forward, from the last item to the first,
    /// and records the identifier of the item reached. Clears the selection
    /// of an empty list.
    pub fn next(&mut self)
        ensures
            final(self)@ == old(self)@.next(),
            final(self)@.wf(),
            old(self)@.items.len() > 0 ==> final(self)@.in_sync(),
    {
        let len: usize = self.items.len();
        if len == 0 {
            self.selection = None;
            return ;
        }
        let i: usize = match &self.selection {
            Some(s) => if s.index >= len - 1 {
                0
            } else {
                s.index + 1
            },
            None => 0,
        };
        self.selection = Some(Selection { index: i, id: self.items[i].id().to_owned() });
    }

    /// Moves the cursor one item back, from the first item to the last, and
    /// records the identifier of the item reached. Clears the selection of an
    /// empty list.
    pub fn previous(&mut self)
        ensures
            final(self)@ == old(self)@.previous(),
            final(self)@.wf(),
            old(self)@.items.len() > 0 ==> final(self)@.in_sync(),
    {
        let len: usize = self.items.len();
        if len == 0 {
            self.selection = None;
            return ;
        }
        let i: usize = match &self.selection {
            Some(s) => if s.index == 0 || s.index > len {
                len - 1
            } else {
                s.index - 1
            },
            None => 0,
        };
        self.selection = Some(Selection { index: i, id: self.items[i].id().to_owned() });
    }

    /// The items, in display order.
    pub fn items(&self) -> (items: &Vec<T>)
        ensures
            items@ == self@.items,
            self@.wf(),
    {
        proof {
            use_type_invariant(self);
        }
        &self.items
    }

    /// The position of the cursor, if anything is selected.
    pub fn selected_index(&self) -> (index: Option<usize>)
        ensures
            position_view(index) == self@.selected_index,
    {
        match &self.selection {
            Some(selection) => Some(selection.index),
            None => None,
        }
    }

    /// The identifier recorded when the cursor was last moved, if anything is selected.
    pub fn selected_id(&self) -> (id: Option<&str>)
        ensures
            name_view(id) == self@.selected_id,
    {
        match &self.selection {
            Some(selection) => Some(selection.id.as_str()),
            None => None,
        }
    }
}

} // verus!
