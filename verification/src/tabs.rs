//! The tab bar: a cursor over a fixed, non-empty row of titles.

use crate::cycle::{lemma_wrapped_backward, lemma_wrapped_forward, lemma_wrapped_range, wrapped};
use vstd::prelude::*;

verus! {

/// Mathematical model of a [`TabsState`].
pub struct TabsModel {
    pub titles: Seq<Seq<char>>,
    pub index: nat,
}

impl TabsModel {
    /// The cursor points at one of the titles.
    pub open spec fn wf(self) -> bool {
        self.index < self.titles.len()
    }

    /// The model after moving the cursor one title to the right, wrapping at the end.
    pub open spec fn next(self) -> TabsModel {
        TabsModel {
            titles: self.titles,
            index: wrapped(self.index as int + 1, self.titles.len()),
        }
    }

    /// The model after moving the cursor one title to the left, wrapping at the start.
    pub open spec fn previous(self) -> TabsModel {
        TabsModel {
            titles: self.titles,
            index: wrapped(self.index as int - 1, self.titles.len()),
        }
    }
}

/// A step to the left undoes a step to the right, and the other way round;
/// either leaves the cursor on a title.
pub proof fn law_tab_steps_cancel(tabs: TabsModel)
    requires
        tabs.wf(),
    ensures
        tabs.next().previous() == tabs,
        tabs.previous().next() == tabs,
        tabs.next().wf(),
        tabs.previous().wf(),
{
    let len = tabs.titles.len();
    let index = tabs.index as int;
    lemma_wrapped_range(index, len);
    lemma_wrapped_backward(index + 1, len);
    lemma_wrapped_forward(index - 1, len);
}

/// Titles of the tabs and the index of the active one.
pub struct TabsState<'a> {
    titles: Vec<&'a str>,
    index: usize,
}

impl<'a> View for TabsState<'a> {
    type V = TabsModel;

    closed spec fn view(&self) -> TabsModel {
        TabsModel { titles: self.titles@.map_values(|t: &str| t@), index: self.index as nat }
    }
}

impl<'a> TabsState<'a> {
    #[verifier::type_invariant]
    spec fn inv(self) -> bool {
        self.index < self.titles.len()
    }

    /// A tab bar over `titles` with the first tab active.
    pub fn new(titles: Vec<&'a str>) -> (tabs: TabsState<'a>)
        requires
            titles.len() > 0,
        ensures
            tabs@.titles == titles@.map_values(|t: &str| t@),
            tabs@.index == 0,
            tabs@.wf(),
    {
        TabsState { titles, index: 0 }
    }

    /// Activates the tab to the right of the active one; from the last tab goes to the first.
    pub fn next(&mut self)
        ensures
            final(self)@ == old(self)@.next(),
            final(self)@.wf(),
    {
        proof {
            use_type_invariant(&*self);
        }
        self.index = (self.index + 1) % self.titles.len();
    }

    /// Activates the tab to the left of the active one; from the first tab goes to the last.
    pub fn previous(&mut self)
        ensures
            final(self)@ == old(self)@.previous(),
            final(self)@.wf(),
    {
        proof {
            use_type_invariant(&*self);
            lemma_wrapped_range(self.index as int, self.titles.len() as nat);
            lemma_wrapped_backward(self.index as int, self.titles.len() as nat);
        }
        if self.index > 0 {
            self.index -= 1;
        } else {
            self.index = self.titles.len() - 1;
        }
    }

    /// Index of the active tab.
    pub fn index(&self) -> (i: usize)
        ensures
            i == self@.index,
            i < self@.titles.len(),
    {
        proof {
            use_type_invariant(self);
        }
        self.index
    }

    /// The titles, left to right.
    pub fn titles(&self) -> (titles: &Vec<&'a str>)
        ensures
            titles@.map_values(|t: &str| t@) == self@.titles,
            titles@.len() > 0,
    {
        proof {
            use_type_invariant(self);
        }
        &self.titles
    }
}

} // verus!
