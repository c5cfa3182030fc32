//! A list of items with a cursor on one of them.

use vstd::prelude::*;

verus! {

/// The mathematical content of a `StatefulList`: its items in order, and the
/// index the cursor is on.
pub struct ListView<T> {
    pub items: Seq<T>,
    pub cursor: Option<nat>,
}

impl<T> ListView<T> {
    /// The cursor is on an item exactly when there is one: it is `None` if
    /// and only if the list is empty, and otherwise a valid index.
    pub open spec fn wf(self) -> bool {
        match self.cursor {
            Some(i) => i < self.items.len(),
            None => self.items.len() == 0,
        }
    }

    /// A list just made: the cursor is on the first item, if there is one.
    pub open spec fn fresh(items: Seq<T>) -> Self {
        ListView { items, cursor: if items.len() > 0 { Some(0nat) } else { None } }
    }

    /// The item under the cursor.
    pub open spec fn selected(self) -> Option<T> {
        match self.cursor {
            Some(i) => Some(self.items[i as int]),
            None => None,
        }
    }

    /// One step down. After the last item comes the first.
    pub open spec fn next(self) -> Self {
        if self.items.len() == 0 {
            ListView { items: self.items, cursor: None }
        } else {
            let i: nat = match self.cursor {
                Some(i) => if i + 1 >= self.items.len() { 0 } else { i + 1 },
                None => 0,
            };
            ListView { items: self.items, cursor: Some(i) }
        }
    }

    /// One step up. Before the first item comes the last.
    pub open spec fn previous(self) -> Self {
        if self.items.len() == 0 {
            ListView { items: self.items, cursor: None }
        } else {
            let i: nat = match self.cursor {
                Some(i) => if i == 0 {
                    (self.items.len() - 1) as nat
                } else {
                    (i - 1) as nat
                },
                None => 0,
            };
            ListView { items: self.items, cursor: Some(i) }
        }
    }

    /// A jump to the first item. An empty list stays as it is.
    pub open spec fn first(self) -> Self {
        if self.items.len() > 0 {
            ListView { items: self.items, cursor: Some(0nat) }
        } else {
            self
        }
    }

    /// A jump to the last item. An empty list stays as it is.
    pub open spec fn last(self) -> Self {
        if self.items.len() > 0 {
            ListView { items: self.items, cursor: Some((self.items.len() - 1) as nat) }
        } else {
            self
        }
    }

    /// The cursor moved to index `i`, if `i` is an index of the list.
    pub open spec fn select(self, i: nat) -> Self {
        if i < self.items.len() {
            ListView { items: self.items, cursor: Some(i) }
        } else {
            self
        }
    }

    /// The items replaced. The cursor keeps its index where that index still
    /// exists, falls back to the last item where it does not, is `None` on
    /// an empty list, and goes to the first item if there was none before.
    pub open spec fn updated(self, items: Seq<T>) -> Self {
        let cursor = if items.len() == 0 {
            None
        } else {
            match self.cursor {
                Some(i) => if i >= items.len() {
                    Some((items.len() - 1) as nat)
                } else {
                    Some(i)
                },
                None => Some(0nat),
            }
        };
        ListView { items, cursor }
    }

    /// `n` steps down.
    pub open spec fn next_times(self, n: nat) -> Self
        decreases n,
    {
        if n == 0 {
            self
        } else {
            self.next().next_times((n - 1) as nat)
        }
    }

    /// `n` steps up.
    pub open spec fn previous_times(self, n: nat) -> Self
        decreases n,
    {
        if n == 0 {
            self
        } else {
            self.previous().previous_times((n - 1) as nat)
        }
    }

    /// Every operation on a list leaves the cursor on an item exactly when
    /// there is one.
    pub proof fn lemma_operations_keep_wf(self, items: Seq<T>, i: nat)
        ensures
            Self::fresh(items).wf(),
            self.updated(items).wf(),
            self.next().wf(),
            self.wf() ==> self.previous().wf(),
            self.wf() ==> self.first().wf(),
            self.wf() ==> self.last().wf(),
            self.wf() ==> self.select(i).wf(),
    {
    }

    /// `k` steps down from index `i` end on index `(i + k) % n`.
    pub proof fn lemma_next_times(self, k: nat)
        requires
            self.wf(),
            self.items.len() > 0,
        ensures
            self.next_times(k) == (ListView {
                items: self.items,
                cursor: Some(((self.cursor->0 as int + k as int) % (self.items.len() as int)) as nat),
            }),
        decreases k,
    {
        let n = self.items.len() as int;
        let i = self.cursor->0 as int;
        if k == 0 {
            assert(i % n == i) by (nonlinear_arith)
                requires
                    0 <= i < n,
            ;
        } else {
            let step = self.next();
            step.lemma_next_times((k - 1) as nat);
            let j = step.cursor->0 as int;
            assert((j + (k - 1)) % n == (i + k) % n) by (nonlinear_arith)
                requires
                    0 <= i < n,
                    j == (if i + 1 >= n { 0 } else { i + 1 }),
                    k >= 1,
            {
                if i + 1 >= n {
                    assert(i + 1 == n);
                    assert((0 + (k - 1) + n) % n == (0 + (k - 1)) % n);
                }
            }
        }
    }

    /// `k` steps up from index `i` end on index `(i - k) % n`.
    pub proof fn lemma_previous_times(self, k: nat)
        requires
            self.wf(),
            self.items.len() > 0,
        ensures
            self.previous_times(k) == (ListView {
                items: self.items,
                cursor: Some(((self.cursor->0 as int - k as int) % (self.items.len() as int)) as nat),
            }),
        decreases k,
    {
        let n = self.items.len() as int;
        let i = self.cursor->0 as int;
        if k == 0 {
            assert(i % n == i) by (nonlinear_arith)
                requires
                    0 <= i < n,
            ;
        } else {
            let step = self.previous();
            step.lemma_previous_times((k - 1) as nat);
            let j = step.cursor->0 as int;
            assert((j - (k - 1)) % n == (i - k) % n) by (nonlinear_arith)
                requires
                    0 <= i < n,
                    j == (if i == 0 { n - 1 } else { i - 1 }),
                    k >= 1,
            {
                if i == 0 {
                    assert(((0 - k) + n) % n == (0 - k) % n);
                }
            }
        }
    }

    /// On a list of `n > 0` items, `n` steps down bring the cursor back to
    /// where it started.
    pub proof fn lemma_next_wraps(self)
        requires
            self.wf(),
            self.items.len() > 0,
        ensures
            self.next_times(self.items.len()) == self,
    {
        let n = self.items.len() as int;
        let i = self.cursor->0 as int;
        self.lemma_next_times(self.items.len());
        assert((i + n) % n == i) by (nonlinear_arith)
            requires
                0 <= i < n,
        ;
    }

    /// On a list of `n > 0` items, `n` steps up bring the cursor back to
    /// where it started.
    pub proof fn lemma_previous_wraps(self)
        requires
            self.wf(),
            self.items.len() > 0,
        ensures
            self.previous_times(self.items.len()) == self,
    {
        let n = self.items.len() as int;
        let i = self.cursor->0 as int;
        self.lemma_previous_times(self.items.len());
        assert((i - n) % n == i) by (nonlinear_arith)
            requires
                0 <= i < n,
        ;
    }

    /// A step up undoes a step down, and a step down undoes a step up.
    pub proof fn lemma_next_previous_inverse(self)
        requires
            self.wf(),
            self.items.len() > 0,
        ensures
            self.next().previous() == self,
            self.previous().next() == self,
    {
    }
}

/// The index a cursor stands for.
pub open spec fn cursor_view(cursor: Option<usize>) -> Option<nat> {
    match cursor {
        Some(i) => Some(i as nat),
        None => None,
    }
}

/// A list of items together with the index of the selected one.
pub struct StatefulList<T> {
    state: Option<usize>,
    items: Vec<T>,
}

impl<T> View for StatefulList<T> {
    type V = ListView<T>;

    closed spec fn view(&self) -> ListView<T> {
        ListView { items: self.items@, cursor: cursor_view(self.state) }
    }
}

impl<T> StatefulList<T> {
    /// What holds of every list at all times: the cursor is on an item
    /// exactly when there is one.
    #[verifier::type_invariant]
    pub open spec fn inv(self) -> bool {
        self@.wf()
    }

    /// A list over `items`, with the cursor on the first of them.
    pub fn new(items: Vec<T>) -> (list: Self)
        ensures
            list@ == ListView::fresh(items@),
    {
        let state: Option<usize> = if items.len() > 0 {
            Some(0)
        } else {
            None
        };
        StatefulList { state, items }
    }

    /// The index of the selected item.
    pub fn state(&self) -> (state: Option<usize>)
        ensures
            cursor_view(state) == self@.cursor,
            self@.wf(),
    {
        proof {
            use_type_invariant(self);
        }
        self.state
    }

    /// The index of the selected item.
    pub fn selected_index(&self) -> (index: Option<usize>)
        ensures
            cursor_view(index) == self@.cursor,
            self@.wf(),
    {
        self.state()
    }

    /// The items, in order.
    pub fn items(&self) -> (items: &Vec<T>)
        ensures
            items@ == self@.items,
            self@.wf(),
    {
        proof {
            use_type_invariant(self);
        }
        &self.items
    }

    /// The selected item.
    pub fn selected(&self) -> (item: Option<&T>)
        ensures
            match item {
                Some(t) => Some(*t) == self@.selected(),
                None => self@.selected() is None,
            },
            self@.wf(),
    {
        proof {
            use_type_invariant(self);
        }
        match self.state {
            Some(i) => Some(&self.items[i]),
            None => None,
        }
    }

    /// A list over `items` whose cursor is where the cursor of this list is,
    /// as far as `items` reach.
    pub fn with_items(&self, items: Vec<T>) -> (list: Self)
        ensures
            list@ == self@.updated(items@),
        no_unwind
    {
        let n: usize = items.len();
        let state: Option<usize> = if n == 0 {
            None
        } else {
            match self.state {
                Some(i) => if i >= n {
                    Some(n - 1)
                } else {
                    Some(i)
                },
                None => Some(0),
            }
        };
        StatefulList { state, items }
    }

    /// Replaces the items and puts the cursor back inside them.
    pub fn update(&mut self, items: Vec<T>)
        ensures
            final(self)@ == old(self)@.updated(items@),
        no_unwind
    {
        *self = self.with_items(items);
    }

    /// Moves the cursor one item down, from the last item to the first.
    pub fn next(&mut self)
        ensures
            final(self)@ == old(self)@.next(),
        no_unwind
    {
        proof {
            use_type_invariant(&*self);
        }
        let n: usize = self.items.len();
        if n == 0 {
            self.state = None;
        } else {
            let i: usize = match self.state {
                Some(i) => if i + 1 >= n {
                    0
                } else {
                    i + 1
                },
                None => 0,
            };
            self.state = Some(i);
        }
    }

    /// Moves the cursor one item up, from the first item to the last.
    pub fn previous(&mut self)
        ensures
            final(self)@ == old(self)@.previous(),
        no_unwind
    {
        proof {
            use_type_invariant(&*self);
        }
        let n: usize = self.items.len();
        if n == 0 {
            self.state = None;
        } else {
            let i: usize = match self.state {
                Some(i) => if i == 0 {
                    n - 1
                } else {
                    i - 1
                },
                None => 0,
            };
            self.state = Some(i);
        }
    }

    /// Moves the cursor to the first item.
    pub fn first(&mut self)
        ensures
            final(self)@ == old(self)@.first(),
        no_unwind
    {
        if self.items.len() > 0 {
            self.state = Some(0);
        }
    }

    /// Moves the cursor to the last item.
    pub fn last(&mut self)
        ensures
            final(self)@ == old(self)@.last(),
        no_unwind
    {
        let n: usize = self.items.len();
        if n > 0 {
            self.state = Some(n - 1);
        }
    }

    /// Moves the cursor to index `i`. An index outside the list changes
    /// nothing.
    pub fn select(&mut self, i: usize)
        ensures
            final(self)@ == old(self)@.select(i as nat),
        no_unwind
    {
        if i < self.items.len() {
            self.state = Some(i);
        }
    }
}

} // verus!
