//! Linear undo/redo history over the list of committed items.
//!
//! Two stacks: the committed items in z-order, and the items taken back by undo with the most
//! recently undone last. Committing a new item empties the second stack.

use vstd::prelude::*;
use crate::geometry::Point;
use crate::item::{models, CanvasItem, ItemModel};

verus! {

/// The mathematical state of a history: two sequences of item models.
pub struct HistoryModel {
    /// Committed items; insertion order is z-order, later items lie on top.
    pub items: Seq<ItemModel>,
    /// Items removed by undo, most recently undone last.
    pub redo: Seq<ItemModel>,
}

/// Whether every model of the sequence is a valid item.
pub open spec fn all_valid(items: Seq<ItemModel>) -> bool {
    forall|i: int| 0 <= i < items.len() ==> (#[trigger] items[i]).valid()
}

impl HistoryModel {
    /// The history with nothing committed and nothing to redo.
    pub open spec fn empty() -> HistoryModel {
        HistoryModel { items: Seq::empty(), redo: Seq::empty() }
    }

    /// No stored item is malformed.
    pub open spec fn wf(self) -> bool {
        all_valid(self.items) && all_valid(self.redo)
    }

    /// A valid item goes on top of the committed items and the redo stack is emptied; an
    /// invalid item is discarded and nothing changes.
    pub open spec fn commit(self, item: ItemModel) -> HistoryModel {
        if item.valid() {
            HistoryModel { items: self.items.push(item), redo: Seq::empty() }
        } else {
            self
        }
    }

    /// The top committed item moves onto the redo stack; nothing changes where none is committed.
    pub open spec fn undo(self) -> HistoryModel {
        if self.items.len() > 0 {
            HistoryModel { items: self.items.drop_last(), redo: self.redo.push(self.items.last()) }
        } else {
            self
        }
    }

    /// The most recently undone item moves back on top of the committed items; nothing changes
    /// where the redo stack is empty.
    pub open spec fn redo(self) -> HistoryModel {
        if self.redo.len() > 0 {
            HistoryModel { items: self.items.push(self.redo.last()), redo: self.redo.drop_last() }
        } else {
            self
        }
    }

    /// Both stacks emptied.
    pub open spec fn clear(self) -> HistoryModel {
        HistoryModel::empty()
    }

    /// The items in the order in which they were committed: the committed items, then the
    /// undone ones from the most recently undone to the earliest undone. Undo and redo move
    /// the boundary between the two parts and change nothing else.
    pub open spec fn timeline(self) -> Seq<ItemModel> {
        self.items + self.redo.reverse()
    }

    /// The items of `items` committed one after the other, first to last.
    pub open spec fn commit_all(self, items: Seq<ItemModel>) -> HistoryModel
        decreases items.len(),
    {
        if items.len() == 0 {
            self
        } else {
            self.commit_all(items.drop_last()).commit(items.last())
        }
    }

    /// Undo, `count` times over.
    pub open spec fn undo_times(self, count: nat) -> HistoryModel
        decreases count,
    {
        if count == 0 {
            self
        } else {
            self.undo_times((count - 1) as nat).undo()
        }
    }

    /// Every committed item the eraser touches is removed; the others stay, in their order. The
    /// redo stack is left alone.
    pub open spec fn erase(self, center: Point, radius: u32) -> HistoryModel {
        HistoryModel {
            items: self.items.filter(|item: ItemModel| !item.hit(center, radius)),
            redo: self.redo,
        }
    }
}

/// The committed items and the redo stack. Both hold valid items only.
pub struct History {
    items: Vec<CanvasItem>,
    redo_stack: Vec<CanvasItem>,
}

impl View for History {
    type V = HistoryModel;

    closed spec fn view(&self) -> HistoryModel {
        HistoryModel { items: models(self.items@), redo: models(self.redo_stack@) }
    }
}

impl History {
    #[verifier::type_invariant]
    closed spec fn inv(&self) -> bool {
        self@.wf()
    }

    pub fn new() -> (history: History)
        ensures
            history@ == HistoryModel::empty(),
            history@.wf(),
    {
        let history = History { items: Vec::new(), redo_stack: Vec::new() };
        assert(history@.redo =~= Seq::empty());
        history
    }

    /// Commits `item`. Returns whether it was stored.
    pub fn commit(&mut self, item: CanvasItem) -> (stored: bool)
        ensures
            stored == item@.valid(),
            final(self)@ == old(self)@.commit(item@),
            final(self)@.wf(),
    {
        proof {
            use_type_invariant(&*self);
        }
        if item.is_valid() {
            // The list is moved out while it changes: what is left in its place is empty,
            // so the history holds only valid items at every step.
            let mut items: Vec<CanvasItem> = Vec::new();
            core::mem::swap(&mut items, &mut self.items);
            items.push(item);
            assert(models(items@) =~= old(self)@.items.push(item@));
            self.items = items;
            self.redo_stack = Vec::new();
            assert(self@.redo =~= Seq::empty());
            true
        } else {
            false
        }
    }

    /// Takes back the top committed item. Returns whether there was one.
    pub fn undo(&mut self) -> (undone: bool)
        ensures
            undone == (old(self)@.items.len() > 0),
            final(self)@ == old(self)@.undo(),
            final(self)@.wf(),
    {
        proof {
            use_type_invariant(&*self);
        }
        let mut items: Vec<CanvasItem> = Vec::new();
        core::mem::swap(&mut items, &mut self.items);
        let mut redo_stack: Vec<CanvasItem> = Vec::new();
        core::mem::swap(&mut redo_stack, &mut self.redo_stack);
        let ghost before = HistoryModel { items: models(items@), redo: models(redo_stack@) };
        let undone = match items.pop() {
            Some(item) => {
                redo_stack.push(item);
                true
            },
            None => false,
        };
        assert(models(items@) =~= before.undo().items);
        assert(models(redo_stack@) =~= before.undo().redo);
        self.items = items;
        self.redo_stack = redo_stack;
        undone
    }

    /// Restores the most recently undone item. Returns whether there was one.
    pub fn redo(&mut self) -> (redone: bool)
        ensures
            redone == (old(self)@.redo.len() > 0),
            final(self)@ == old(self)@.redo(),
            final(self)@.wf(),
    {
        proof {
            use_type_invariant(&*self);
        }
        let mut items: Vec<CanvasItem> = Vec::new();
        core::mem::swap(&mut items, &mut self.items);
        let mut redo_stack: Vec<CanvasItem> = Vec::new();
        core::mem::swap(&mut redo_stack, &mut self.redo_stack);
        let ghost before = HistoryModel { items: models(items@), redo: models(redo_stack@) };
        let redone = match redo_stack.pop() {
            Some(item) => {
                items.push(item);
                true
            },
            None => false,
        };
        assert(models(items@) =~= before.redo().items);
        assert(models(redo_stack@) =~= before.redo().redo);
        self.items = items;
        self.redo_stack = redo_stack;
        redone
    }

    /// Empties both stacks.
    pub fn clear(&mut self)
        ensures
            final(self)@ == old(self)@.clear(),
            final(self)@.wf(),
    {
        proof {
            use_type_invariant(&*self);
        }
        self.items = Vec::new();
        self.redo_stack = Vec::new();
        assert(self@.redo =~= Seq::empty());
    }

    /// Removes every committed item that the eraser at `center` with the given radius touches.
    /// Returns how many items were removed.
    pub fn erase(&mut self, center: Point, radius: u32) -> (removed: usize)
        ensures
            final(self)@ == old(self)@.erase(center, radius),
            final(self)@.wf(),
            removed == old(self)@.items.len() - final(self)@.items.len(),
    {
        proof {
            use_type_invariant(&*self);
        }
        let mut items: Vec<CanvasItem> = Vec::new();
        core::mem::swap(&mut items, &mut self.items);
        let ghost all = models(items@);
        let ghost miss = |item: ItemModel| !item.hit(center, radius);
        let total: usize = items.len();
        let mut kept: Vec<CanvasItem> = Vec::new();
        for item in it: items
            invariant
                models(it.seq()) == all,
                all_valid(all),
                miss == (|item: ItemModel| !item.hit(center, radius)),
                models(kept@) == all.take(it.index() as int).filter(miss),
                all_valid(models(kept@)),
        {
            proof {
                let i = it.index() as int;
                assert(all.take(i + 1).drop_last() =~= all.take(i));
                assert(all.take(i + 1).last() == item@);
                reveal(Seq::filter);
            }
            if !item.is_hit(center, radius) {
                kept.push(item);
                assert(models(kept@) =~= all.take(it.index() as int).filter(miss).push(item@));
            }
        }
        proof {
            assert(all.take(all.len() as int) =~= all);
            all.lemma_filter_len(miss);
        }
        let removed: usize = total - kept.len();
        self.items = kept;
        removed
    }

    /// The committed items, bottom first.
    pub fn items(&self) -> (items: &Vec<CanvasItem>)
        ensures
            models(items@) == self@.items,
            all_valid(self@.items),
    {
        proof {
            use_type_invariant(self);
        }
        &self.items
    }

    /// The items taken back by undo, most recently undone last.
    pub fn redo_stack(&self) -> (redo: &Vec<CanvasItem>)
        ensures
            models(redo@) == self@.redo,
            all_valid(self@.redo),
    {
        proof {
            use_type_invariant(self);
        }
        &self.redo_stack
    }
}

} // verus!
