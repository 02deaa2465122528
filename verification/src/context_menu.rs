//! The temporary state of an open context menu.
//!
//! The items and callbacks of a movie's menu are set aside when the menu
//! opens, so that they keep working even if the movie changes its menu in
//! the meantime. Item `i` goes with callback `i`.
use vstd::prelude::*;
use crate::value::ObjectId;

verus! {

/// One entry of a context menu as it is shown.
#[derive(Clone, Debug, PartialEq, Eq)]
pub struct ContextMenuItem {
    pub enabled: bool,
    pub separator_before: bool,
    pub checked: bool,
    pub caption: String,
}

/// What choosing a context menu entry does.
#[derive(Clone, Copy, Debug, PartialEq, Eq, Structural)]
pub enum ContextMenuCallback {
    Zoom,
    Quality,
    Play,
    Loop,
    Rewind,
    Forward,
    Back,
    Print,
    /// A custom item of an AVM1 movie: the item object and its callback.
    Avm1 { item: ObjectId, callback: ObjectId },
}

/// The items of an open context menu and their callbacks, side by side.
#[derive(Clone, Debug)]
pub struct ContextMenuState {
    info: Vec<ContextMenuItem>,
    callbacks: Vec<ContextMenuCallback>,
}

impl ContextMenuState {
    /// The items, in order.
    pub closed spec fn spec_info(&self) -> Seq<ContextMenuItem> {
        self.info@
    }

    /// The callbacks, in order.
    pub closed spec fn spec_callbacks(&self) -> Seq<ContextMenuCallback> {
        self.callbacks@
    }

    /// There is one callback per item.
    pub closed spec fn wf(&self) -> bool {
        self.info@.len() == self.callbacks@.len()
    }

    /// An empty menu.
    pub fn new() -> (s: ContextMenuState)
        ensures
            s.wf(),
            s.spec_info() == Seq::<ContextMenuItem>::empty(),
            s.spec_callbacks() == Seq::<ContextMenuCallback>::empty(),
    {
        ContextMenuState { info: Vec::new(), callbacks: Vec::new() }
    }

    /// Adds an item at the end, with its callback.
    pub fn push(&mut self, item: ContextMenuItem, callback: ContextMenuCallback)
        requires
            old(self).wf(),
        ensures
            final(self).wf(),
            final(self).spec_info() == old(self).spec_info().push(item),
            final(self).spec_callbacks() == old(self).spec_callbacks().push(callback),
    {
        self.info.push(item);
        self.callbacks.push(callback);
    }

    /// The items, in order.
    pub fn info(&self) -> (r: &Vec<ContextMenuItem>)
        ensures
            r@ == self.spec_info(),
    {
        &self.info
    }

    /// The callback of the item at `index`.
    pub fn callback(&self, index: usize) -> (r: &ContextMenuCallback)
        requires
            self.wf(),
            index < self.spec_info().len(),
        ensures
            *r == self.spec_callbacks()[index as int],
    {
        &self.callbacks[index]
    }
}

/// The callback of the item just pushed is the one pushed with it, and the
/// items before keep theirs.
pub proof fn law_push_pairs_item_with_callback(
    info: Seq<ContextMenuItem>,
    callbacks: Seq<ContextMenuCallback>,
    item: ContextMenuItem,
    callback: ContextMenuCallback,
)
    requires
        info.len() == callbacks.len(),
    ensures
        info.push(item).len() == callbacks.push(callback).len(),
        info.push(item)[info.len() as int] == item,
        callbacks.push(callback)[info.len() as int] == callback,
        forall|i: int| 0 <= i < info.len() ==> #[trigger] callbacks.push(callback)[i] == callbacks[i],
{
}

} // verus!
