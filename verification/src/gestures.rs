//! Mouse gestures and double clicks: which widget owns a drag, how a text drag
//! follows the pointer, and when two clicks make a double click.
use vstd::prelude::*;
use crate::editor::{TextGesture, TextPosition};

verus! {

/// The widget a mouse drag belongs to.
#[derive(Clone, Copy, Debug, PartialEq, Eq, Structural)]
pub enum GestureOwner {
    Text,
    Input,
}

/// The drag in progress, if any: who owns it, and its text or input part.
#[derive(Clone, Debug)]
pub struct GestureState<I> {
    pub owner: Option<GestureOwner>,
    pub text: Option<TextGesture>,
    pub input: Option<I>,
}

impl<I> GestureState<I> {
    /// No drag in progress.
    pub fn new() -> (s: Self)
        ensures
            s.owner is None && s.text is None && s.input is None,
    {
        GestureState { owner: None, text: None, input: None }
    }

    /// Starts a text drag unless a drag is already in progress.
    pub fn begin_text_gesture(&mut self, gesture: TextGesture) -> (started: bool)
        ensures
            started == (old(self).owner is None),
            started ==> final(self).owner == Some(GestureOwner::Text) && final(self).text == Some(gesture)
                && final(self).input == old(self).input,
            !started ==> final(self).owner == old(self).owner && final(self).text == old(self).text
                && final(self).input == old(self).input,
    {
        if self.owner.is_some() {
            return false;
        }
        self.owner = Some(GestureOwner::Text);
        self.text = Some(gesture);
        true
    }

    /// Moves the end of the text drag; it has dragged once the end has moved.
    /// Nothing happens unless a text drag is in progress.
    pub fn update_text_gesture(&mut self, end: TextPosition) -> (moved: bool)
        ensures
            moved == (old(self).owner == Some(GestureOwner::Text) && old(self).text is Some),
            final(self).owner == old(self).owner,
            final(self).input == old(self).input,
            moved ==> ({
                let g = old(self).text->0;
                final(self).text == Some(TextGesture { end, has_dragged: g.has_dragged || g.end != end, ..g })
            }),
            !moved ==> final(self).text == old(self).text,
    {
        if self.owner != Some(GestureOwner::Text) {
            return false;
        }
        match self.text {
            Some(g) => {
                self.text = Some(TextGesture { end, has_dragged: g.has_dragged || g.end != end, ..g });
                true
            },
            None => false,
        }
    }

    /// Ends the drag, returning who owned it; nothing is left in progress.
    pub fn end_mouse_gesture(&mut self) -> (owner: Option<GestureOwner>)
        ensures
            owner == old(self).owner,
            final(self).owner is None && final(self).text is None && final(self).input is None,
    {
        let owner = self.owner;
        self.owner = None;
        self.text = None;
        self.input = None;
        owner
    }

    /// Abandons the drag.
    pub fn cancel_mouse_gesture(&mut self)
        ensures
            final(self).owner is None && final(self).text is None && final(self).input is None,
    {
        self.owner = None;
        self.text = None;
        self.input = None;
    }
}

/// Longest pause between the clicks of a double click in the explorer, in ns.
pub const EXPLORER_DOUBLE_CLICK_NANOS: u128 = 500_000_000;
/// Longest pause between the clicks of a double click in the Redis key tree, in ns.
pub const REDIS_DOUBLE_CLICK_NANOS: u128 = 400_000_000;

/// Time from `earlier` to `now`, zero when `now` is not later.
pub open spec fn elapsed(now: u128, earlier: u128) -> int {
    if now < earlier { 0 } else { now - earlier }
}

/// The last explorer click: which node and when (ns on a monotonic clock).
#[derive(Clone, Copy, Debug)]
pub struct ExplorerClickTracker {
    pub last: Option<(u64, u128)>,
}

impl ExplorerClickTracker {
    pub fn new() -> (t: Self)
        ensures
            t.last is None,
    {
        ExplorerClickTracker { last: None }
    }

    /// Records a click on `node` at `now`; it is a double click when the previous
    /// click was on the same node at most half a second earlier.
    pub fn track_explorer_click(&mut self, node: u64, now: u128) -> (double: bool)
        ensures
            double == (match old(self).last {
                Some((previous, at)) => previous == node && elapsed(now, at) <= EXPLORER_DOUBLE_CLICK_NANOS,
                None => false,
            }),
            final(self).last == Some((node, now)),
    {
        let double = match self.last {
            Some((previous, at)) => previous == node && (if now < at { 0 } else { now - at }) <= EXPLORER_DOUBLE_CLICK_NANOS,
            None => false,
        };
        self.last = Some((node, now));
        double
    }

    /// Forgets the last click.
    pub fn clear_click_tracker(&mut self)
        ensures
            final(self).last is None,
    {
        self.last = None;
    }
}

/// The last Redis key-tree click: which tab and node, and when.
#[derive(Clone, Copy, Debug)]
pub struct RedisClickTracker {
    pub last: Option<(u128, u64, u128)>,
}

impl RedisClickTracker {
    pub fn new() -> (t: Self)
        ensures
            t.last is None,
    {
        RedisClickTracker { last: None }
    }

    /// Records a click on `node` of tab `tab` at `now`. A second click on the same
    /// node within 400 ms is a double click, which also resets the tracker, so a
    /// third click starts over.
    pub fn track_redis_click(&mut self, tab: u128, node: u64, now: u128) -> (double: bool)
        ensures
            double == (match old(self).last {
                Some((last_tab, last_node, at)) => last_tab == tab && last_node == node
                    && elapsed(now, at) <= REDIS_DOUBLE_CLICK_NANOS,
                None => false,
            }),
            double ==> final(self).last is None,
            !double ==> final(self).last == Some((tab, node, now)),
    {
        let double = match self.last {
            Some((last_tab, last_node, at)) => last_tab == tab && last_node == node
                && (if now < at { 0 } else { now - at }) <= REDIS_DOUBLE_CLICK_NANOS,
            None => false,
        };
        self.last = if double { None } else { Some((tab, node, now)) };
        double
    }
}

} // verus!
