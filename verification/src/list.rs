//! The earlier story-list block: the fetched items, the selected row, the
//! current topic, and the top of the visible window.

use vstd::prelude::*;

use crate::api_url::StoryType;
use crate::get_items::ItemResponse;

verus! {

/// The story list panel's state.
pub struct ListBlock {
    pub data: Vec<ItemResponse>,
    pub selected: usize,
    pub topic: StoryType,
    pub focus: bool,
    pub list_top_cursor: usize,
}

impl ListBlock {
    /// The index of the first visible row.
    pub closed spec fn cursor(self) -> usize {
        self.list_top_cursor
    }

    pub fn new(data: Vec<ItemResponse>, selected: usize, topic: StoryType, focus: bool) -> (r: Self)
        ensures
            r.data == data,
            r.selected == selected,
            r.topic == topic,
            r.focus == focus,
            r.cursor() == 0,
    {
        ListBlock { data, topic, focus, selected, list_top_cursor: 0 }
    }

    /// Moves to the next topic in the fixed cycle.
    pub fn next_topic(&mut self)
        ensures
            final(self).topic == old(self).topic.spec_next(),
            final(self).data == old(self).data,
            final(self).selected == old(self).selected,
            final(self).focus == old(self).focus,
            final(self).cursor() == old(self).cursor(),
    {
        self.topic = match self.topic {
            StoryType::Show => StoryType::Best,
            StoryType::Best => StoryType::Jobs,
            StoryType::Jobs => StoryType::Top,
            StoryType::Top => StoryType::New,
            StoryType::New => StoryType::Show,
        };
    }

    /// Moves to the previous topic in the fixed cycle.
    pub fn prev_topic(&mut self)
        ensures
            final(self).topic == old(self).topic.spec_prev(),
            final(self).data == old(self).data,
            final(self).selected == old(self).selected,
            final(self).focus == old(self).focus,
            final(self).cursor() == old(self).cursor(),
    {
        self.topic = match self.topic {
            StoryType::Show => StoryType::New,
            StoryType::New => StoryType::Top,
            StoryType::Top => StoryType::Jobs,
            StoryType::Jobs => StoryType::Best,
            StoryType::Best => StoryType::Show,
        };
    }

    /// Drops the items and moves the selection to the top; the window
    /// cursor keeps its place.
    pub fn reset(&mut self)
        ensures
            final(self).data@ == Seq::<ItemResponse>::empty(),
            final(self).selected == 0,
            final(self).topic == old(self).topic,
            final(self).focus == old(self).focus,
            final(self).cursor() == old(self).cursor(),
    {
        self.data.clear();
        self.selected = 0;
    }
}

} // verus!
