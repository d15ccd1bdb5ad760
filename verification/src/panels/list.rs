//! The story-list panel: the fetched items, the selected row, the visible
//! window, the loading spinner, and the read-history record.

use vstd::prelude::*;

use crate::api_url::StoryType;
use crate::components::loading::Loading;
use crate::get_items::ItemResponse;
use crate::storages::read_history::spec_add_read;
use crate::storages::read_history::ReadHistory;
use crate::storages::read_history::ReadHistoryData;
use crate::storages::save_data::StorageError;

verus! {

use crate::text::min16;
use crate::text::sat_add16;
use crate::text::sat_sub16;

/// The last selectable row: the item count less one, saturated at zero and
/// truncated to 16 bits, exactly as the selection arithmetic computes it.
pub open spec fn last_row(len: nat) -> u16 {
    (if len >= 1 {
        (len - 1) as nat
    } else {
        0
    }) as u16
}

/// A key the list panel reacts to.
#[derive(Clone, Copy, PartialEq, Eq, Structural, Debug)]
pub enum ListKey {
    Down,
    Up,
    PageBack,
    PageForward,
    NextTopic,
    PrevTopic,
}

/// The story-list panel's state.
pub struct ListBlock {
    pub data: Vec<ItemResponse>,
    pub selected: u16,
    pub topic: StoryType,
    pub focus: bool,
    pub list_top_cursor: u16,
    pub loading: Loading,
    pub height: u16,
    pub readed_history: ReadHistory,
}

impl ListBlock {
    /// The index of the first visible row.
    pub closed spec fn cursor(self) -> u16 {
        self.list_top_cursor
    }

    /// The height of the list area, as the last draw measured it.
    pub closed spec fn spec_height(self) -> u16 {
        self.height
    }

    /// Whether a fetch is in flight.
    pub closed spec fn spec_loading(self) -> bool {
        self.loading.loading()
    }

    /// The read-history record the panel consults and feeds.
    pub closed spec fn history(self) -> ReadHistory {
        self.readed_history
    }

    pub closed spec fn wf(self) -> bool {
        self.loading.wf() && self.readed_history.wf()
    }

    /// An empty panel on the Show topic, loading, with a read history
    /// capped at 100 ids per topic.
    pub fn new(focus: bool) -> (r: Self)
        ensures
            r.wf(),
            r.data@ == Seq::<ItemResponse>::empty(),
            r.selected == 0,
            r.topic == StoryType::Show,
            r.focus == focus,
            r.cursor() == 0,
            r.spec_height() == 0,
            r.spec_loading(),
            r.history().cap() == 100,
            forall|t: StoryType| #[trigger] r.history().doc().spec_ids(t) == Seq::<usize>::empty(),
    {
        ListBlock {
            data: Vec::new(),
            topic: StoryType::Show,
            focus,
            selected: 0,
            list_top_cursor: 0,
            height: 0,
            loading: Loading::new(),
            readed_history: ReadHistory::new(100),
        }
    }

    pub fn is_loading(&self) -> (r: bool)
        ensures
            r == self.spec_loading(),
    {
        self.loading.is_loading()
    }

    /// Moves to the next topic in the fixed cycle.
    pub fn next_topic(&mut self)
        ensures
            *final(self) == (ListBlock { topic: old(self).topic.spec_next(), ..*old(self) }),
    {
        self.topic = match self.topic {
            StoryType::Show => StoryType::Best,
            StoryType::Best => StoryType::Jobs,
            StoryType::Jobs => StoryType::Top,
            StoryType::Top => StoryType::New,
            StoryType::New => StoryType::Show,
        };
    }

    /// Moves to the previous topic in the fixed cycle.
    pub fn prev_topic(&mut self)
        ensures
            *final(self) == (ListBlock { topic: old(self).topic.spec_prev(), ..*old(self) }),
    {
        self.topic = match self.topic {
            StoryType::Show => StoryType::New,
            StoryType::New => StoryType::Top,
            StoryType::Top => StoryType::Jobs,
            StoryType::Jobs => StoryType::Best,
            StoryType::Best => StoryType::Show,
        };
    }

    /// Installs a freshly fetched item list: selection and window return to
    /// the top and the spinner stops.
    pub fn set_data(&mut self, data: Vec<ItemResponse>)
        requires
            old(self).wf(),
        ensures
            final(self).wf(),
            final(self).data == data,
            final(self).selected == 0,
            final(self).cursor() == 0,
            !final(self).spec_loading(),
            final(self).topic == old(self).topic,
            final(self).focus == old(self).focus,
            final(self).spec_height() == old(self).spec_height(),
            final(self).history() == old(self).history(),
    {
        self.data = data;
        self.selected = 0;
        self.list_top_cursor = 0;
        self.loading.set_loading(false);
    }

    /// Drops the items, moves the selection to the top, and starts the
    /// spinner; the window cursor keeps its place.
    pub fn reset(&mut self)
        requires
            old(self).wf(),
        ensures
            final(self).wf(),
            final(self).data@ == Seq::<ItemResponse>::empty(),
            final(self).selected == 0,
            final(self).spec_loading(),
            final(self).topic == old(self).topic,
            final(self).focus == old(self).focus,
            final(self).cursor() == old(self).cursor(),
            final(self).spec_height() == old(self).spec_height(),
            final(self).history() == old(self).history(),
    {
        self.loading.set_loading(true);
        self.data.clear();
        self.selected = 0;
    }

    /// Records the selected item as read for the current topic. The caller
    /// persists the updated history afterwards.
    pub fn set_read(&mut self) -> (r: Result<(), StorageError>)
        requires
            old(self).wf(),
            (old(self).selected as int) < old(self).data@.len(),
        ensures
            r is Ok,
            final(self).wf(),
            final(self).history().cap() == old(self).history().cap(),
            final(self).history().doc().spec_ids(old(self).topic) == spec_add_read(
                old(self).history().doc().spec_ids(old(self).topic),
                old(self).data@[old(self).selected as int].id,
                old(self).history().cap() as int,
            ),
            forall|t: StoryType|
                t != old(self).topic ==> #[trigger] final(self).history().doc().spec_ids(t) == old(
                    self,
                ).history().doc().spec_ids(t),
            final(self).data == old(self).data,
            final(self).selected == old(self).selected,
            final(self).topic == old(self).topic,
            final(self).focus == old(self).focus,
            final(self).cursor() == old(self).cursor(),
            final(self).spec_height() == old(self).spec_height(),
            final(self).spec_loading() == old(self).spec_loading(),
    {
        let current_id = self.data[self.selected as usize].id;
        self.readed_history.add_read_item(self.topic, current_id)
    }

    /// Whether an item is recorded as read for the current topic.
    pub fn is_read(&self, item_id: usize) -> (r: bool)
        ensures
            r == self.history().spec_is_read(self.topic, item_id),
    {
        self.readed_history.id_is_readed(self.topic, item_id)
    }

    /// A copy of the read-history document, for persisting.
    pub fn history_snapshot(&self) -> (r: ReadHistoryData)
        ensures
            forall|t: StoryType| #[trigger] r.spec_ids(t) == self.history().doc().spec_ids(t),
    {
        self.readed_history.snapshot()
    }

    /// Replaces the read-history document, as after a reload from disk.
    pub fn history_restore(&mut self, doc: ReadHistoryData)
        requires
            old(self).wf(),
            doc.wf(),
        ensures
            final(self).wf(),
            final(self).history().doc() == doc,
            final(self).history().cap() == old(self).history().cap(),
            final(self).data == old(self).data,
            final(self).selected == old(self).selected,
            final(self).topic == old(self).topic,
            final(self).focus == old(self).focus,
            final(self).cursor() == old(self).cursor(),
            final(self).spec_height() == old(self).spec_height(),
            final(self).spec_loading() == old(self).spec_loading(),
    {
        self.readed_history.restore(doc);
    }

    /// Stores the list area's height, measured by the draw pass.
    pub fn set_height(&mut self, height: u16)
        ensures
            *final(self) == (ListBlock { height, ..*old(self) }),
    {
        self.height = height;
    }

    /// Applies one key of the list panel's keymap to the selection and the
    /// visible window.
    pub fn apply_key(&mut self, key: ListKey)
        requires
            (key == ListKey::PageBack || key == ListKey::PageForward) ==> old(self).spec_height()
                >= 1,
        ensures
            final(self).data == old(self).data,
            final(self).focus == old(self).focus,
            final(self).spec_height() == old(self).spec_height(),
            final(self).spec_loading() == old(self).spec_loading(),
            final(self).history() == old(self).history(),
            final(self).wf() == old(self).wf(),
            match key {
                ListKey::Down => {
                    &&& final(self).topic == old(self).topic
                    &&& final(self).selected == min16(
                        sat_add16(old(self).selected, 1),
                        last_row(old(self).data@.len()),
                    )
                    &&& final(self).cursor() == if final(self).selected as int >= old(
                        self,
                    ).cursor() as int + old(self).spec_height() as int {
                        sat_add16(old(self).cursor(), 1)
                    } else {
                        old(self).cursor()
                    }
                },
                ListKey::Up => {
                    &&& final(self).topic == old(self).topic
                    &&& final(self).selected == sat_sub16(old(self).selected, 1)
                    &&& final(self).cursor() == if final(self).selected < old(self).cursor() {
                        sat_sub16(old(self).cursor(), 1)
                    } else {
                        old(self).cursor()
                    }
                },
                ListKey::PageBack => {
                    &&& final(self).topic == old(self).topic
                    &&& final(self).selected == sat_sub16(
                        old(self).selected,
                        (old(self).spec_height() - 1) as u16,
                    )
                    &&& final(self).cursor() == min16(
                        final(self).selected,
                        last_row(old(self).data@.len()),
                    )
                },
                ListKey::PageForward => {
                    &&& final(self).topic == old(self).topic
                    &&& final(self).selected == min16(
                        sat_add16(old(self).selected, (old(self).spec_height() - 1) as u16),
                        last_row(old(self).data@.len()),
                    )
                    &&& final(self).cursor() == min16(
                        sat_sub16(final(self).selected, (old(self).spec_height() - 1) as u16),
                        last_row(old(self).data@.len()),
                    )
                },
                ListKey::NextTopic => {
                    &&& final(self).topic == old(self).topic.spec_next()
                    &&& final(self).selected == old(self).selected
                    &&& final(self).cursor() == old(self).cursor()
                },
                ListKey::PrevTopic => {
                    &&& final(self).topic == old(self).topic.spec_prev()
                    &&& final(self).selected == old(self).selected
                    &&& final(self).cursor() == old(self).cursor()
                },
            },
    {
        match key {
            ListKey::Down => {
                let cap = self.data.len().saturating_sub(1);
                let cap16: u16 = cap as u16;
                let up = self.selected.saturating_add(1);
                self.selected = if up <= cap16 {
                    up
                } else {
                    cap16
                };
                if self.selected as u32 >= self.list_top_cursor as u32 + self.height as u32 {
                    self.list_top_cursor = self.list_top_cursor.saturating_add(1);
                }
            },
            ListKey::Up => {
                self.selected = self.selected.saturating_sub(1);
                if self.selected < self.list_top_cursor {
                    self.list_top_cursor = self.list_top_cursor.saturating_sub(1);
                }
            },
            ListKey::PageBack => {
                self.selected = self.selected.saturating_sub(self.height - 1);
                let cap16: u16 = self.data.len().saturating_sub(1) as u16;
                self.list_top_cursor = if self.selected <= cap16 {
                    self.selected
                } else {
                    cap16
                };
            },
            ListKey::PageForward => {
                let cap16: u16 = self.data.len().saturating_sub(1) as u16;
                let up = self.selected.saturating_add(self.height - 1);
                self.selected = if up <= cap16 {
                    up
                } else {
                    cap16
                };
                let back = self.selected.saturating_sub(self.height - 1);
                self.list_top_cursor = if back <= cap16 {
                    back
                } else {
                    cap16
                };
            },
            ListKey::NextTopic => {
                self.next_topic();
            },
            ListKey::PrevTopic => {
                self.prev_topic();
            },
        }
    }
}

} // verus!
