//! The earlier article block: the selected story, its formatted text, and
//! scrolling with a two-row padding below the content.

use vstd::prelude::*;
use vstd::string::StringExecFns;
use vstd::string::StringSliceAdditionalSpecFns;

use crate::get_items::ItemResponse;
use crate::panels::article::spec_author_text;
use crate::panels::article::spec_body_source;
use crate::panels::article::spec_opt_deep_eq;
use crate::panels::article::spec_title_text;
use crate::panels::article::spec_url_text;
use crate::panels::article::opt_item_eq;
use crate::render::format_timestamp;
use crate::render::plain_text_of;
use crate::render::render_plain;
use crate::render::timestamp_text;
use crate::text::sat_add16;
use crate::text::sat_sub16;
use crate::text::spec_wrapped_height;
use crate::text::wrapped_height;

verus! {

/// The shown article text at panel width `width`: title, author, time and
/// URL header lines, then the body rendered at the full width; where
/// rendering fails the body source is shown as it stands.
pub open spec fn spec_content(data: Option<ItemResponse>, width: u16) -> Seq<char>
    recommends
        width >= 1,
{
    match data {
        Option::None => "No article selected"@,
        Option::Some(item) => "Title: "@ + spec_title_text(item) + "\nAuthor: "@
            + spec_author_text(item) + "\nTime: "@ + timestamp_text(item.time as u64) + "\nURL: "@
            + spec_url_text(item) + "\n\n"@ + (match plain_text_of(
            spec_body_source(item),
            width as usize,
        ) {
            Option::Some(t) => t,
            Option::None => spec_body_source(item),
        }),
    }
}

/// The rows the shown article text occupies at width `width`, plus the
/// two-row padding this block keeps below the content.
pub open spec fn spec_content_height(data: Option<ItemResponse>, width: u16) -> int
    recommends
        width >= 1,
{
    spec_wrapped_height(vstd::utf8::encode_utf8(spec_content(data, width)), width) + 2
}

/// What formatting a shown article requires: a usable panel width, and a
/// timestamp within the formatter's range.
pub open spec fn content_safe(data: Option<ItemResponse>, width: u16) -> bool {
    &&& width >= 1
    &&& match data {
        Option::Some(item) => item.time as int <= 8_000_000_000_000,
        Option::None => true,
    }
}

/// The earlier article block's state.
pub struct Article {
    pub data: Option<ItemResponse>,
    pub focus: bool,
    pub scroll_offset: u16,
    pub block_height: u16,
    pub block_width: u16,
}

impl Article {
    pub closed spec fn offset(self) -> u16 {
        self.scroll_offset
    }

    /// The block's height, as the last draw measured it.
    pub closed spec fn spec_height(self) -> u16 {
        self.block_height
    }

    /// The block's width, as the last draw measured it.
    pub closed spec fn spec_width(self) -> u16 {
        self.block_width
    }

    pub fn new(data: Option<ItemResponse>, focus: bool, scroll_offset: u16) -> (r: Self)
        ensures
            r.data == data,
            r.focus == focus,
            r.offset() == scroll_offset,
            r.spec_height() == 0,
            r.spec_width() == 0,
    {
        Article { data, focus, scroll_offset, block_height: 0, block_width: 0 }
    }

    /// Installs a newly selected story. The same story (by content) changes
    /// nothing; a different one resets the scroll position.
    pub fn set_data(&mut self, data: Option<ItemResponse>)
        ensures
            spec_opt_deep_eq(old(self).data, data) ==> *final(self) == *old(self),
            !spec_opt_deep_eq(old(self).data, data) ==> {
                &&& final(self).data == data
                &&& final(self).offset() == 0
                &&& final(self).focus == old(self).focus
                &&& final(self).spec_height() == old(self).spec_height()
                &&& final(self).spec_width() == old(self).spec_width()
            },
    {
        if opt_item_eq(&self.data, &data) {
            return;
        }
        self.data = data;
        self.scroll_offset = 0;
    }

    /// The shown article text, exactly as the draw pass renders it.
    pub fn generate_content(&self) -> (r: String)
        requires
            content_safe(self.data, self.spec_width()),
        ensures
            r@ == spec_content(self.data, self.spec_width()),
    {
        match &self.data {
            Option::None => String::from_str("No article selected"),
            Option::Some(item) => {
                let mut s = String::from_str("Title: ");
                match &item.title {
                    Option::Some(t) => s.append(t.as_str()),
                    Option::None => s.append("No title"),
                }
                s.append("\nAuthor: ");
                match &item.by {
                    Option::Some(b) => s.append(b.as_str()),
                    Option::None => s.append("Unknown"),
                }
                s.append("\nTime: ");
                let ts = format_timestamp(item.time as u64);
                s.append(ts.as_str());
                s.append("\nURL: ");
                match &item.url {
                    Option::Some(u) => s.append(u.as_str()),
                    Option::None => s.append("No URL"),
                }
                s.append("\n\n");
                let src: &str = match &item.text {
                    Option::Some(t) => t.as_str(),
                    Option::None => "No content available",
                };
                let rendered = render_plain(src, self.block_width as usize);
                match rendered {
                    Option::Some(t) => s.append(t.as_str()),
                    Option::None => s.append(src),
                }
                proof {
                    assert(s@ =~= spec_content(self.data, self.spec_width()));
                }
                s
            },
        }
    }

    /// Scrolls one line up, or one line down while content (plus the
    /// two-row padding) remains below the block.
    pub fn scroll(&mut self, up: bool)
        requires
            content_safe(old(self).data, old(self).spec_width()),
        ensures
            final(self).offset() == (if up {
                sat_sub16(old(self).offset(), 1)
            } else {
                if old(self).offset() + old(self).spec_height() < spec_content_height(
                    old(self).data,
                    old(self).spec_width(),
                ) + 2 {
                    sat_add16(old(self).offset(), 1)
                } else {
                    old(self).offset()
                }
            }),
            final(self).data == old(self).data,
            final(self).focus == old(self).focus,
            final(self).spec_height() == old(self).spec_height(),
            final(self).spec_width() == old(self).spec_width(),
    {
        let content = self.generate_content();
        let wrapped = wrapped_height(content.as_str(), self.block_width);
        self.scroll_offset = if up {
            self.scroll_offset.saturating_sub(1)
        } else if (self.scroll_offset as u32) + (self.block_height as u32) < (wrapped as u32)
            + 4 {
            self.scroll_offset.saturating_add(1)
        } else {
            self.scroll_offset
        };
    }

    /// Stores the block's size, measured by the draw pass.
    pub fn set_area(&mut self, width: u16, height: u16)
        ensures
            *final(self) == (Article { block_width: width, block_height: height, ..*old(self) }),
    {
        self.block_width = width;
        self.block_height = height;
    }
}

} // verus!
