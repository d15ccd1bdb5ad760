//! The article panel: the selected story, its formatted text, scrolling,
//! and the embedded comment panel.

use vstd::prelude::*;
use vstd::string::StringExecFns;
use vstd::string::StringSliceAdditionalSpecFns;

use crate::get_items::deep_eq;
use crate::get_items::item_eq;
use crate::get_items::ItemResponse;
use crate::panels::comment::Comment;
use crate::render::article_text_of;
use crate::render::format_timestamp;
use crate::render::render_article;
use crate::render::timestamp_text;
use crate::text::sat_add16;
use crate::text::sat_sub16;
use crate::text::spec_wrapped_height;
use crate::text::wrapped_height;

verus! {

/// Content equality of two optional items.
pub open spec fn spec_opt_deep_eq(a: Option<ItemResponse>, b: Option<ItemResponse>) -> bool {
    match (a, b) {
        (Option::None, Option::None) => true,
        (Option::Some(x), Option::Some(y)) => deep_eq(x, y),
        _ => false,
    }
}

/// Decides content equality of two optional items.
pub fn opt_item_eq(a: &Option<ItemResponse>, b: &Option<ItemResponse>) -> (r: bool)
    ensures
        r == spec_opt_deep_eq(*a, *b),
{
    match (a, b) {
        (Option::None, Option::None) => true,
        (Option::Some(x), Option::Some(y)) => item_eq(x, y),
        _ => false,
    }
}

pub open spec fn spec_title_text(item: ItemResponse) -> Seq<char> {
    match item.title {
        Option::Some(t) => t@,
        Option::None => "No title"@,
    }
}

pub open spec fn spec_author_text(item: ItemResponse) -> Seq<char> {
    match item.by {
        Option::Some(b) => b@,
        Option::None => "Unknown"@,
    }
}

pub open spec fn spec_url_text(item: ItemResponse) -> Seq<char> {
    match item.url {
        Option::Some(u) => u@,
        Option::None => "No URL"@,
    }
}

/// The HTML source of the article body.
pub open spec fn spec_body_source(item: ItemResponse) -> Seq<char> {
    match item.text {
        Option::Some(t) => t@,
        Option::None => "No content available"@,
    }
}

/// The shown article text at panel width `width`: title, author, time and
/// URL header lines, then the body rendered two columns narrower; where
/// rendering fails the body source is shown as it stands.
pub open spec fn spec_content(data: Option<ItemResponse>, width: u16) -> Seq<char>
    recommends
        width >= 2,
{
    match data {
        Option::None => "No article selected"@,
        Option::Some(item) => "Title: "@ + spec_title_text(item) + "\nAuthor: "@
            + spec_author_text(item) + "\nTime: "@ + timestamp_text(item.time as u64) + "\nURL: "@
            + spec_url_text(item) + "\n\n"@ + (match article_text_of(
            spec_body_source(item),
            (width - 2) as usize,
        ) {
            Option::Some(t) => t,
            Option::None => spec_body_source(item),
        }),
    }
}

/// The rows the shown article text occupies at panel width `width`.
pub open spec fn spec_content_height(data: Option<ItemResponse>, width: u16) -> u16
    recommends
        width >= 2,
{
    spec_wrapped_height(vstd::utf8::encode_utf8(spec_content(data, width)), width)
}

/// What formatting a shown article requires: a usable panel width, and a
/// timestamp within the formatter's range.
pub open spec fn content_safe(data: Option<ItemResponse>, width: u16) -> bool {
    &&& width >= 2
    &&& match data {
        Option::Some(item) => item.time as int <= 8_000_000_000_000,
        Option::None => true,
    }
}

/// The article panel's state.
pub struct Article {
    pub data: Option<ItemResponse>,
    pub focus: bool,
    pub scroll_offset: u16,
    pub scroll_offset_backup: u16,
    pub block_height: u16,
    pub block_width: u16,
    pub comment: Comment,
}

impl Article {
    pub closed spec fn offset(self) -> u16 {
        self.scroll_offset
    }

    pub closed spec fn offset_backup(self) -> u16 {
        self.scroll_offset_backup
    }

    /// The panel's text area height, as the last draw measured it.
    pub closed spec fn spec_height(self) -> u16 {
        self.block_height
    }

    /// The panel's text area width, as the last draw measured it.
    pub closed spec fn spec_width(self) -> u16 {
        self.block_width
    }

    /// The embedded comment panel.
    pub closed spec fn spec_comment(self) -> Comment {
        self.comment
    }

    pub fn new(data: Option<ItemResponse>, focus: bool) -> (r: Self)
        ensures
            r.data == data,
            r.focus == focus,
            r.offset() == 0,
            r.offset_backup() == 0,
            r.spec_height() == 0,
            r.spec_width() == 0,
            r.spec_comment().spec_ids() == Seq::<usize>::empty(),
            r.spec_comment().spec_data() is None,
            !r.spec_comment().focus,
    {
        let ids: Vec<usize> = Vec::new();
        Article {
            data,
            focus,
            scroll_offset: 0,
            scroll_offset_backup: 0,
            block_height: 0,
            block_width: 0,
            comment: Comment::new(ids),
        }
    }

    /// Installs a newly selected story. The same story (by content) changes
    /// nothing — the scroll position survives a republish of identical
    /// data; a different one resets the scroll position and gives the
    /// comment panel the story's child ids.
    pub fn set_data(&mut self, data: Option<ItemResponse>)
        ensures
            spec_opt_deep_eq(old(self).data, data) ==> *final(self) == *old(self),
            !spec_opt_deep_eq(old(self).data, data) ==> {
                &&& final(self).data == data
                &&& final(self).offset() == 0
                &&& final(self).spec_comment().spec_ids() == (match data {
                    Option::Some(item) => match item.kids {
                        Option::Some(kids) => kids@,
                        Option::None => Seq::<usize>::empty(),
                    },
                    Option::None => Seq::<usize>::empty(),
                })
                &&& final(self).spec_comment().spec_data() is None
                &&& !final(self).spec_comment().focus
                &&& final(self).focus == old(self).focus
                &&& final(self).offset_backup() == old(self).offset_backup()
                &&& final(self).spec_height() == old(self).spec_height()
                &&& final(self).spec_width() == old(self).spec_width()
            },
    {
        if opt_item_eq(&self.data, &data) {
            return;
        }
        let kids: Vec<usize> = match &data {
            Option::Some(item) => match &item.kids {
                Option::Some(k) => crate::get_items::clone_ids(k),
                Option::None => Vec::new(),
            },
            Option::None => Vec::new(),
        };
        self.comment = Comment::new(kids);
        self.data = data;
        self.scroll_offset = 0;
    }

    /// The shown article text, exactly as the draw pass renders it.
    pub fn generate_content(&self) -> (r: String)
        requires
            content_safe(self.data, self.spec_width()),
        ensures
            r@ == spec_content(self.data, self.spec_width()),
    {
        match &self.data {
            Option::None => String::from_str("No article selected"),
            Option::Some(item) => {
                let mut s = String::from_str("Title: ");
                match &item.title {
                    Option::Some(t) => s.append(t.as_str()),
                    Option::None => s.append("No title"),
                }
                s.append("\nAuthor: ");
                match &item.by {
                    Option::Some(b) => s.append(b.as_str()),
                    Option::None => s.append("Unknown"),
                }
                s.append("\nTime: ");
                let ts = format_timestamp(item.time as u64);
                s.append(ts.as_str());
                s.append("\nURL: ");
                match &item.url {
                    Option::Some(u) => s.append(u.as_str()),
                    Option::None => s.append("No URL"),
                }
                s.append("\n\n");
                let src: &str = match &item.text {
                    Option::Some(t) => t.as_str(),
                    Option::None => "No content available",
                };
                let rendered = render_article(src, (self.block_width - 2) as usize);
                match rendered {
                    Option::Some(t) => s.append(t.as_str()),
                    Option::None => s.append(src),
                }
                proof {
                    assert(s@ =~= spec_content(self.data, self.spec_width()));
                }
                s
            },
        }
    }

    /// Scrolls one line up, or one line down while more content remains
    /// below the text area.
    pub fn scroll(&mut self, up: bool)
        requires
            content_safe(old(self).data, old(self).spec_width()),
        ensures
            final(self).offset() == (if up {
                sat_sub16(old(self).offset(), 1)
            } else {
                if old(self).offset() + old(self).spec_height() < spec_content_height(
                    old(self).data,
                    old(self).spec_width(),
                ) {
                    sat_add16(old(self).offset(), 1)
                } else {
                    old(self).offset()
                }
            }),
            final(self).data == old(self).data,
            final(self).focus == old(self).focus,
            final(self).offset_backup() == old(self).offset_backup(),
            final(self).spec_height() == old(self).spec_height(),
            final(self).spec_width() == old(self).spec_width(),
            final(self).spec_comment() == old(self).spec_comment(),
    {
        let content = self.generate_content();
        let content_height = wrapped_height(content.as_str(), self.block_width);
        self.scroll_offset = if up {
            self.scroll_offset.saturating_sub(1)
        } else if (self.scroll_offset as u32) + (self.block_height as u32) < (content_height
            as u32) {
            self.scroll_offset.saturating_add(1)
        } else {
            self.scroll_offset
        };
    }

    /// Stores the text area's size, measured by the draw pass.
    pub fn set_area(&mut self, width: u16, height: u16)
        ensures
            *final(self) == (Article { block_width: width, block_height: height, ..*old(self) }),
    {
        self.block_width = width;
        self.block_height = height;
    }

    /// Saves the article scroll position and hands the focus to the
    /// comment panel, as when the comment view opens.
    pub fn enter_comments(&mut self)
        ensures
            final(self).offset() == 0,
            final(self).offset_backup() == old(self).offset(),
            final(self).data == old(self).data,
            final(self).focus == old(self).focus,
            final(self).spec_height() == old(self).spec_height(),
            final(self).spec_width() == old(self).spec_width(),
            final(self).spec_comment() == old(self).spec_comment(),
    {
        self.scroll_offset_backup = self.scroll_offset;
        self.scroll_offset = 0;
    }

    /// Restores the article scroll position saved when the comment view
    /// opened.
    pub fn leave_comments(&mut self)
        ensures
            final(self).offset() == old(self).offset_backup(),
            final(self).offset_backup() == 0,
            final(self).data == old(self).data,
            final(self).focus == old(self).focus,
            final(self).spec_height() == old(self).spec_height(),
            final(self).spec_width() == old(self).spec_width(),
            final(self).spec_comment() == old(self).spec_comment(),
    {
        self.scroll_offset = self.scroll_offset_backup;
        self.scroll_offset_backup = 0;
    }

    /// The embedded comment panel, for the draw and event passes.
    pub fn comment_mut(&mut self) -> (r: &mut Comment)
        ensures
            *r == old(self).spec_comment(),
            *final(self) == (Article { comment: *final(r), ..*old(self) }),
    {
        &mut self.comment
    }

    /// The embedded comment panel, read-only.
    pub fn comment(&self) -> (r: &Comment)
        ensures
            *r == self.spec_comment(),
    {
        &self.comment
    }
}

} // verus!
