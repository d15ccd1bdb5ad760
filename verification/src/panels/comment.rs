//! The comment panel: the root comment ids of the shown article, the
//! comment trees fetched so far, and a scroll position.

use vstd::prelude::*;
use vstd::string::StringExecFns;
use vstd::string::StringSliceAdditionalSpecFns;

use crate::get_items::ItemResponse;

verus! {

use crate::render::decode_entities;
use crate::render::decoded_entities;
use crate::render::render_rich;
use crate::render::rich_text_of;
use crate::text::repeat_spaces;
use crate::text::sat_add16;
use crate::text::sat_sub16;
use crate::text::spec_wrapped_height;
use crate::text::wrapped_height;

/// Saturating 16-bit signed addition (used with non-negative values only).
pub open spec fn sat_add_i16(a: i16, b: i16) -> i16 {
    if a + b > i16::MAX {
        i16::MAX
    } else {
        (a + b) as i16
    }
}

/// `n` spaces for a non-negative indent, none otherwise.
pub open spec fn spec_indent_spaces(n: i16) -> Seq<char> {
    Seq::new(
        (if n >= 0 {
            n as int
        } else {
            0
        }) as nat,
        |i: int| ' ',
    )
}

/// One comment node's assembled text: the indent, the author between
/// escaped angle brackets, the entity-decoded body, and each materialized
/// child on its own line, indented two more columns (the indent saturates
/// instead of growing without bound).
pub open spec fn spec_format_node(item: ItemResponse, indent: i16) -> Seq<char>
    decreases item, 0int,
{
    let line = spec_indent_spaces(indent) + "&lt;&lt;"@ + (match item.by {
        Option::Some(b) => b@,
        Option::None => Seq::<char>::empty(),
    }) + "&gt;&gt;: "@ + decoded_entities(
        match item.text {
            Option::Some(t) => t@,
            Option::None => Seq::<char>::empty(),
        },
    );
    match item.children {
        Option::Some(cs) => line + "\n"@ + spec_format_children(
            cs@,
            sat_add_i16(indent, 2),
            cs@.len() as int,
        ),
        Option::None => line,
    }
}

/// The texts of the first `upto` children, joined by line breaks.
pub open spec fn spec_format_children(cs: Seq<ItemResponse>, indent: i16, upto: int) -> Seq<char>
    decreases cs, upto,
{
    if upto <= 0 || upto > cs.len() {
        Seq::empty()
    } else if upto == 1 {
        spec_format_node(cs[0], indent)
    } else {
        spec_format_children(cs, indent, upto - 1) + "\n"@ + spec_format_node(cs[upto - 1], indent)
    }
}

/// What the comment formatter returns: with an explicit indent, the node's
/// assembled text; at the top level, that text wrapped in a `pre` element
/// and rendered rich — or, where rendering fails, the assembled text as it
/// stands.
pub open spec fn spec_formater(item: ItemResponse, max_width: usize, indent: Option<i16>) -> Seq<
    char,
> {
    match indent {
        Option::Some(i) => spec_format_node(item, i),
        Option::None => {
            let text = spec_format_node(item, 0);
            match rich_text_of("<pre>"@ + text + "</pre>"@, max_width) {
                Option::Some(t) => t,
                Option::None => text,
            }
        },
    }
}

fn format_node(item: &ItemResponse, indent: i16) -> (r: String)
    requires
        indent >= 0,
    ensures
        r@ == spec_format_node(*item, indent),
    decreases *item, 0int,
{
    let mut s = repeat_spaces(indent as usize);
    proof {
        assert(s@ =~= spec_indent_spaces(indent));
        reveal_strlit("");
        assert(""@ =~= Seq::<char>::empty());
    }
    s.append("&lt;&lt;");
    match &item.by {
        Option::Some(b) => s.append(b.as_str()),
        Option::None => {},
    }
    s.append("&gt;&gt;: ");
    let decoded = match &item.text {
        Option::Some(t) => decode_entities(t.as_str()),
        Option::None => decode_entities(""),
    };
    s.append(decoded.as_str());
    let ghost line = s@;
    match &item.children {
        Option::None => {
            proof {
                assert(s@ =~= spec_format_node(*item, indent));
            }
            s
        },
        Option::Some(cs) => {
            s.append("\n");
            let ghost head = s@;
            let ind2: i16 = if indent > i16::MAX - 2 {
                i16::MAX
            } else {
                indent + 2
            };
            let mut acc = String::new();
            let mut i: usize = 0;
            while i < cs.len()
                invariant
                    i <= cs@.len(),
                    indent >= 0,
                    ind2 >= 0,
                    ind2 == sat_add_i16(indent, 2),
                    item.children matches Option::Some(v) && v == *cs,
                    acc@ == spec_format_children(cs@, ind2, i as int),
                decreases cs@.len() - i,
            {
                proof {
                    assert(decreases_to!(*item => cs@[i as int]));
                }
                let child = format_node(&cs[i], ind2);
                if i == 0 {
                    acc = child;
                } else {
                    acc.append("\n");
                    acc.append(child.as_str());
                    proof {
                        assert(acc@ =~= spec_format_children(cs@, ind2, i + 1));
                    }
                }
                i += 1;
            }
            s.append(acc.as_str());
            proof {
                assert(s@ =~= spec_format_node(*item, indent));
            }
            s
        },
    }
}

/// The comment panel's state.
#[derive(Debug)]
pub struct Comment {
    pub ids: Vec<usize>,
    pub data: Option<Vec<ItemResponse>>,
    pub scroll_offset: u16,
    pub content_height: u16,
    pub block_width: u16,
    pub focus: bool,
}

impl Comment {
    /// The root comment ids of the shown article.
    pub closed spec fn spec_ids(self) -> Seq<usize> {
        self.ids@
    }

    /// The comment trees received so far, in arrival order; `None` until
    /// the first tree arrives.
    pub closed spec fn spec_data(self) -> Option<Seq<ItemResponse>> {
        match self.data {
            Option::None => Option::None,
            Option::Some(v) => Option::Some(v@),
        }
    }

    pub closed spec fn offset(self) -> u16 {
        self.scroll_offset
    }

    /// The rendered content height, as the last draw measured it.
    pub closed spec fn spec_content_height(self) -> u16 {
        self.content_height
    }

    pub closed spec fn spec_width(self) -> u16 {
        self.block_width
    }

    /// A panel for these root comment ids, with nothing fetched yet.
    pub fn new(ids: Vec<usize>) -> (r: Self)
        ensures
            r.spec_ids() == ids@,
            r.spec_data() is None,
            r.offset() == 0,
            r.spec_content_height() == 0,
            r.spec_width() == 0,
            !r.focus,
    {
        Comment {
            ids,
            scroll_offset: 0,
            content_height: 0,
            block_width: 0,
            focus: false,
            data: Option::None,
        }
    }

    /// Scrolls one line up or down; downward movement stops at the measured
    /// content height.
    pub fn scroll(&mut self, up: bool)
        ensures
            final(self).offset() == if up {
                sat_sub16(old(self).offset(), 1)
            } else {
                let down = sat_add16(old(self).offset(), 1);
                if down <= old(self).spec_content_height() {
                    down
                } else {
                    old(self).spec_content_height()
                }
            },
            final(self).spec_ids() == old(self).spec_ids(),
            final(self).spec_data() == old(self).spec_data(),
            final(self).spec_content_height() == old(self).spec_content_height(),
            final(self).spec_width() == old(self).spec_width(),
            final(self).focus == old(self).focus,
    {
        self.scroll_offset = if up {
            self.scroll_offset.saturating_sub(1)
        } else {
            let down = self.scroll_offset.saturating_add(1);
            if down <= self.content_height {
                down
            } else {
                self.content_height
            }
        };
    }

    /// Takes one arriving comment tree into the shown list: the first tree
    /// starts the list, a tree whose root id is already shown is dropped,
    /// any other tree is appended.
    pub fn merge_comment(&mut self, item: ItemResponse)
        ensures
            final(self).spec_ids() == old(self).spec_ids(),
            final(self).offset() == old(self).offset(),
            final(self).spec_content_height() == old(self).spec_content_height(),
            final(self).spec_width() == old(self).spec_width(),
            final(self).focus == old(self).focus,
            match old(self).spec_data() {
                Option::None => final(self).spec_data() == Option::Some(seq![item]),
                Option::Some(shown) => {
                    if forall|k: int| 0 <= k < shown.len() ==> (#[trigger] shown[k]).id != item.id {
                        final(self).spec_data() == Option::Some(shown.push(item))
                    } else {
                        final(self).spec_data() == old(self).spec_data()
                    }
                },
            },
    {
        match &mut self.data {
            Option::None => {
                let mut v: Vec<ItemResponse> = Vec::new();
                v.push(item);
                proof {
                    assert(v@ =~= seq![item]);
                }
                self.data = Option::Some(v);
            },
            Option::Some(shown) => {
                let mut k: usize = 0;
                let mut seen = false;
                while k < shown.len()
                    invariant
                        k <= shown@.len(),
                        seen == exists|j: int| 0 <= j < k && (#[trigger] shown@[j]).id == item.id,
                    decreases shown@.len() - k,
                {
                    if shown[k].id == item.id {
                        seen = true;
                    }
                    k += 1;
                }
                if !seen {
                    shown.push(item);
                }
            },
        }
    }

    /// Formats one comment tree: with an explicit indent, the assembled
    /// text of the node and its children; at the top level (no indent),
    /// that text wrapped in a `pre` element and rendered rich to
    /// `max_width` columns.
    pub fn formater(&self, item: &ItemResponse, max_width: usize, indent: Option<i16>) -> (r:
        String)
        requires
            indent matches Some(i) ==> i >= 0,
        ensures
            r@ == spec_formater(*item, max_width, indent),
    {
        match indent {
            Option::Some(i) => format_node(item, i),
            Option::None => {
                let text = format_node(item, 0);
                let mut wrapped = String::from_str("<pre>");
                wrapped.append(text.as_str());
                wrapped.append("</pre>");
                match render_rich(wrapped.as_str(), max_width) {
                    Option::Some(t) => t,
                    Option::None => text,
                }
            },
        }
    }

    /// Renders all fetched comment trees to one text, as the draw pass
    /// shows it, and measures the panel: the text area is two columns
    /// narrower than the handed width, and the content height is the
    /// rendered text's wrapped row count.
    pub fn measure(&mut self, rect_width: u16) -> (content: String)
        requires
            rect_width >= 3,
        ensures
            content@ == spec_comment_content(
                old(self).spec_data(),
                (rect_width - 2) as usize,
            ),
            final(self).spec_width() == rect_width - 2,
            final(self).spec_content_height() == spec_wrapped_height(
                vstd::utf8::encode_utf8(content@),
                (rect_width - 2) as u16,
            ),
            final(self).spec_ids() == old(self).spec_ids(),
            final(self).spec_data() == old(self).spec_data(),
            final(self).offset() == old(self).offset(),
            final(self).focus == old(self).focus,
    {
        let width = rect_width - 2;
        let content: String = match &self.data {
            Option::None => String::new(),
            Option::Some(items) => {
                let mut acc = String::new();
                let mut i: usize = 0;
                while i < items.len()
                    invariant
                        i <= items@.len(),
                        acc@ == spec_comment_texts(items@, (width as usize), i as int),
                        width == rect_width - 2,
                        rect_width >= 3,
                        self.data matches Option::Some(v) && v == *items,
                    decreases items@.len() - i,
                {
                    let text = self.formater(&items[i], width as usize, Option::None);
                    acc.append(text.as_str());
                    i += 1;
                }
                acc
            },
        };
        self.block_width = width;
        self.content_height = wrapped_height(content.as_str(), width);
        content
    }
}

/// The concatenation of the rendered texts of the first `upto` trees.
pub open spec fn spec_comment_texts(items: Seq<ItemResponse>, width: usize, upto: int) -> Seq<char>
    decreases upto,
{
    if upto <= 0 {
        Seq::empty()
    } else {
        spec_comment_texts(items, width, upto - 1) + spec_formater(items[upto - 1], width, Option::None)
    }
}

/// The whole comment area text: every fetched tree rendered at the given
/// width, concatenated in arrival order; empty while nothing arrived.
pub open spec fn spec_comment_content(data: Option<Seq<ItemResponse>>, width: usize) -> Seq<char> {
    match data {
        Option::None => Seq::empty(),
        Option::Some(items) => spec_comment_texts(items, width, items.len() as int),
    }
}

} // verus!
