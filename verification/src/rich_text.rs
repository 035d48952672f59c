//! Styled text: the elements that the text of a message is made of.

use vstd::prelude::*;
use vstd::string::*;
use crate::entities::copy_text_opt;
use crate::text::{normalize_searchable_string, normalized, same_text_opt, text_opt, trim, trimmed};

verus! {

/// The styling of one element of text, with the text itself.
#[derive(Clone, Debug, PartialEq, Eq)]
pub enum RichTextValue {
    Plain { text: String },
    Bold { text: String },
    Italic { text: String },
    Underline { text: String },
    Strikethrough { text: String },
    Blockquote { text: String },
    Spoiler { text: String },
    Link { text_option: Option<String>, href: String, hidden: bool },
    PrefmtInline { text: String },
    PrefmtBlock { text: String, language_option: Option<String> },
}

/// What a `RichTextValue` holds, as mathematical values.
pub enum RichTextValueView {
    Plain { text: Seq<char> },
    Bold { text: Seq<char> },
    Italic { text: Seq<char> },
    Underline { text: Seq<char> },
    Strikethrough { text: Seq<char> },
    Blockquote { text: Seq<char> },
    Spoiler { text: Seq<char> },
    Link { text_option: Option<Seq<char>>, href: Seq<char>, hidden: bool },
    PrefmtInline { text: Seq<char> },
    PrefmtBlock { text: Seq<char>, language_option: Option<Seq<char>> },
}

impl View for RichTextValue {
    type V = RichTextValueView;

    open spec fn view(&self) -> RichTextValueView {
        match self {
            RichTextValue::Plain { text } => RichTextValueView::Plain { text: text@ },
            RichTextValue::Bold { text } => RichTextValueView::Bold { text: text@ },
            RichTextValue::Italic { text } => RichTextValueView::Italic { text: text@ },
            RichTextValue::Underline { text } => RichTextValueView::Underline { text: text@ },
            RichTextValue::Strikethrough { text } => RichTextValueView::Strikethrough {
                text: text@,
            },
            RichTextValue::Blockquote { text } => RichTextValueView::Blockquote { text: text@ },
            RichTextValue::Spoiler { text } => RichTextValueView::Spoiler { text: text@ },
            RichTextValue::Link { text_option, href, hidden } => RichTextValueView::Link {
                text_option: text_opt(*text_option),
                href: href@,
                hidden: *hidden,
            },
            RichTextValue::PrefmtInline { text } => RichTextValueView::PrefmtInline {
                text: text@,
            },
            RichTextValue::PrefmtBlock { text, language_option } => RichTextValueView::PrefmtBlock {
                text: text@,
                language_option: text_opt(*language_option),
            },
        }
    }
}

impl RichTextValue {
    /// A copy of this value.
    pub fn duplicate(&self) -> (copy: RichTextValue)
        ensures
            copy == *self,
    {
        match self {
            RichTextValue::Plain { text } => RichTextValue::Plain { text: text.clone() },
            RichTextValue::Bold { text } => RichTextValue::Bold { text: text.clone() },
            RichTextValue::Italic { text } => RichTextValue::Italic { text: text.clone() },
            RichTextValue::Underline { text } => RichTextValue::Underline { text: text.clone() },
            RichTextValue::Strikethrough { text } => RichTextValue::Strikethrough {
                text: text.clone(),
            },
            RichTextValue::Blockquote { text } => RichTextValue::Blockquote { text: text.clone() },
            RichTextValue::Spoiler { text } => RichTextValue::Spoiler { text: text.clone() },
            RichTextValue::Link { text_option, href, hidden } => RichTextValue::Link {
                text_option: copy_text_opt(text_option),
                href: href.clone(),
                hidden: *hidden,
            },
            RichTextValue::PrefmtInline { text } => RichTextValue::PrefmtInline {
                text: text.clone(),
            },
            RichTextValue::PrefmtBlock { text, language_option } => RichTextValue::PrefmtBlock {
                text: text.clone(),
                language_option: copy_text_opt(language_option),
            },
        }
    }

    /// Whether the two hold the same values.
    pub fn same(&self, other: &Self) -> (same: bool)
        ensures
            same == (self@ == other@),
    {
        match (self, other) {
            (RichTextValue::Plain { text: a }, RichTextValue::Plain { text: b }) => *a == *b,
            (RichTextValue::Bold { text: a }, RichTextValue::Bold { text: b }) => *a == *b,
            (RichTextValue::Italic { text: a }, RichTextValue::Italic { text: b }) => *a == *b,
            (RichTextValue::Underline { text: a }, RichTextValue::Underline { text: b }) => *a
                == *b,
            (
                RichTextValue::Strikethrough { text: a },
                RichTextValue::Strikethrough { text: b },
            ) => *a == *b,
            (RichTextValue::Blockquote { text: a }, RichTextValue::Blockquote { text: b }) => *a
                == *b,
            (RichTextValue::Spoiler { text: a }, RichTextValue::Spoiler { text: b }) => *a == *b,
            (
                RichTextValue::Link { text_option: ta, href: ha, hidden: hid_a },
                RichTextValue::Link { text_option: tb, href: hb, hidden: hid_b },
            ) => same_text_opt(ta, tb) && *ha == *hb && *hid_a == *hid_b,
            (RichTextValue::PrefmtInline { text: a }, RichTextValue::PrefmtInline { text: b }) => *a
                == *b,
            (
                RichTextValue::PrefmtBlock { text: a, language_option: la },
                RichTextValue::PrefmtBlock { text: b, language_option: lb },
            ) => *a == *b && same_text_opt(la, lb),
            _ => false,
        }
    }
}

/// One element of the text of a message: a styled piece of text and the
/// string by which it is found.
#[derive(Clone, Debug, PartialEq, Eq)]
pub struct RichTextElement {
    pub searchable_string: String,
    pub val: RichTextValue,
}

/// What a `RichTextElement` holds, as mathematical values.
pub struct RichTextElementView {
    pub searchable_string: Seq<char>,
    pub val: RichTextValueView,
}

impl View for RichTextElement {
    type V = RichTextElementView;

    open spec fn view(&self) -> RichTextElementView {
        RichTextElementView { searchable_string: self.searchable_string@, val: self.val@ }
    }
}

impl RichTextElement {
    /// Whether the two hold the same values.
    pub fn same(&self, other: &Self) -> (same: bool)
        ensures
            same == (self@ == other@),
    {
        self.searchable_string == other.searchable_string && self.val.same(&other.val)
    }
}

/// The views of the elements of a text.
pub open spec fn text_view(text: Seq<RichTextElement>) -> Seq<RichTextElementView> {
    Seq::new(text.len(), |i: int| text[i]@)
}

/// Whether two texts are made of the same elements.
pub fn same_rich_text(a: &Vec<RichTextElement>, b: &Vec<RichTextElement>) -> (same: bool)
    ensures
        same == (text_view(a@) == text_view(b@)),
{
    if a.len() != b.len() {
        assert(text_view(a@).len() != text_view(b@).len());
        return false;
    }
    let mut i: usize = 0;
    while i < a.len()
        invariant
            i <= a.len() == b.len(),
            forall|j: int| 0 <= j < i ==> a@[j]@ == b@[j]@,
        decreases a.len() - i,
    {
        if !a[i].same(&b[i]) {
            assert(text_view(a@)[i as int] != text_view(b@)[i as int]);
            return false;
        }
        i += 1;
    }
    assert(text_view(a@) =~= text_view(b@));
    true
}

/// The string by which a link is found: its address alone if the text shown
/// is the address, else the text shown and the address.
pub open spec fn link_searchable(text_option: Option<Seq<char>>, href: Seq<char>) -> Seq<char> {
    let text = match text_option {
        Some(t) => t,
        None => Seq::empty(),
    };
    if text == href {
        normalized(href)
    } else {
        normalized(trimmed(text + " "@ + href))
    }
}

/// Makes the elements of styled text.
pub struct RichText {}

impl RichText {
    /// The styled values of the elements, in order.
    pub fn unwrap(rtes: &[RichTextElement]) -> (vals: Vec<&RichTextValue>)
        ensures
            vals.len() == rtes.len(),
            forall|i: int| 0 <= i < rtes.len() ==> *vals[i] == rtes[i].val,
    {
        let mut vals: Vec<&RichTextValue> = Vec::new();
        let mut i: usize = 0;
        while i < rtes.len()
            invariant
                i <= rtes.len(),
                vals.len() == i,
                forall|j: int| 0 <= j < i ==> *vals[j] == rtes[j].val,
            decreases rtes.len() - i,
        {
            vals.push(&rtes[i].val);
            i += 1;
        }
        vals
    }

    /// Copies of the styled values of the elements, in order.
    pub fn unwrap_copy(rtes: &[RichTextElement]) -> (vals: Vec<RichTextValue>)
        ensures
            vals.len() == rtes.len(),
            forall|i: int| 0 <= i < rtes.len() ==> (#[trigger] vals[i])@ == rtes[i].val@,
    {
        let mut vals: Vec<RichTextValue> = Vec::new();
        let mut i: usize = 0;
        while i < rtes.len()
            invariant
                i <= rtes.len(),
                vals.len() == i,
                forall|j: int| 0 <= j < i ==> (#[trigger] vals[j])@ == rtes[j].val@,
            decreases rtes.len() - i,
        {
            vals.push(rtes[i].val.duplicate());
            i += 1;
        }
        vals
    }

    pub fn make_plain(text: String) -> (element: RichTextElement)
        ensures
            element.searchable_string@ == normalized(text@),
            element.val == (RichTextValue::Plain { text }),
    {
        RichTextElement {
            searchable_string: normalize_searchable_string(text.as_str()),
            val: RichTextValue::Plain { text },
        }
    }

    pub fn make_bold(text: String) -> (element: RichTextElement)
        ensures
            element.searchable_string@ == normalized(text@),
            element.val == (RichTextValue::Bold { text }),
    {
        RichTextElement {
            searchable_string: normalize_searchable_string(text.as_str()),
            val: RichTextValue::Bold { text },
        }
    }

    pub fn make_italic(text: String) -> (element: RichTextElement)
        ensures
            element.searchable_string@ == normalized(text@),
            element.val == (RichTextValue::Italic { text }),
    {
        RichTextElement {
            searchable_string: normalize_searchable_string(text.as_str()),
            val: RichTextValue::Italic { text },
        }
    }

    pub fn make_underline(text: String) -> (element: RichTextElement)
        ensures
            element.searchable_string@ == normalized(text@),
            element.val == (RichTextValue::Underline { text }),
    {
        RichTextElement {
            searchable_string: normalize_searchable_string(text.as_str()),
            val: RichTextValue::Underline { text },
        }
    }

    pub fn make_strikethrough(text: String) -> (element: RichTextElement)
        ensures
            element.searchable_string@ == normalized(text@),
            element.val == (RichTextValue::Strikethrough { text }),
    {
        RichTextElement {
            searchable_string: normalize_searchable_string(text.as_str()),
            val: RichTextValue::Strikethrough { text },
        }
    }

    pub fn make_blockquote(text: String) -> (element: RichTextElement)
        ensures
            element.searchable_string@ == normalized(text@),
            element.val == (RichTextValue::Blockquote { text }),
    {
        RichTextElement {
            searchable_string: normalize_searchable_string(text.as_str()),
            val: RichTextValue::Blockquote { text },
        }
    }

    pub fn make_spoiler(text: String) -> (element: RichTextElement)
        ensures
            element.searchable_string@ == normalized(text@),
            element.val == (RichTextValue::Spoiler { text }),
    {
        RichTextElement {
            searchable_string: normalize_searchable_string(text.as_str()),
            val: RichTextValue::Spoiler { text },
        }
    }

    pub fn make_link(text_option: Option<String>, href: String, hidden: bool) -> (element:
        RichTextElement)
        ensures
            element.searchable_string@ == link_searchable(text_opt(text_option), href@),
            element.val == (RichTextValue::Link { text_option, href, hidden }),
    {
        let mut shown = match &text_option {
            Some(t) => t.clone(),
            None => String::new(),
        };
        let searchable_string = if shown == href {
            normalize_searchable_string(href.as_str())
        } else {
            shown.append(" ");
            shown.append(href.as_str());
            let both = trim(shown.as_str());
            normalize_searchable_string(both.as_str())
        };
        RichTextElement {
            searchable_string,
            val: RichTextValue::Link { text_option, href, hidden },
        }
    }

    pub fn make_prefmt_inline(text: String) -> (element: RichTextElement)
        ensures
            element.searchable_string@ == normalized(text@),
            element.val == (RichTextValue::PrefmtInline { text }),
    {
        RichTextElement {
            searchable_string: normalize_searchable_string(text.as_str()),
            val: RichTextValue::PrefmtInline { text },
        }
    }

    pub fn make_prefmt_block(text: String, language_option: Option<String>) -> (element:
        RichTextElement)
        ensures
            element.searchable_string@ == normalized(text@),
            element.val == (RichTextValue::PrefmtBlock { text, language_option }),
    {
        RichTextElement {
            searchable_string: normalize_searchable_string(text.as_str()),
            val: RichTextValue::PrefmtBlock { text, language_option },
        }
    }
}

} // verus!
