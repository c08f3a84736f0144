//! How a static asset is answered: by the ending of its path.

use vstd::prelude::*;
use vstd::string::StrSliceExecFns;

verus! {

/// Whether `text` ends in `suffix`.
pub open spec fn has_suffix(text: Seq<char>, suffix: Seq<char>) -> bool {
    suffix.len() <= text.len() && text.skip(text.len() - suffix.len()) == suffix
}

/// Whether `text` ends in `suffix`, character by character.
pub fn ends_with(text: &str, suffix: &str) -> (found: bool)
    ensures
        found == has_suffix(text@, suffix@),
{
    let text_len: usize = text.unicode_len();
    let suffix_len: usize = suffix.unicode_len();
    if suffix_len > text_len {
        return false;
    }
    let offset: usize = text_len - suffix_len;
    let mut i: usize = 0;
    while i < suffix_len
        invariant
            i <= suffix_len,
            offset + suffix_len == text_len,
            text_len == text@.len(),
            suffix_len == suffix@.len(),
            forall|j: int| 0 <= j < i ==> text@[offset + j] == suffix@[j],
        decreases suffix_len - i,
    {
        if text.get_char(offset + i) != suffix.get_char(i) {
            assert(text@.skip(offset as int)[i as int] != suffix@[i as int]);
            return false;
        }
        i += 1;
    }
    assert(text@.skip(offset as int) =~= suffix@);
    true
}

/// The kind of content that a path stands for.
#[derive(Clone, Copy, Debug, PartialEq, Eq, Structural)]
pub enum ContentKind {
    /// A page or a script: paths that end in `.html` or `.js`.
    Html,
    /// A style sheet: paths that end in `.css`.
    Css,
    /// Anything else.
    Unknown,
}

/// The kind of content that `path` stands for.
pub open spec fn kind_of(path: Seq<char>) -> ContentKind {
    if has_suffix(path, ".html"@) || has_suffix(path, ".js"@) {
        ContentKind::Html
    } else if has_suffix(path, ".css"@) {
        ContentKind::Css
    } else {
        ContentKind::Unknown
    }
}

/// The kind of content that `path` stands for.
pub fn content_kind(path: &str) -> (kind: ContentKind)
    ensures
        kind == kind_of(path@),
{
    if ends_with(path, ".html") || ends_with(path, ".js") {
        ContentKind::Html
    } else if ends_with(path, ".css") {
        ContentKind::Css
    } else {
        ContentKind::Unknown
    }
}

/// The answer to a request for a static asset.
#[derive(Debug, PartialEq, Eq)]
pub enum StaticReply {
    /// The text, served as a page.
    Html(String),
    /// The text, served as a style sheet.
    Css(String),
    /// The asset is there, but of a kind that is not served.
    Unsupported,
    /// There is no such asset, or it is not text.
    NotFound,
}

/// A [`StaticReply`] as mathematical values.
pub enum StaticReplyView {
    Html(Seq<char>),
    Css(Seq<char>),
    Unsupported,
    NotFound,
}

impl View for StaticReply {
    type V = StaticReplyView;

    open spec fn view(&self) -> StaticReplyView {
        match self {
            StaticReply::Html(text) => StaticReplyView::Html(text@),
            StaticReply::Css(text) => StaticReplyView::Css(text@),
            StaticReply::Unsupported => StaticReplyView::Unsupported,
            StaticReply::NotFound => StaticReplyView::NotFound,
        }
    }
}

/// The answer to a request for the asset at `path`, whose text is
/// `contents` if the asset exists and is text.
pub open spec fn reply_for(path: Seq<char>, contents: Option<Seq<char>>) -> StaticReplyView {
    match contents {
        None => StaticReplyView::NotFound,
        Some(text) => match kind_of(path) {
            ContentKind::Html => StaticReplyView::Html(text),
            ContentKind::Css => StaticReplyView::Css(text),
            ContentKind::Unknown => StaticReplyView::Unsupported,
        },
    }
}

/// The HTTP status that goes with a reply of this shape.
pub open spec fn status_of(reply: StaticReplyView) -> u16 {
    match reply {
        StaticReplyView::Html(_) => 200,
        StaticReplyView::Css(_) => 200,
        StaticReplyView::Unsupported => 500,
        StaticReplyView::NotFound => 404,
    }
}

/// What `contents` holds, as mathematical values.
pub open spec fn text_of(contents: Option<String>) -> Option<Seq<char>> {
    match contents {
        Some(text) => Some(text@),
        None => None,
    }
}

/// Answers a request for the asset at `path`. `contents` is the asset's
/// text, or nothing if there is no such asset or it is not text.
pub fn static_reply(path: &str, contents: Option<String>) -> (reply: StaticReply)
    ensures
        reply@ == reply_for(path@, text_of(contents)),
{
    match contents {
        None => StaticReply::NotFound,
        Some(text) => match content_kind(path) {
            ContentKind::Html => StaticReply::Html(text),
            ContentKind::Css => StaticReply::Css(text),
            ContentKind::Unknown => StaticReply::Unsupported,
        },
    }
}

impl StaticReply {
    /// The HTTP status of this reply: 200 for content, 500 for an asset of a
    /// kind that is not served, 404 for none.
    pub fn status(&self) -> (code: u16)
        ensures
            code == status_of(self@),
    {
        match self {
            StaticReply::Html(_) => 200,
            StaticReply::Css(_) => 200,
            StaticReply::Unsupported => 500,
            StaticReply::NotFound => 404,
        }
    }
}

} // verus!
