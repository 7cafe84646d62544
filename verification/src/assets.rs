//! Which bundled asset answers a request path, and how it is served.
//!
//! Looking an asset up in the bundle is left to the caller. What is looked
//! up, and what is made of the answer, is decided here.

use vstd::prelude::*;
use vstd::std_specs::iter::IteratorSpec;
use vstd::string::*;
use vstd::utf8::{decode_utf8, valid_utf8};

verus! {

/// The asset that answers a request for the root.
pub const INDEX_PAGE: &'static str = "index.html";

/// The status of the answer to a request for an asset that the bundle lacks.
pub const NOT_FOUND_STATUS: u16 = 404;

/// The text of the answer to a request for an asset that the bundle lacks.
pub const NOT_FOUND_BODY: &'static str = "File not found";

/// A text without the run of `c` that it starts with.
pub open spec fn without_leading(text: Seq<char>, c: char) -> Seq<char>
    decreases text.len(),
{
    if text.len() > 0 && text[0] == c {
        without_leading(text.drop_first(), c)
    } else {
        text
    }
}

/// The name under which the bundle is asked for a request path: the path
/// without its leading slashes.
pub open spec fn asset_path(path: Seq<char>) -> Seq<char> {
    without_leading(path, '/')
}

/// Whether a request path asks for the index page: the root, or the page by
/// its name.
pub open spec fn asks_for_index(path: Seq<char>) -> bool {
    asset_path(path).len() == 0 || asset_path(path) == INDEX_PAGE@
}

/// The content type under which an asset of this name is served: decided by
/// the end of the name, and plain text where the end says nothing.
pub open spec fn content_type_of(name: Seq<char>) -> Seq<char> {
    if ".css"@.is_suffix_of(name) {
        "text/css"@
    } else if ".js"@.is_suffix_of(name) {
        "application/javascript"@
    } else {
        "text/plain"@
    }
}

/// What UTF-8 decoding makes of any bytes when every sequence that is not
/// valid UTF-8 is replaced by U+FFFD, the replacement character.
pub uninterp spec fn utf8_lossy_text(bytes: Seq<u8>) -> Seq<char>;

/// Decodes bytes as text, with U+FFFD in place of what is not valid UTF-8.
///
/// Trusted: this is `String::from_utf8_lossy`, made into an owned `String`.
/// Its result is a function of the bytes, which `utf8_lossy_text` names;
/// bytes that are valid UTF-8 come out as the text that they encode.
#[verifier::external_body]
fn text_from_utf8_lossy(bytes: &Vec<u8>) -> (text: String)
    ensures
        text@ == utf8_lossy_text(bytes@),
        valid_utf8(bytes@) ==> text@ == decode_utf8(bytes@),
{
    String::from_utf8_lossy(bytes).into_owned()
}

/// What a request for a static asset comes to.
#[derive(Debug, PartialEq, Eq)]
pub enum AssetRequest {
    /// The index page is asked for.
    Index,
    /// Another asset is asked for, by this name, to be served under this
    /// content type.
    File { name: String, content_type: &'static str },
}

/// The answer to a request for a static asset.
#[derive(Debug, PartialEq, Eq)]
pub enum StaticReply {
    /// The index page, as text to be served as HTML.
    Page(String),
    /// An asset's bytes, to be served as they are under the content type.
    File { content_type: &'static str, data: Vec<u8> },
    /// The bundle has no such asset.
    NotFound,
}

/// Skipping a run of `c` at the start of a text, up to the first other
/// character or the end, leaves the text without its leading `c`.
proof fn lemma_without_leading(text: Seq<char>, c: char, run: int)
    requires
        0 <= run <= text.len(),
        forall|i: int| 0 <= i < run ==> text[i] == c,
        run < text.len() ==> text[run] != c,
    ensures
        without_leading(text, c) == text.skip(run),
    decreases run,
{
    if run == 0 {
        assert(text.skip(0) =~= text);
    } else {
        let rest = text.drop_first();
        assert forall|i: int| 0 <= i < run - 1 implies rest[i] == c by {
            assert(rest[i] == text[i + 1]);
        }
        lemma_without_leading(rest, c, run - 1);
        assert(rest.skip(run - 1) =~= text.skip(run));
    }
}

/// Reads a text into its characters.
fn chars_of(text: &str) -> (chars: Vec<char>)
    ensures
        chars@ == text@,
{
    broadcast use vstd::string::group_string_axioms;

    let mut chars: Vec<char> = Vec::new();
    for c in rest: text.chars()
        invariant
            rest.seq() == text@,
            chars@ == text@.take(rest.index() as int),
    {
        chars.push(c);
    }
    chars
}

/// Whether `text` reads `pattern` from position `at` on.
fn reads_at(text: &Vec<char>, at: usize, pattern: &Vec<char>) -> (found: bool)
    requires
        at <= text.len(),
    ensures
        found == (at + pattern.len() <= text.len() && text@.subrange(
            at as int,
            at + pattern.len(),
        ) == pattern@),
{
    if pattern.len() > text.len() - at {
        return false;
    }
    let mut i: usize = 0;
    while i < pattern.len()
        invariant
            i <= pattern.len(),
            at + pattern.len() <= text.len(),
            forall|k: int| 0 <= k < i ==> text[at + k] == pattern[k],
        decreases pattern.len() - i,
    {
        if text[at + i] != pattern[i] {
            proof {
                let part = text@.subrange(at as int, at + pattern.len());
                assert(part[i as int] == text[at + i]);
            }
            return false;
        }
        i += 1;
    }
    assert(text@.subrange(at as int, at + pattern.len()) =~= pattern@);
    true
}

/// Whether the part of `text` from position `from` on ends in `suffix`.
fn ends_with(text: &Vec<char>, from: usize, suffix: &str) -> (found: bool)
    requires
        from <= text.len(),
    ensures
        found == suffix@.is_suffix_of(text@.skip(from as int)),
{
    let pattern = chars_of(suffix);
    let ghost tail = text@.skip(from as int);
    if pattern.len() > text.len() - from {
        return false;
    }
    let at: usize = text.len() - pattern.len();
    let found = reads_at(text, at, &pattern);
    assert(tail.subrange(tail.len() - pattern.len(), tail.len() as int) =~= text@.subrange(
        at as int,
        at + pattern.len(),
    ));
    found
}

/// Says what a request path asks for: the index page, or the asset of a
/// name with the content type to serve it under.
pub fn static_handler(path: &str) -> (request: AssetRequest)
    ensures
        match request {
            AssetRequest::Index => asks_for_index(path@),
            AssetRequest::File { name, content_type } => {
                &&& !asks_for_index(path@)
                &&& name@ == asset_path(path@)
                &&& content_type@ == content_type_of(asset_path(path@))
            },
        },
{
    let chars = chars_of(path);
    let mut run: usize = 0;
    while run < chars.len() && chars[run] == '/'
        invariant
            run <= chars.len(),
            forall|i: int| 0 <= i < run ==> chars[i] == '/',
        decreases chars.len() - run,
    {
        run += 1;
    }
    proof {
        lemma_without_leading(path@, '/', run as int);
    }
    let index = chars_of(INDEX_PAGE);
    let rest_len: usize = chars.len() - run;
    assert(path@.skip(run as int) =~= path@.subrange(run as int, run + rest_len));
    if rest_len == 0 || (rest_len == index.len() && reads_at(&chars, run, &index)) {
        return AssetRequest::Index;
    }
    let content_type = if ends_with(&chars, run, ".css") {
        "text/css"
    } else if ends_with(&chars, run, ".js") {
        "application/javascript"
    } else {
        "text/plain"
    };
    let name = path.substring_char(run, chars.len());
    AssetRequest::File { name: String::from_str(name), content_type }
}

impl AssetRequest {
    /// The name under which the bundle holds what is asked for.
    pub fn asset_name(&self) -> (name: &str)
        ensures
            name@ == match *self {
                AssetRequest::Index => INDEX_PAGE@,
                AssetRequest::File { name, content_type } => name@,
            },
    {
        match self {
            AssetRequest::Index => INDEX_PAGE,
            AssetRequest::File { name, content_type: _ } => name.as_str(),
        }
    }
}

/// Makes the answer to a request from what the bundle holds under the
/// requested name: `None` where it holds nothing.
///
/// The index page is served as text, decoded leniently; any other asset is
/// served as its bytes, under the content type of the request.
pub fn static_reply(request: AssetRequest, content: Option<Vec<u8>>) -> (reply: StaticReply)
    ensures
        match content {
            None => reply == StaticReply::NotFound,
            Some(data) => match request {
                AssetRequest::Index => reply matches StaticReply::Page(text) && text@
                    == utf8_lossy_text(data@) && (valid_utf8(data@) ==> text@ == decode_utf8(
                    data@,
                )),
                AssetRequest::File { name, content_type } => reply == (StaticReply::File {
                    content_type,
                    data,
                }),
            },
        },
{
    match content {
        None => StaticReply::NotFound,
        Some(data) => match request {
            AssetRequest::Index => StaticReply::Page(text_from_utf8_lossy(&data)),
            AssetRequest::File { name: _, content_type } => StaticReply::File { content_type, data },
        },
    }
}

} // verus!
