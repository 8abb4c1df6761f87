//! What the reader takes from a fetched document: attributes of the elements
//! that a selector picks.

use vstd::prelude::*;

verus! {

/// Two attributes of one element; each is absent where the element lacks it.
pub type AttrPair = (Option<String>, Option<String>);

/// An `AttrPair` as plain text.
pub type AttrPairView = (Option<Seq<char>>, Option<Seq<char>>);

/// The longest document, in characters, that is handed to the parser. The
/// parser keeps text in buffers that give up at 2^31 bytes; a character takes
/// at most four bytes, so below this bound no buffer comes near.
pub const MAX_DOCUMENT_CHARS: usize = 0x0FFF_FFFF;

/// The selector of the links in the navigation bar at the top of a page.
pub open spec fn nav_selector() -> Seq<char> {
    "div[id=\"topnav\"] > a"@
}

/// The selector of the comic image.
pub open spec fn image_selector() -> Seq<char> {
    "img[alt=\"Comic\"]"@
}

/// The two questions that are put to a document: the `id` and `href` of the
/// navigation links, and the `src` and `alt` of the comic image.
pub open spec fn is_query(selector: Seq<char>, first: Seq<char>, second: Seq<char>) -> bool {
    ||| selector == nav_selector() && first == "id"@ && second == "href"@
    ||| selector == image_selector() && first == "src"@ && second == "alt"@
}

/// The elements of `document` that `selector` picks, in the order in which the
/// selection yields them, each as the values of its attributes `first` and
/// `second`; nothing where `selector` is no selector group.
pub uninterp spec fn selected_attrs(
    document: Seq<char>,
    selector: Seq<char>,
    first: Seq<char>,
    second: Seq<char>,
) -> Option<Seq<AttrPairView>>;

/// Parses `document` with `scraper::Html::parse_document` and `selector` with
/// `scraper::Selector::parse`, walks `scraper::Html::select`, and reads two
/// attributes of each element with `scraper::ElementRef::attr`.
///
/// Trusted: the result depends on the four texts alone, so it is given the name
/// `selected_attrs`. Nothing more is claimed of it. Only the two questions of
/// this library are put, and only to a document of at most
/// `MAX_DOCUMENT_CHARS` characters: on a longer one the parser's buffers
/// overflow and the call does not return.
#[verifier::external_body]
pub(crate) fn select_attrs(
    document: &str,
    selector: &str,
    first: &str,
    second: &str,
) -> (found: Option<Vec<AttrPair>>)
    requires
        document@.len() <= MAX_DOCUMENT_CHARS,
        is_query(selector@, first@, second@),
    ensures
        found.deep_view() == selected_attrs(document@, selector@, first@, second@),
{
    let group = scraper::Selector::parse(selector).ok()?;
    let tree = scraper::Html::parse_document(document);
    let pairs = tree.select(&group).map(
        |e| (e.attr(first).map(String::from), e.attr(second).map(String::from)),
    );
    Some(pairs.collect())
}

} // verus!
