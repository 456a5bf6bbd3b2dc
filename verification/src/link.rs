//! Locating the download reference on the vendor page.
//!
//! The page is parsed and searched through the `scraper` crate and the
//! resolved link through the `url` crate, both behind trusted wrappers.
//! What the selection returns is a function of the document text and
//! the selector text alone, so it carries a name, [`page_hrefs`], and
//! the whole outcome of the search — which error on which page shape,
//! which reference on the good one — is pinned over that name by
//! [`find_rel`].

use vstd::prelude::*;

verus! {

use crate::error::BedrockUpdaterError;

/// The resolved remote artifact: its URL, and the URL's path component,
/// from which the version is later derived.  Only the path is used for
/// version extraction, so that version-like substrings in query
/// parameters are never matched.
pub struct DownloadReference {
    /// The download URL as it stood in the link attribute.
    pub url: String,
    /// The percent-encoded path component of that URL.
    pub path: String,
}

/// Whether a string is a valid CSS selector group, as `scraper`'s
/// `Selector::parse` decides it; a function of the string alone.
pub uninterp spec fn selector_ok(s: Seq<char>) -> bool;

/// The link attributes of the elements of a parsed document that match
/// a selector group, in tree order, one entry per matching element and
/// nothing for an element without the attribute; a function of the
/// document text and the selector text alone.  Meaningful when
/// `selector_ok` holds of the selector.
pub uninterp spec fn page_hrefs(html: Seq<char>, selector: Seq<char>) -> Seq<Option<Seq<char>>>;

/// Whether a string parses as an absolute URL, as `url`'s `Url::parse`
/// decides it; a function of the string alone.
pub uninterp spec fn link_parses(s: Seq<char>) -> bool;

/// The percent-encoded path component of the URL a string parses to; a
/// function of the string alone, meaningful when `link_parses` holds of
/// it.
pub uninterp spec fn url_path_of(s: Seq<char>) -> Seq<char>;

/// The views of collected link attributes.
pub open spec fn hrefs_view(hrefs: Vec<Option<String>>) -> Seq<Option<Seq<char>>> {
    hrefs@.map_values(
        |href: Option<String>| match href {
            Some(link) => Some(link@),
            None => None,
        },
    )
}

/// Relies on scraper::Selector::parse, scraper::Html::parse_document,
/// scraper::Html::select and scraper::ElementRef::attr: whether a
/// selector group parses depends on its text alone, and the `href`
/// attributes of the elements matching it, in tree order, depend on the
/// document text and the selector text alone.
#[verifier::external_body]
fn collect_page_hrefs(html: &str, selector: &str) -> (r: Option<Vec<Option<String>>>)
    ensures
        r is Some <==> selector_ok(selector@),
        r matches Some(hrefs) ==> hrefs_view(hrefs) == page_hrefs(html@, selector@),
{
    let parsed = match scraper::Selector::parse(selector) {
        Ok(parsed) => parsed,
        Err(_) => return None,
    };
    let document = scraper::Html::parse_document(html);
    let mut hrefs: Vec<Option<String>> = Vec::new();
    for element in document.select(&parsed) {
        hrefs.push(element.attr("href").map(str::to_owned));
    }
    Some(hrefs)
}

/// Relies on url::Url::parse and url::Url::path: whether a string
/// parses as an absolute URL, and the path component of the URL it
/// parses to, depend on the string alone.
#[verifier::external_body]
fn parse_link_path(link: &str) -> (r: Option<String>)
    ensures
        r is Some <==> link_parses(link@),
        r matches Some(p) ==> p@ == url_path_of(link@),
{
    match url::Url::parse(link) {
        Ok(parsed) => Some(parsed.path().to_owned()),
        Err(_) => None,
    }
}

/// Decides the download link among the link attributes of the matching
/// elements: exactly one element must match, and it must carry a link.
/// Zero or several matches signal a page-shape change and no element is
/// silently picked.
pub fn extract_download_link(hrefs: &Vec<Option<String>>) -> (r: Result<
    String,
    BedrockUpdaterError,
>)
    ensures
        hrefs@.len() == 0 ==> r == Err::<String, _>(BedrockUpdaterError::NoDownloadElement),
        hrefs@.len() > 1 ==> r == Err::<String, _>(BedrockUpdaterError::TooManyDownloadElements),
        hrefs@.len() == 1 && hrefs@[0] is None ==> r == Err::<String, _>(
            BedrockUpdaterError::NoDownloadLinkAttr,
        ),
        hrefs@.len() == 1 && hrefs@[0] is Some ==> r is Ok && r->Ok_0@ == hrefs@[0]->0@,
{
    if hrefs.len() == 0 {
        Err(BedrockUpdaterError::NoDownloadElement)
    } else if hrefs.len() > 1 {
        Err(BedrockUpdaterError::TooManyDownloadElements)
    } else {
        match &hrefs[0] {
            None => Err(BedrockUpdaterError::NoDownloadLinkAttr),
            Some(link) => Ok(link.clone()),
        }
    }
}

/// The outcome owed for a page and a selector: each page shape decides
/// exactly one result.  An unparseable selector is its own error; then
/// zero matches, several matches, a single match without a link, and a
/// single link that is no URL are each their error; a single parseable
/// link yields exactly the reference built from it.
pub open spec fn find_rel(
    html: Seq<char>,
    selector: Seq<char>,
    r: Result<DownloadReference, BedrockUpdaterError>,
) -> bool {
    if !selector_ok(selector) {
        r == Err::<DownloadReference, _>(BedrockUpdaterError::SelectorParseError)
    } else {
        let hrefs = page_hrefs(html, selector);
        if hrefs.len() == 0 {
            r == Err::<DownloadReference, _>(BedrockUpdaterError::NoDownloadElement)
        } else if hrefs.len() > 1 {
            r == Err::<DownloadReference, _>(BedrockUpdaterError::TooManyDownloadElements)
        } else {
            match hrefs[0] {
                None => r == Err::<DownloadReference, _>(BedrockUpdaterError::NoDownloadLinkAttr),
                Some(link) => if !link_parses(link) {
                    r == Err::<DownloadReference, _>(BedrockUpdaterError::CannotParseUrl)
                } else {
                    r matches Ok(reference) && reference.url@ == link && reference.path@
                        == url_path_of(link)
                },
            }
        }
    }
}

/// Locates exactly one download reference on the page for the platform
/// selector and resolves its URL: the one result that [`find_rel`] owes
/// for this page and selector.
pub fn find_download_link(html: &str, selector: &str) -> (r: Result<
    DownloadReference,
    BedrockUpdaterError,
>)
    ensures
        find_rel(html@, selector@, r),
{
    let hrefs = match collect_page_hrefs(html, selector) {
        None => {
            return Err(BedrockUpdaterError::SelectorParseError);
        },
        Some(hrefs) => hrefs,
    };
    proof {
        assert(hrefs_view(hrefs).len() == hrefs@.len());
        if hrefs@.len() == 1 {
            assert(hrefs_view(hrefs)[0] == (match hrefs@[0] {
                Some(link) => Some(link@),
                None => None,
            }));
        }
    }
    let link = match extract_download_link(&hrefs) {
        Err(e) => {
            return Err(e);
        },
        Ok(link) => link,
    };
    match parse_link_path(link.as_str()) {
        None => Err(BedrockUpdaterError::CannotParseUrl),
        Some(path) => Ok(DownloadReference { url: link, path }),
    }
}

} // verus!
