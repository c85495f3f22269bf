//! The trusted extraction boundary: structured data out of raw response
//! text. Each extraction profile is one function from the document text
//! alone to its result, so the result of each is given a name that the
//! callers' contracts are stated over; the state machine that consumes
//! the extracted values is verified for every value they could take.

use vstd::prelude::*;

verus! {

/// The (title, href) pairs of the catalog entries in a document.
pub uninterp spec fn catalog_entries_of(body: Seq<char>) -> Seq<(Seq<char>, Seq<char>)>;

/// The page-bound marker in a document: the attribute text of the last
/// element carrying a page index, if any element does.
pub uninterp spec fn last_page_attr_of(body: Seq<char>) -> Option<Seq<char>>;

/// The work-identifier marker in a document: the value attribute of the
/// identifier element, if the document has one.
pub uninterp spec fn id_attr_of(body: Seq<char>) -> Option<Seq<char>>;

/// The (title, href) pairs of the chapter list in a full document.
pub uninterp spec fn chapter_entries_of(body: Seq<char>) -> Seq<(Seq<char>, Seq<char>)>;

/// The (title, href) pairs of the chapter list in a standalone fragment.
pub uninterp spec fn fragment_chapter_entries_of(fragment: Seq<char>) -> Seq<
    (Seq<char>, Seq<char>),
>;

/// The text blocks of the chapter-content container in a document.
pub uninterp spec fn paragraphs_of(body: Seq<char>) -> Seq<Seq<char>>;

/// The `list_chap` field of the secondary endpoint's response: present
/// exactly when the body is a JSON object carrying that string field.
pub uninterp spec fn list_chap_of(body: Seq<char>) -> Option<Seq<char>>;

/// Relies on scraper's `Html::parse_document`, `Selector::parse` and
/// `ElementRef::attr`: reads the `title` and `href` attributes of every
/// `div.home-truyendecu > a` element, a function of the document text.
#[verifier::external_body]
pub(crate) fn extract_catalog_entries(body: &str) -> (r: Vec<(String, String)>)
    ensures
        r.deep_view() == catalog_entries_of(body@),
{
    let document = scraper::Html::parse_document(body);
    let selector = scraper::Selector::parse("div.home-truyendecu>a").unwrap();
    document.select(&selector).filter_map(
        |a| Some((a.attr("title")?.to_string(), a.attr("href")?.to_string())),
    ).collect()
}

/// Relies on scraper's `Html::parse_document`, `Selector::parse` and
/// `ElementRef::attr`: reads the `data-page` attribute of the last
/// `a[data-page]` element, a function of the document text.
#[verifier::external_body]
pub(crate) fn extract_last_page_attr(body: &str) -> (r: Option<String>)
    ensures
        r.deep_view() == last_page_attr_of(body@),
{
    let document = scraper::Html::parse_document(body);
    let selector = scraper::Selector::parse("a[data-page]").unwrap();
    document.select(&selector).last().and_then(|e| e.attr("data-page")).map(
        |v| v.to_string(),
    )
}

/// Relies on scraper's `Html::parse_document`, `Selector::parse` and
/// `ElementRef::attr`: reads the `value` attribute of the first
/// `input#id_post` element, a function of the document text.
#[verifier::external_body]
pub(crate) fn extract_id_attr(body: &str) -> (r: Option<String>)
    ensures
        r.deep_view() == id_attr_of(body@),
{
    let document = scraper::Html::parse_document(body);
    let selector = scraper::Selector::parse("input#id_post").unwrap();
    document.select(&selector).next().and_then(|e| e.attr("value")).map(|v| v.to_string())
}

/// Relies on scraper's `Html::parse_document`, `Selector::parse`,
/// `ElementRef::attr` and `ElementRef::text`: for every
/// `ul.list-chapter > li > a` element, its joined, trimmed text and its
/// `href` attribute, a function of the document text.
#[verifier::external_body]
pub(crate) fn extract_chapter_entries(body: &str) -> (r: Vec<(String, String)>)
    ensures
        r.deep_view() == chapter_entries_of(body@),
{
    let document = scraper::Html::parse_document(body);
    let selector = scraper::Selector::parse("ul.list-chapter>li>a").unwrap();
    document.select(&selector).filter_map(|a| {
        let title = a.text().collect::<Vec<_>>().join(" ");
        Some((title.trim().to_string(), a.attr("href")?.to_string()))
    }).collect()
}

/// Relies on scraper's `Html::parse_fragment`, `Selector::parse`,
/// `ElementRef::attr` and `ElementRef::text`: as the document form, but
/// the text is parsed as a standalone fragment, not a document.
#[verifier::external_body]
pub(crate) fn extract_fragment_chapter_entries(fragment: &str) -> (r: Vec<(String, String)>)
    ensures
        r.deep_view() == fragment_chapter_entries_of(fragment@),
{
    let document = scraper::Html::parse_fragment(fragment);
    let selector = scraper::Selector::parse("ul.list-chapter>li>a").unwrap();
    document.select(&selector).filter_map(|a| {
        let title = a.text().collect::<Vec<_>>().join(" ");
        Some((title.trim().to_string(), a.attr("href")?.to_string()))
    }).collect()
}

/// Relies on scraper's `Html::parse_document`, `Selector::parse` and
/// `ElementRef::text`: the joined text of every
/// `div.chapter-content > p` element, a function of the document text.
#[verifier::external_body]
pub(crate) fn extract_paragraphs(body: &str) -> (r: Vec<String>)
    ensures
        r.deep_view() == paragraphs_of(body@),
{
    let document = scraper::Html::parse_document(body);
    let selector = scraper::Selector::parse("div.chapter-content>p").unwrap();
    document.select(&selector).map(
        |p| p.text().collect::<Vec<_>>().join("\n"),
    ).collect()
}

/// Relies on serde_json's `from_str`, `Value::get` and `Value::as_str`:
/// the `list_chap` string field of the JSON body, `None` when the body
/// is not a JSON object with such a field.
#[verifier::external_body]
pub(crate) fn extract_list_chap(body: &str) -> (r: Option<String>)
    ensures
        r.deep_view() == list_chap_of(body@),
{
    match serde_json::from_str::<serde_json::Value>(body) {
        Ok(v) => v.get("list_chap").and_then(|f| f.as_str()).map(|s| s.to_string()),
        Err(_) => None,
    }
}

/// Relies on str::strip_prefix: `Some(suffix)` exactly when `s` starts
/// with `prefix`, and then `prefix + suffix` is `s` itself.
#[verifier::external_body]
pub(crate) fn strip_prefix_str(s: &str, prefix: &str) -> (r: Option<String>)
    ensures
        match r {
            Some(t) => s@ == prefix@ + t@,
            None => !(s@.len() >= prefix@.len() && s@.subrange(0, prefix@.len() as int)
                == prefix@),
        },
{
    s.strip_prefix(prefix).map(|t| t.to_string())
}

} // verus!
