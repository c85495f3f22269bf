//! A single work and the two-phase engine behind its chapter list.
//!
//! An unresolved work knows only its canonical link. Its first fetch
//! targets that link directly; the returned document yields the numeric
//! identifier (absence is fatal: no later page could ever be reached)
//! and, when present, the last-page bound. From then on the work is
//! resolved: every fetch is a pagination request against the secondary
//! endpoint, keyed by the cached identifier and the cursor's page, and
//! the identifier and bound are never recomputed.

use vstd::prelude::*;
use vstd::string::StringExecFns;

use crate::chapter::LightnovelChapter;
use crate::cursor::PageCursor;
use crate::digits::dec_str;
use crate::digits::parse_attr;
use crate::digits::parsed_attr;
use crate::digits::usize_to_string;
use crate::errors::LightnovelError;
use crate::errors::SurfError;
use crate::extract::chapter_entries_of;
use crate::extract::extract_chapter_entries;
use crate::extract::extract_fragment_chapter_entries;
use crate::extract::extract_id_attr;
use crate::extract::extract_last_page_attr;
use crate::extract::extract_list_chap;
use crate::extract::fragment_chapter_entries_of;
use crate::extract::id_attr_of;
use crate::extract::last_page_attr_of;
use crate::extract::list_chap_of;

verus! {

/// The fixed number of entries the source lays out per chapter page;
/// absolute chapter numbers are computed from it.
pub const PAGE_SIZE: usize = 48;

/// The request a work's next fetch must issue: the canonical document
/// while unresolved, the identifier-keyed pagination query afterward.
#[derive(Debug, Clone, PartialEq, Eq)]
pub enum ChapterRequest {
    Document { url: String },
    Pagination { path: String, body: String },
}

/// The fixed path of the secondary pagination endpoint.
pub open spec fn pagination_path_spec() -> Seq<char> {
    "/wp-admin/admin-ajax.php"@
}

/// The form-encoded body of a pagination query for one identifier and
/// one page.
pub open spec fn pagination_body_spec(id: nat, page: nat) -> Seq<char> {
    "action=tw_ajax&type=pagination&id="@ + dec_str(id) + "&page="@ + dec_str(page)
}

/// The absolute ordinal of the chapter at 0-based index `i` on page
/// `page`.
pub open spec fn chapter_number_spec(page: int, i: int) -> int {
    (page - 1) * (PAGE_SIZE as int) + i + 1
}

/// How many of `available` extracted entries receive an absolute number
/// that fits the machine word; every realistic page keeps them all.
pub open spec fn numberable_len(page: int, available: int) -> int {
    let base = (page - 1) * (PAGE_SIZE as int);
    if base + 1 > usize::MAX {
        0
    } else if available <= usize::MAX - base {
        available
    } else {
        usize::MAX - base
    }
}

/// The chapter stubs `chs` are exactly the extracted `entries` of page
/// `page`, each numbered by its position and not yet fetched.
pub open spec fn chapters_match(
    chs: Seq<LightnovelChapter>,
    entries: Seq<(Seq<char>, Seq<char>)>,
    page: int,
) -> bool {
    &&& chs.len() == numberable_len(page, entries.len() as int)
    &&& forall|i: int|
        0 <= i < chs.len() ==> {
            &&& (#[trigger] chs[i]).title@ == entries[i].0
            &&& chs[i].url@ == entries[i].1
            &&& chs[i].chapter_number == chapter_number_spec(page, i)
            &&& chs[i].paragraph@.len() == 0
        }
}

/// Number the extracted entries of one page into chapter stubs.
pub fn build_chapters(entries: Vec<(String, String)>, page: usize) -> (r: Vec<LightnovelChapter>)
    requires
        1 <= page,
    ensures
        chapters_match(r@, entries.deep_view(), page as int),
{
    let mut out: Vec<LightnovelChapter> = Vec::new();
    let base = match (page - 1).checked_mul(PAGE_SIZE) {
        Some(b) => b,
        None => {
            return out;
        },
    };
    if base == usize::MAX {
        return out;
    }
    let cap = usize::MAX - base;
    let n = if entries.len() < cap {
        entries.len()
    } else {
        cap
    };
    let mut i: usize = 0;
    while i < n
        invariant
            n == numberable_len(page as int, entries@.len() as int),
            n <= entries@.len(),
            base == (page - 1) * (PAGE_SIZE as int),
            n <= usize::MAX - base,
            0 <= i <= n,
            out@.len() == i,
            forall|j: int|
                0 <= j < i ==> {
                    &&& (#[trigger] out@[j]).title@ == entries.deep_view()[j].0
                    &&& out@[j].url@ == entries.deep_view()[j].1
                    &&& out@[j].chapter_number == chapter_number_spec(page as int, j)
                    &&& out@[j].paragraph@.len() == 0
                },
        decreases n - i,
    {
        let title = entries[i].0.clone();
        let url = entries[i].1.clone();
        let number = base + i + 1;
        out.push(LightnovelChapter::new(title, url, number));
        i = i + 1;
    }
    out
}

/// A work: a catalog entry that owns its chapter pagination.
#[derive(Debug, Clone)]
pub struct Lightnovel {
    pub id: Option<usize>,
    pub title: String,
    pub url: String,
    pub cursor: PageCursor,
    pub chapters: Vec<LightnovelChapter>,
}

impl Default for Lightnovel {
    /// An empty, unresolved stub on page 1.
    fn default() -> (r: Lightnovel)
        ensures
            r.wf(),
            r.id is None,
            r.title@ == Seq::<char>::empty(),
            r.url@ == Seq::<char>::empty(),
            r.cursor.page == 1,
            r.cursor.last_page is None,
            r.chapters@.len() == 0,
    {
        Lightnovel::new(String::new(), String::new())
    }
}

impl Lightnovel {
    /// While the identifier is undiscovered the work has never been
    /// fetched: the cursor still sits on page 1 with no known bound.
    pub open spec fn wf(&self) -> bool {
        &&& self.cursor.wf()
        &&& self.id is None ==> self.cursor.page == 1 && self.cursor.last_page is None
    }

    /// A fresh, unresolved work stub.
    pub fn new(title: String, url: String) -> (r: Lightnovel)
        ensures
            r.wf(),
            r.id is None,
            r.title == title,
            r.url == url,
            r.cursor.page == 1,
            r.cursor.last_page is None,
            r.chapters@.len() == 0,
    {
        Lightnovel { id: None, title, url, cursor: PageCursor::new(), chapters: Vec::new() }
    }

    pub fn get_id(&self) -> (r: Option<usize>)
        ensures
            r == self.id,
    {
        self.id
    }

    pub fn get_title(&self) -> (r: &String)
        ensures
            r == &self.title,
    {
        &self.title
    }

    pub fn get_url(&self) -> (r: &String)
        ensures
            r == &self.url,
    {
        &self.url
    }

    pub fn get_page(&self) -> (r: usize)
        ensures
            r == self.cursor.page,
    {
        self.cursor.page
    }

    pub fn get_last_page(&self) -> (r: Option<usize>)
        ensures
            r == self.cursor.last_page,
    {
        self.cursor.last_page
    }

    /// Read-only access to the chapter stubs of the current page.
    pub fn chapters(&self) -> (r: &Vec<LightnovelChapter>)
        ensures
            r == &self.chapters,
    {
        &self.chapters
    }

    /// Jump the cursor; no request is implied. Succeeds iff the target
    /// lies within the known bound (1 while the bound is unknown).
    pub fn open_page(&mut self, page: usize) -> (r: Option<usize>)
        requires
            old(self).wf(),
        ensures
            final(self).wf(),
            final(self).id == old(self).id,
            final(self).title == old(self).title,
            final(self).url == old(self).url,
            final(self).chapters == old(self).chapters,
            final(self).cursor.last_page == old(self).cursor.last_page,
            1 <= page && page <= old(self).cursor.bound() ==> {
                &&& r == Some(page)
                &&& final(self).cursor.page == page
            },
            !(1 <= page && page <= old(self).cursor.bound()) ==> {
                &&& r is None
                &&& *final(self) == *old(self)
            },
    {
        self.cursor.open_page(page)
    }

    /// Step the cursor forward.
    pub fn next_page(&mut self) -> (r: Option<usize>)
        requires
            old(self).wf(),
        ensures
            final(self).wf(),
            final(self).id == old(self).id,
            final(self).title == old(self).title,
            final(self).url == old(self).url,
            final(self).chapters == old(self).chapters,
            final(self).cursor.last_page == old(self).cursor.last_page,
            old(self).cursor.page + 1 <= old(self).cursor.bound() ==> {
                &&& r == Some((old(self).cursor.page + 1) as usize)
                &&& final(self).cursor.page == old(self).cursor.page + 1
            },
            old(self).cursor.page + 1 > old(self).cursor.bound() ==> {
                &&& r is None
                &&& *final(self) == *old(self)
            },
    {
        self.cursor.next_page()
    }

    /// Step the cursor backward.
    pub fn prev_page(&mut self) -> (r: Option<usize>)
        requires
            old(self).wf(),
        ensures
            final(self).wf(),
            final(self).id == old(self).id,
            final(self).title == old(self).title,
            final(self).url == old(self).url,
            final(self).chapters == old(self).chapters,
            final(self).cursor.last_page == old(self).cursor.last_page,
            1 <= old(self).cursor.page - 1 && old(self).cursor.page - 1 <= old(
                self,
            ).cursor.bound() ==> {
                &&& r == Some((old(self).cursor.page - 1) as usize)
                &&& final(self).cursor.page == old(self).cursor.page - 1
            },
            !(1 <= old(self).cursor.page - 1 && old(self).cursor.page - 1 <= old(
                self,
            ).cursor.bound()) ==> {
                &&& r is None
                &&& *final(self) == *old(self)
            },
    {
        self.cursor.prev_page()
    }

    /// Whether a further page exists after the current one.
    pub fn has_page_after(&self) -> (r: bool)
        ensures
            r == (self.cursor.page != self.cursor.bound()),
    {
        self.cursor.has_page_after()
    }

    /// The request the next fetch must issue. An unresolved work is
    /// always fetched through its canonical link — never a page-scoped
    /// path; a resolved work is always fetched through the pagination
    /// endpoint, so the discovery request is never issued again.
    pub fn fetch_request(&self) -> (r: ChapterRequest)
        ensures
            self.id is None ==> (r matches ChapterRequest::Document { url } && url@
                == self.url@),
            self.id matches Some(id) ==> (r matches ChapterRequest::Pagination { path, body }
                && path@ == pagination_path_spec() && body@ == pagination_body_spec(
                id as nat,
                self.cursor.page as nat,
            )),
    {
        match self.id {
            None => ChapterRequest::Document { url: self.url.clone() },
            Some(id) => {
                let body = String::from_str("action=tw_ajax&type=pagination&id=").concat(
                    usize_to_string(id).as_str(),
                ).concat("&page=").concat(usize_to_string(self.cursor.page).as_str());
                proof {
                    assert(body@ =~= pagination_body_spec(id as nat, self.cursor.page as nat));
                }
                ChapterRequest::Pagination {
                    path: String::from_str("/wp-admin/admin-ajax.php"),
                    body,
                }
            },
        }
    }

    /// Resolve the work from its canonical document and load page 1.
    ///
    /// The identifier marker must be present and numeric — without it no
    /// page beyond the first could ever be reached, so its absence is
    /// the fatal `GetIDError` and the work is left untouched. The
    /// last-page marker is optional: its absence means the bound stays
    /// unknown and the work navigates as a single page. The chapter
    /// stubs come from this same document; no second request is needed.
    pub fn scrape_document(&mut self, body: &str) -> (r: Result<(), LightnovelError>)
        requires
            old(self).wf(),
            old(self).id is None,
        ensures
            final(self).wf(),
            match parsed_attr(id_attr_of(body@)) {
                None => r == Err::<(), _>(LightnovelError::GetIDError) && *final(self) == *old(
                    self,
                ),
                Some(id) => {
                    &&& r == Ok::<(), LightnovelError>(())
                    &&& final(self).id == Some(id)
                    &&& final(self).cursor.last_page == parsed_attr(last_page_attr_of(body@))
                    &&& final(self).cursor.page == old(self).cursor.page
                    &&& final(self).title == old(self).title
                    &&& final(self).url == old(self).url
                    &&& chapters_match(
                        final(self).chapters@,
                        chapter_entries_of(body@),
                        old(self).cursor.page as int,
                    )
                },
            },
    {
        let id = match parse_attr(extract_id_attr(body)) {
            Some(v) => v,
            None => {
                return Err(LightnovelError::GetIDError);
            },
        };
        let last_page = parse_attr(extract_last_page_attr(body));
        let entries = extract_chapter_entries(body);
        let chapters = build_chapters(entries, self.cursor.page);
        self.id = Some(id);
        self.cursor.last_page = last_page;
        self.chapters = chapters;
        Ok(())
    }

    /// Load the current page from a pagination response of the
    /// secondary endpoint. The body must be the JSON object carrying the
    /// chapter-list fragment; anything else is `ResponseMalformed`,
    /// reported as a body-parse failure tagged with the endpoint path.
    /// The identifier, bound and cursor never change here.
    pub fn scrape_pagination(&mut self, body: &str) -> (r: Result<(), LightnovelError>)
        requires
            old(self).wf(),
            old(self).id is Some,
        ensures
            final(self).wf(),
            final(self).id == old(self).id,
            final(self).title == old(self).title,
            final(self).url == old(self).url,
            final(self).cursor == old(self).cursor,
            match list_chap_of(body@) {
                None => {
                    &&& r matches Err(e)
                    &&& e matches LightnovelError::ScraperError(se)
                    &&& se matches SurfError::BodyParseError(p)
                    &&& p@ == pagination_path_spec()
                    &&& final(self).chapters == old(self).chapters
                },
                Some(fragment) => {
                    &&& r == Ok::<(), LightnovelError>(())
                    &&& chapters_match(
                        final(self).chapters@,
                        fragment_chapter_entries_of(fragment),
                        old(self).cursor.page as int,
                    )
                },
            },
    {
        match extract_list_chap(body) {
            None => Err(
                LightnovelError::ScraperError(
                    SurfError::BodyParseError(String::from_str("/wp-admin/admin-ajax.php")),
                ),
            ),
            Some(fragment) => {
                let entries = extract_fragment_chapter_entries(fragment.as_str());
                self.chapters = build_chapters(entries, self.cursor.page);
                Ok(())
            },
        }
    }
}

/// Absolute chapter numbering is strictly increasing across pages: any
/// chapter that lies earlier — on a lower page, or at a lower index of
/// the same page — carries a strictly smaller number.
pub proof fn law_chapter_numbering_increasing(k1: int, i1: int, k2: int, i2: int)
    requires
        1 <= k1,
        1 <= k2,
        0 <= i1 < PAGE_SIZE as int,
        0 <= i2 < PAGE_SIZE as int,
        k1 < k2 || (k1 == k2 && i1 < i2),
    ensures
        chapter_number_spec(k1, i1) < chapter_number_spec(k2, i2),
{
    if k1 < k2 {
        assert((k1 - 1) * (PAGE_SIZE as int) + PAGE_SIZE as int <= (k2 - 1) * (PAGE_SIZE as int))
            by (nonlinear_arith)
            requires
                k1 < k2,
        ;
    }
}

} // verus!
