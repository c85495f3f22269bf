//! One page of the catalog for a chosen category: a pure page cursor —
//! no identifier discovery — over the primary document surface. Each
//! fetched document fully replaces the page's work stubs and refreshes
//! the page bound from the document's own marker.

use vstd::prelude::*;

use crate::category::LightnovelCategory;
use crate::cursor::PageCursor;
use crate::digits::parse_attr;
use crate::digits::parsed_attr;
use crate::extract::catalog_entries_of;
use crate::extract::extract_catalog_entries;
use crate::extract::extract_last_page_attr;
use crate::extract::last_page_attr_of;
use crate::extract::strip_prefix_str;
use crate::work::Lightnovel;

verus! {

/// The base origin the source serves from; catalog entries that link
/// with this origin written out are stored relative to it.
pub open spec fn site_spec() -> Seq<char> {
    "https://readlightnovels.net"@
}

/// A catalog entry's stored link: the href relative to the site origin.
pub open spec fn work_url_spec(href: Seq<char>) -> Seq<char> {
    if href.len() >= site_spec().len() && href.subrange(0, site_spec().len() as int)
        == site_spec() {
        href.skip(site_spec().len() as int)
    } else {
        href
    }
}

/// The work stubs `ws` are exactly the extracted catalog `entries`:
/// fresh, unresolved works in order, with origin-relative links.
pub open spec fn works_match(ws: Seq<Lightnovel>, entries: Seq<(Seq<char>, Seq<char>)>) -> bool {
    &&& ws.len() == entries.len()
    &&& forall|i: int|
        0 <= i < ws.len() ==> {
            &&& (#[trigger] ws[i]).title@ == entries[i].0
            &&& ws[i].url@ == work_url_spec(entries[i].1)
            &&& ws[i].id is None
            &&& ws[i].cursor.page == 1
            &&& ws[i].cursor.last_page is None
            &&& ws[i].chapters@.len() == 0
        }
}

/// The paginated top-level list of works for one category.
#[derive(Debug, Clone)]
pub struct LightnovelList {
    pub category: LightnovelCategory,
    pub cursor: PageCursor,
    pub list: Vec<Lightnovel>,
}

impl Default for LightnovelList {
    /// An empty list of the default category on page 1.
    fn default() -> (r: LightnovelList)
        ensures
            r.wf(),
            r.category == LightnovelCategory::Latest,
            r.cursor.page == 1,
            r.cursor.last_page is None,
            r.list@.len() == 0,
    {
        LightnovelList::new(LightnovelCategory::Latest)
    }
}

impl LightnovelList {
    pub open spec fn wf(&self) -> bool {
        self.cursor.wf()
    }

    /// A fresh list on page 1 with no bound and no items yet.
    pub fn new(category: LightnovelCategory) -> (r: LightnovelList)
        ensures
            r.wf(),
            r.category == category,
            r.cursor.page == 1,
            r.cursor.last_page is None,
            r.list@.len() == 0,
    {
        LightnovelList { category, cursor: PageCursor::new(), list: Vec::new() }
    }

    pub fn category(&self) -> (r: &LightnovelCategory)
        ensures
            r == &self.category,
    {
        &self.category
    }

    pub fn page(&self) -> (r: usize)
        ensures
            r == self.cursor.page,
    {
        self.cursor.page
    }

    pub fn last_page(&self) -> (r: Option<usize>)
        ensures
            r == self.cursor.last_page,
    {
        self.cursor.last_page
    }

    /// Read-only access to the current page's work stubs.
    pub fn items(&self) -> (r: &Vec<Lightnovel>)
        ensures
            r == &self.list,
    {
        &self.list
    }

    /// The request path the next fetch must target: the category's path
    /// template applied to the current page.
    pub fn request_path(&self) -> (p: String)
        ensures
            p@ == self.category.path_spec(self.cursor.page as nat),
    {
        self.category.page_path(self.cursor.page)
    }

    /// Jump the cursor; no request is implied. Succeeds iff the target
    /// lies within the known bound (1 while the bound is unknown).
    pub fn open_page(&mut self, page: usize) -> (r: Option<usize>)
        requires
            old(self).wf(),
        ensures
            final(self).wf(),
            final(self).category == old(self).category,
            final(self).list == old(self).list,
            final(self).cursor.last_page == old(self).cursor.last_page,
            1 <= page && page <= old(self).cursor.bound() ==> {
                &&& r == Some(page)
                &&& final(self).cursor.page == page
            },
            !(1 <= page && page <= old(self).cursor.bound()) ==> {
                &&& r is None
                &&& *final(self) == *old(self)
            },
    {
        self.cursor.open_page(page)
    }

    /// Step the cursor forward.
    pub fn next_page(&mut self) -> (r: Option<usize>)
        requires
            old(self).wf(),
        ensures
            final(self).wf(),
            final(self).category == old(self).category,
            final(self).list == old(self).list,
            final(self).cursor.last_page == old(self).cursor.last_page,
            old(self).cursor.page + 1 <= old(self).cursor.bound() ==> {
                &&& r == Some((old(self).cursor.page + 1) as usize)
                &&& final(self).cursor.page == old(self).cursor.page + 1
            },
            old(self).cursor.page + 1 > old(self).cursor.bound() ==> {
                &&& r is None
                &&& *final(self) == *old(self)
            },
    {
        self.cursor.next_page()
    }

    /// Step the cursor backward.
    pub fn prev_page(&mut self) -> (r: Option<usize>)
        requires
            old(self).wf(),
        ensures
            final(self).wf(),
            final(self).category == old(self).category,
            final(self).list == old(self).list,
            final(self).cursor.last_page == old(self).cursor.last_page,
            1 <= old(self).cursor.page - 1 && old(self).cursor.page - 1 <= old(
                self,
            ).cursor.bound() ==> {
                &&& r == Some((old(self).cursor.page - 1) as usize)
                &&& final(self).cursor.page == old(self).cursor.page - 1
            },
            !(1 <= old(self).cursor.page - 1 && old(self).cursor.page - 1 <= old(
                self,
            ).cursor.bound()) ==> {
                &&& r is None
                &&& *final(self) == *old(self)
            },
    {
        self.cursor.prev_page()
    }

    /// Whether a further page exists after the current one.
    pub fn has_page_after(&self) -> (r: bool)
        ensures
            r == (self.cursor.page != self.cursor.bound()),
    {
        self.cursor.has_page_after()
    }

    /// Load one fetched catalog document: the page's work stubs are
    /// replaced wholesale by the document's entries — an empty
    /// extraction is a valid empty page, not an error — and the page
    /// bound is re-read from the document's marker (absent or unusable
    /// means unknown).
    pub fn scrape_document(&mut self, body: &str)
        requires
            old(self).wf(),
        ensures
            final(self).wf(),
            final(self).category == old(self).category,
            final(self).cursor.page == old(self).cursor.page,
            final(self).cursor.last_page == parsed_attr(last_page_attr_of(body@)),
            works_match(final(self).list@, catalog_entries_of(body@)),
    {
        let entries = extract_catalog_entries(body);
        let last_page = parse_attr(extract_last_page_attr(body));
        let mut works: Vec<Lightnovel> = Vec::new();
        let mut i: usize = 0;
        while i < entries.len()
            invariant
                0 <= i <= entries@.len(),
                works@.len() == i,
                forall|j: int|
                    0 <= j < i ==> {
                        &&& (#[trigger] works@[j]).title@ == entries.deep_view()[j].0
                        &&& works@[j].url@ == work_url_spec(entries.deep_view()[j].1)
                        &&& works@[j].id is None
                        &&& works@[j].cursor.page == 1
                        &&& works@[j].cursor.last_page is None
                        &&& works@[j].chapters@.len() == 0
                    },
            decreases entries@.len() - i,
        {
            let title = entries[i].0.clone();
            let href = entries[i].1.clone();
            let url = match strip_prefix_str(href.as_str(), "https://readlightnovels.net") {
                Some(rest) => {
                    proof {
                        assert(href@.subrange(0, site_spec().len() as int) =~= site_spec());
                        assert(href@.skip(site_spec().len() as int) =~= rest@);
                    }
                    rest
                },
                None => href,
            };
            works.push(Lightnovel::new(title, url));
            i = i + 1;
        }
        self.cursor.last_page = last_page;
        self.list = works;
    }
}

} // verus!
