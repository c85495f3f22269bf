//! The catalog's addressing scheme: each category maps to one path
//! template, applied uniformly for every page.

use vstd::prelude::*;
use vstd::string::StringExecFns;

use crate::digits::dec_str;
use crate::digits::usize_to_string;

verus! {

/// Which slice of the catalog a list shows.
#[derive(Debug, Clone, PartialEq, Eq)]
pub enum LightnovelCategory {
    Latest,
    Completed,
    Genre(String),
    Title(String),
}

impl Default for LightnovelCategory {
    fn default() -> (r: LightnovelCategory)
        ensures
            r == LightnovelCategory::Latest,
    {
        LightnovelCategory::Latest
    }
}

impl LightnovelCategory {
    /// The request path for one page of this category.
    pub open spec fn path_spec(&self, page: nat) -> Seq<char> {
        match self {
            LightnovelCategory::Latest => "/latest/page/"@ + dec_str(page),
            LightnovelCategory::Completed => "/completed/page/"@ + dec_str(page),
            LightnovelCategory::Genre(g) => "/"@ + g@ + "/page/"@ + dec_str(page),
            LightnovelCategory::Title(t) => "/page/"@ + dec_str(page) + "?s="@ + t@,
        }
    }

    /// Build the request path for one page of this category.
    pub fn page_path(&self, page: usize) -> (p: String)
        ensures
            p@ == self.path_spec(page as nat),
    {
        let num = usize_to_string(page);
        match self {
            LightnovelCategory::Latest => {
                String::from_str("/latest/page/").concat(num.as_str())
            },
            LightnovelCategory::Completed => {
                String::from_str("/completed/page/").concat(num.as_str())
            },
            LightnovelCategory::Genre(g) => {
                let p = String::from_str("/").concat(g.as_str()).concat("/page/").concat(
                    num.as_str(),
                );
                proof {
                    assert(p@ =~= "/"@ + g@ + "/page/"@ + dec_str(page as nat));
                }
                p
            },
            LightnovelCategory::Title(t) => {
                let p = String::from_str("/page/").concat(num.as_str()).concat("?s=").concat(
                    t.as_str(),
                );
                proof {
                    assert(p@ =~= "/page/"@ + dec_str(page as nat) + "?s="@ + t@);
                }
                p
            },
        }
    }

    /// A short human-readable label for the category.
    pub open spec fn text_spec(&self) -> Seq<char> {
        match self {
            LightnovelCategory::Latest => "Latest"@,
            LightnovelCategory::Completed => "Completed"@,
            LightnovelCategory::Genre(g) => "Genre: "@ + g@,
            LightnovelCategory::Title(t) => "Title: "@ + t@,
        }
    }

    pub fn text(&self) -> (t: String)
        ensures
            t@ == self.text_spec(),
    {
        match self {
            LightnovelCategory::Latest => String::from_str("Latest"),
            LightnovelCategory::Completed => String::from_str("Completed"),
            LightnovelCategory::Genre(g) => String::from_str("Genre: ").concat(g.as_str()),
            LightnovelCategory::Title(t) => String::from_str("Title: ").concat(t.as_str()),
        }
    }
}

} // verus!
