//! A chapter stub and its one-shot paragraph retrieval: no pagination,
//! no discovery. The caller fetches the document at the chapter's link
//! and hands the body here; the paragraphs are replaced wholesale.

use vstd::prelude::*;

use crate::extract::extract_paragraphs;
use crate::extract::paragraphs_of;

verus! {

#[derive(Debug, Clone)]
pub struct LightnovelChapter {
    pub title: String,
    pub url: String,
    pub chapter_number: usize,
    pub paragraph: Vec<String>,
}

impl LightnovelChapter {
    /// A fresh stub: no paragraphs until its own fetch fills them.
    pub fn new(title: String, url: String, chapter_number: usize) -> (r: LightnovelChapter)
        ensures
            r.title == title,
            r.url == url,
            r.chapter_number == chapter_number,
            r.paragraph@.len() == 0,
    {
        LightnovelChapter { title, url, chapter_number, paragraph: Vec::new() }
    }

    pub fn get_title(&self) -> (r: &String)
        ensures
            r == &self.title,
    {
        &self.title
    }

    pub fn get_url(&self) -> (r: &String)
        ensures
            r == &self.url,
    {
        &self.url
    }

    pub fn get_chapter_number(&self) -> (r: usize)
        ensures
            r == self.chapter_number,
    {
        self.chapter_number
    }

    /// How many paragraphs the last fetch produced.
    pub fn len(&self) -> (r: usize)
        ensures
            r == self.paragraph@.len(),
    {
        self.paragraph.len()
    }

    /// Read-only access to the fetched paragraphs.
    pub fn paragraphs(&self) -> (r: &Vec<String>)
        ensures
            r == &self.paragraph,
    {
        &self.paragraph
    }

    /// Replace the paragraphs with the text blocks extracted from the
    /// fetched document; an absent content container simply yields no
    /// blocks, which is a valid, empty result, not an error. Returns
    /// whether anything was extracted.
    pub fn scrape_document(&mut self, body: &str) -> (r: bool)
        ensures
            final(self).title == old(self).title,
            final(self).url == old(self).url,
            final(self).chapter_number == old(self).chapter_number,
            final(self).paragraph.deep_view() == paragraphs_of(body@),
            r == (paragraphs_of(body@).len() > 0),
    {
        let blocks = extract_paragraphs(body);
        proof {
            assert(blocks.deep_view().len() == blocks@.len());
        }
        let found = blocks.len() > 0;
        self.paragraph = blocks;
        found
    }
}

} // verus!
