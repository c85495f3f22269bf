use ln_lib::LightnovelChapter;

#[test]
fn new_chapter_stub_is_unfetched() {
    let c = LightnovelChapter::new(String::from("Chapter 1"), String::from("/c1.html"), 1);
    assert_eq!(c.get_title(), "Chapter 1");
    assert_eq!(c.get_url(), "/c1.html");
    assert_eq!(c.get_chapter_number(), 1);
    assert_eq!(c.len(), 0);
    assert!(c.paragraphs().is_empty());
}

#[test]
fn paragraphs_are_extracted_from_the_content_container() {
    let mut c = LightnovelChapter::new(String::from("C"), String::from("/c.html"), 3);
    let body = "<html><body><div class=\"chapter-content\">\
                <p>First paragraph.</p><p>Second <em>styled</em> paragraph.</p>\
                </div></body></html>";
    assert!(c.scrape_document(body));
    assert_eq!(c.len(), 2);
    assert_eq!(c.paragraphs()[0], "First paragraph.");
    assert_eq!(c.paragraphs()[1], "Second \nstyled\n paragraph.");
    assert_eq!(c.get_chapter_number(), 3);
}

#[test]
fn absent_content_container_yields_no_paragraphs_and_no_error() {
    let mut c = LightnovelChapter::new(String::from("C"), String::from("/c.html"), 1);
    let got = c.scrape_document("<html><body><div class=\"other\">x</div></body></html>");
    assert!(!got);
    assert_eq!(c.len(), 0);
}

#[test]
fn each_fetch_replaces_the_previous_paragraphs() {
    let mut c = LightnovelChapter::new(String::from("C"), String::from("/c.html"), 1);
    c.scrape_document("<div class=\"chapter-content\"><p>a</p><p>b</p></div>");
    assert_eq!(c.len(), 2);
    c.scrape_document("<div class=\"chapter-content\"><p>only</p></div>");
    assert_eq!(c.len(), 1);
    assert_eq!(c.paragraphs()[0], "only");
}
