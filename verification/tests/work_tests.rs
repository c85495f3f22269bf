use ln_lib::ChapterRequest;
use ln_lib::Lightnovel;
use ln_lib::LightnovelError;
use ln_lib::SurfError;

fn work_document(id: Option<&str>, last_page: Option<&str>, chapters: usize) -> String {
    let mut body = String::from("<html><body>");
    if let Some(v) = id {
        body.push_str(&format!("<input id=\"id_post\" value=\"{v}\">"));
    }
    if let Some(lp) = last_page {
        body.push_str(&format!("<a data-page=\"{lp}\" href=\"#\">Last</a>"));
    }
    body.push_str("<ul class=\"list-chapter\">");
    for i in 0..chapters {
        body.push_str(&format!(
            "<li><a href=\"/chapter-{n}.html\"> Chapter {n} </a></li>",
            n = i + 1
        ));
    }
    body.push_str("</ul></body></html>");
    body
}

fn fragment(chapters: std::ops::Range<usize>) -> String {
    let mut frag = String::from("<ul class=\"list-chapter\">");
    for n in chapters {
        frag.push_str(&format!("<li><a href=\"/chapter-{n}.html\">Chapter {n}</a></li>"));
    }
    frag.push_str("</ul>");
    frag
}

fn pagination_response(frag: &str) -> String {
    let mut obj = serde_json::Map::new();
    obj.insert(String::from("list_chap"), serde_json::Value::String(String::from(frag)));
    obj.insert(String::from("pagination"), serde_json::Value::String(String::new()));
    serde_json::Value::Object(obj).to_string()
}

#[test]
fn unresolved_work_fetches_its_canonical_link() {
    let work = Lightnovel::new(String::from("A Title"), String::from("/a-title.html"));
    match work.fetch_request() {
        ChapterRequest::Document { url } => assert_eq!(url, "/a-title.html"),
        ChapterRequest::Pagination { .. } => panic!("unresolved work must fetch its document"),
    }
}

#[test]
fn discovery_without_page_marker_leaves_bound_unknown() {
    let mut work = Lightnovel::new(String::from("T"), String::from("/t.html"));
    let body = work_document(Some("482"), None, 3);
    assert!(work.scrape_document(&body).is_ok());
    assert_eq!(work.get_id(), Some(482));
    assert_eq!(work.get_last_page(), None);
    assert_eq!(work.open_page(2), None);
    assert_eq!(work.get_page(), 1);
}

#[test]
fn discovery_reads_identifier_bound_and_first_page() {
    let mut work = Lightnovel::new(String::from("T"), String::from("/t.html"));
    let body = work_document(Some("482"), Some("5"), 3);
    assert!(work.scrape_document(&body).is_ok());
    assert_eq!(work.get_id(), Some(482));
    assert_eq!(work.get_last_page(), Some(5));
    let chapters = work.chapters();
    assert_eq!(chapters.len(), 3);
    assert_eq!(chapters[0].get_title(), "Chapter 1");
    assert_eq!(chapters[0].get_url(), "/chapter-1.html");
    assert_eq!(chapters[0].get_chapter_number(), 1);
    assert_eq!(chapters[2].get_chapter_number(), 3);
    assert_eq!(chapters[0].len(), 0);
}

#[test]
fn missing_identifier_is_fatal_and_leaves_work_untouched() {
    let mut work = Lightnovel::new(String::from("T"), String::from("/t.html"));
    let body = work_document(None, Some("5"), 3);
    assert_eq!(work.scrape_document(&body), Err(LightnovelError::GetIDError));
    assert_eq!(work.get_id(), None);
    assert_eq!(work.get_last_page(), None);
    assert_eq!(work.chapters().len(), 0);
}

#[test]
fn non_numeric_identifier_is_fatal_too() {
    let mut work = Lightnovel::new(String::from("T"), String::from("/t.html"));
    let body = work_document(Some("not-a-number"), None, 1);
    assert_eq!(work.scrape_document(&body), Err(LightnovelError::GetIDError));
    assert_eq!(work.get_id(), None);
}

#[test]
fn resolved_work_always_plans_the_pagination_request() {
    let mut work = Lightnovel::new(String::from("T"), String::from("/t.html"));
    work.scrape_document(&work_document(Some("482"), Some("5"), 2)).unwrap();

    assert_eq!(work.open_page(3), Some(3));
    match work.fetch_request() {
        ChapterRequest::Pagination { path, body } => {
            assert_eq!(path, "/wp-admin/admin-ajax.php");
            assert_eq!(body, "action=tw_ajax&type=pagination&id=482&page=3");
        },
        ChapterRequest::Document { .. } => panic!("resolved work must use the secondary endpoint"),
    }

    // Applying a pagination response never touches the cached discovery.
    let response = pagination_response(&fragment(97..100));
    assert!(work.scrape_pagination(&response).is_ok());
    assert_eq!(work.get_id(), Some(482));
    assert_eq!(work.get_last_page(), Some(5));
    assert_eq!(work.get_page(), 3);
    assert!(matches!(work.fetch_request(), ChapterRequest::Pagination { .. }));
}

#[test]
fn empty_pagination_fragment_yields_no_chapters_and_no_error() {
    let mut work = Lightnovel::new(String::from("T"), String::from("/t.html"));
    work.scrape_document(&work_document(Some("482"), Some("5"), 2)).unwrap();
    work.open_page(3).unwrap();
    let response = pagination_response("");
    assert_eq!(work.scrape_pagination(&response), Ok(()));
    assert_eq!(work.chapters().len(), 0);
}

#[test]
fn malformed_pagination_response_is_an_error_and_keeps_chapters() {
    let mut work = Lightnovel::new(String::from("T"), String::from("/t.html"));
    work.scrape_document(&work_document(Some("482"), Some("5"), 2)).unwrap();
    let before = work.chapters().len();
    let r = work.scrape_pagination("{\"pagination\": \"\"}");
    assert_eq!(
        r,
        Err(LightnovelError::ScraperError(SurfError::BodyParseError(String::from(
            "/wp-admin/admin-ajax.php"
        ))))
    );
    assert_eq!(work.chapters().len(), before);
    let r2 = work.scrape_pagination("not json at all");
    assert!(r2.is_err());
}

#[test]
fn chapter_numbers_follow_the_page_formula() {
    let mut work = Lightnovel::new(String::from("T"), String::from("/t.html"));
    work.scrape_document(&work_document(Some("482"), Some("9"), 2)).unwrap();

    work.open_page(2).unwrap();
    let response = pagination_response(&fragment(0..3));
    work.scrape_pagination(&response).unwrap();
    let numbers: Vec<usize> =
        work.chapters().iter().map(|c| c.get_chapter_number()).collect();
    assert_eq!(numbers, vec![49, 50, 51]);

    work.open_page(3).unwrap();
    work.scrape_pagination(&response).unwrap();
    let numbers: Vec<usize> =
        work.chapters().iter().map(|c| c.get_chapter_number()).collect();
    assert_eq!(numbers, vec![97, 98, 99]);
}

#[test]
fn chapter_numbering_is_strictly_increasing_across_pages() {
    let mut work = Lightnovel::new(String::from("T"), String::from("/t.html"));
    let full_page: String = (0..48)
        .map(|n| format!("<li><a href=\"/c-{n}.html\">C {n}</a></li>"))
        .collect();
    let body = format!(
        "<input id=\"id_post\" value=\"7\"><a data-page=\"2\">2</a>\
         <ul class=\"list-chapter\">{full_page}</ul>"
    );
    work.scrape_document(&body).unwrap();
    let last_of_page_1 = work.chapters().last().unwrap().get_chapter_number();
    assert_eq!(last_of_page_1, 48);

    work.next_page().unwrap();
    work.scrape_pagination(&pagination_response(&fragment(0..2))).unwrap();
    let first_of_page_2 = work.chapters()[0].get_chapter_number();
    assert_eq!(first_of_page_2, 49);
    assert!(first_of_page_2 > last_of_page_1);
}

#[test]
fn navigation_is_local_and_bounded() {
    let mut work = Lightnovel::new(String::from("T"), String::from("/t.html"));
    work.scrape_document(&work_document(Some("1"), Some("2"), 1)).unwrap();
    assert_eq!(work.next_page(), Some(2));
    assert_eq!(work.next_page(), None);
    assert_eq!(work.get_page(), 2);
    assert!(!work.has_page_after());
    assert_eq!(work.prev_page(), Some(1));
    assert!(work.has_page_after());
}

#[test]
fn error_messages_name_their_layer() {
    assert_eq!(
        LightnovelError::GetIDError.message(),
        "work error: the work's identifier could not be found"
    );
    assert_eq!(
        SurfError::RequestError(String::from("/x")).message(),
        "transport error: the request could not be sent"
    );
    let wrapped: LightnovelError = SurfError::UriParserError.into();
    assert_eq!(wrapped, LightnovelError::ScraperError(SurfError::UriParserError));
}

#[test]
fn default_work_is_an_unresolved_empty_stub() {
    let work = Lightnovel::default();
    assert_eq!(work.get_id(), None);
    assert_eq!(work.get_title(), "");
    assert_eq!(work.get_url(), "");
    assert_eq!(work.get_page(), 1);
    assert_eq!(work.get_last_page(), None);
    assert!(work.chapters().is_empty());
}
