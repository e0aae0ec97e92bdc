use browser_tabs::events::Event;
use browser_tabs::fetcher::{
    bytes_to_pixbuf, favicon_finished, favicon_started, favicon_url, page_finished, page_started,
    pixbuf_from_rgba, response_body, FetchOutcome, Pixbuf, FETCH_TIMEOUT_SECS,
    GOSUB_USERAGENT_STRING,
};

const RGBA_2X1: [u8; 71] = [
    137, 80, 78, 71, 13, 10, 26, 10, 0, 0, 0, 13, 73, 72, 68, 82, 0, 0, 0, 2, 0, 0, 0, 1, 8, 6, 0,
    0, 0, 244, 34, 127, 138, 0, 0, 0, 14, 73, 68, 65, 84, 120, 156, 99, 248, 207, 192, 0, 66, 13,
    0, 15, 122, 3, 126, 119, 233, 127, 151, 0, 0, 0, 0, 73, 69, 78, 68, 174, 66, 96, 130,
];

const RGB_1X2: [u8; 73] = [
    137, 80, 78, 71, 13, 10, 26, 10, 0, 0, 0, 13, 73, 72, 68, 82, 0, 0, 0, 1, 0, 0, 0, 2, 8, 2, 0,
    0, 0, 22, 227, 33, 112, 0, 0, 0, 16, 73, 68, 65, 84, 120, 156, 99, 96, 100, 98, 102, 96, 97,
    101, 3, 0, 0, 70, 0, 22, 119, 245, 200, 127, 0, 0, 0, 0, 73, 69, 78, 68, 174, 66, 96, 130,
];

const ICO_2X1: [u8; 93] = [
    0, 0, 1, 0, 1, 0, 2, 1, 0, 0, 1, 0, 32, 0, 71, 0, 0, 0, 22, 0, 0, 0, 137, 80, 78, 71, 13, 10,
    26, 10, 0, 0, 0, 13, 73, 72, 68, 82, 0, 0, 0, 2, 0, 0, 0, 1, 8, 6, 0, 0, 0, 244, 34, 127, 138,
    0, 0, 0, 14, 73, 68, 65, 84, 120, 156, 99, 248, 207, 192, 0, 66, 13, 0, 15, 122, 3, 126, 119,
    233, 127, 151, 0, 0, 0, 0, 73, 69, 78, 68, 174, 66, 96, 130,
];

#[test]
fn client_signature_and_timeout() {
    assert_eq!(
        GOSUB_USERAGENT_STRING,
        "Mozilla/5.0 (X11; Linux x86_64; Wayland; rv:1.0) Gecko/20231106 Gosub/0.1 Firefox/89.0"
    );
    assert_eq!(FETCH_TIMEOUT_SECS, 5);
}

#[test]
fn favicon_url_appends_the_suffix() {
    assert_eq!(favicon_url("http://example.com"), "http://example.com/favicon.ico");
    assert_eq!(favicon_url(""), "/favicon.ico");
    assert_eq!(favicon_url("http://example.com/"), "http://example.com//favicon.ico");
}

#[test]
fn jobs_announce_themselves_first() {
    assert_eq!(favicon_started(), Event::LogMessage("Loading favicon, spinner=true".to_string()));
    assert_eq!(
        page_started("http://example.com"),
        Event::LogMessage("Loading URL: http://example.com".to_string())
    );
}

#[test]
fn favicon_job_ends_with_the_body() {
    assert_eq!(favicon_finished(3, Some(vec![1, 2, 3])), Event::FaviconLoaded(3, vec![1, 2, 3]));
}

#[test]
fn failed_favicon_fetch_looks_like_an_empty_body() {
    assert_eq!(favicon_finished(3, None), Event::FaviconLoaded(3, vec![]));
    assert_eq!(favicon_finished(3, None), favicon_finished(3, Some(vec![])));
}

#[test]
fn page_job_ends_with_the_text() {
    assert_eq!(
        page_finished(4, Some(b"hello".to_vec())),
        Event::PageLoaded(4, "hello".to_string())
    );
    assert_eq!(
        page_finished(4, Some(vec![0x68, 0xc3, 0xa9, 0xe2, 0x82, 0xac])),
        Event::PageLoaded(4, "h\u{e9}\u{20ac}".to_string())
    );
    assert_eq!(page_finished(4, Some(vec![])), Event::PageLoaded(4, String::new()));
}

#[test]
fn page_job_reports_a_failed_fetch() {
    assert_eq!(page_finished(4, None), Event::LogMessage("Failed to load URL".to_string()));
}

#[test]
fn page_job_reports_a_body_that_is_no_text() {
    assert_eq!(
        page_finished(4, Some(vec![0x68, 0xff, 0x69])),
        Event::LogMessage("Failed to decode URL body".to_string())
    );
    assert_eq!(
        page_finished(4, Some(vec![0xc3])),
        Event::LogMessage("Failed to decode URL body".to_string())
    );
}

#[test]
fn raster_has_rows_of_four_bytes_a_pixel() {
    let pixels: Vec<u8> = (0..24).collect();
    assert_eq!(
        pixbuf_from_rgba(3, 2, pixels.clone()),
        Some(Pixbuf { pixels, width: 3, height: 2, rowstride: 12 })
    );
}

#[test]
fn raster_needs_both_sides() {
    assert_eq!(pixbuf_from_rgba(0, 2, vec![]), None);
    assert_eq!(pixbuf_from_rgba(2, 0, vec![]), None);
    assert_eq!(pixbuf_from_rgba(0, 0, vec![]), None);
}

#[test]
fn raster_needs_exactly_four_bytes_a_pixel() {
    assert_eq!(pixbuf_from_rgba(1, 1, vec![1, 2, 3]), None);
    assert_eq!(pixbuf_from_rgba(1, 1, vec![1, 2, 3, 4, 5]), None);
    assert_eq!(pixbuf_from_rgba(2, 2, vec![0; 8]), None);
}

#[test]
fn raster_needs_a_row_that_fits() {
    assert_eq!(pixbuf_from_rgba(0x2000_0000, 1, vec![]), None);
    assert_eq!(pixbuf_from_rgba(1, 0x8000_0000, vec![]), None);
    assert_eq!(pixbuf_from_rgba(u32::MAX, u32::MAX, vec![0; 4]), None);
}

#[test]
fn icon_bytes_decode_to_their_pixels() {
    assert_eq!(
        bytes_to_pixbuf(RGBA_2X1.to_vec()),
        Some(Pixbuf {
            pixels: vec![255, 0, 0, 255, 0, 0, 255, 128],
            width: 2,
            height: 1,
            rowstride: 8,
        })
    );
}

#[test]
fn icon_without_alpha_becomes_opaque() {
    assert_eq!(
        bytes_to_pixbuf(RGB_1X2.to_vec()),
        Some(Pixbuf { pixels: vec![1, 2, 3, 255, 4, 5, 6, 255], width: 1, height: 2, rowstride: 4 })
    );
}

#[test]
fn bytes_that_are_no_image_give_no_raster() {
    assert_eq!(bytes_to_pixbuf(vec![]), None);
    assert_eq!(bytes_to_pixbuf(b"<html>not found</html>".to_vec()), None);
    assert_eq!(bytes_to_pixbuf(RGBA_2X1[..40].to_vec()), None);
}

#[test]
fn response_body_accepts_success_only() {
    assert_eq!(response_body(FetchOutcome::Failed), None);
    assert_eq!(response_body(FetchOutcome::Response { status: 200, body: vec![1] }), Some(vec![1]));
    assert_eq!(response_body(FetchOutcome::Response { status: 299, body: vec![] }), Some(vec![]));
    assert_eq!(response_body(FetchOutcome::Response { status: 199, body: vec![1] }), None);
    assert_eq!(response_body(FetchOutcome::Response { status: 300, body: vec![1] }), None);
    assert_eq!(response_body(FetchOutcome::Response { status: 404, body: vec![1] }), None);
}

#[test]
fn icon_in_an_ico_file_decodes_to_its_pixels() {
    assert_eq!(
        bytes_to_pixbuf(ICO_2X1.to_vec()),
        Some(Pixbuf {
            pixels: vec![255, 0, 0, 255, 0, 0, 255, 128],
            width: 2,
            height: 1,
            rowstride: 8,
        })
    );
}
