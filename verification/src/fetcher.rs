//! What a fetch job decides around its network call: the address of a
//! site's icon, the event that each outcome becomes, and the raster that the
//! bytes of an icon decode to.

use vstd::prelude::*;
use vstd::string::StringExecFns;
use vstd::utf8::{decode_utf8, valid_utf8};
use crate::events::{Event, EventView};
use crate::text::utf8_text;

verus! {

/// The client signature that every request carries.
pub const GOSUB_USERAGENT_STRING: &'static str =
    "Mozilla/5.0 (X11; Linux x86_64; Wayland; rv:1.0) Gecko/20231106 Gosub/0.1 Firefox/89.0";

/// The seconds after which a request is given up.
pub const FETCH_TIMEOUT_SECS: u64 = 5;

/// The address of a site's icon: the site's address and the well-known
/// suffix.
pub open spec fn favicon_address(url: Seq<char>) -> Seq<char> {
    url + "/favicon.ico"@
}

/// Writes the address of the icon of the site at `url`.
pub fn favicon_url(url: &str) -> (address: String)
    ensures
        address@ == favicon_address(url@),
{
    let mut address: String = url.to_owned();
    address.append("/favicon.ico");
    address
}

/// How a fetch ended.
#[derive(Debug, PartialEq, Eq)]
pub enum FetchOutcome {
    /// No response came: the connection failed or the time ran out.
    Failed,
    /// A response came, with this status code and body.
    Response { status: u16, body: Vec<u8> },
}

/// A `FetchOutcome` as plain values.
pub enum FetchOutcomeView {
    Failed,
    Response { status: u16, body: Seq<u8> },
}

impl View for FetchOutcome {
    type V = FetchOutcomeView;

    open spec fn view(&self) -> FetchOutcomeView {
        match *self {
            FetchOutcome::Failed => FetchOutcomeView::Failed,
            FetchOutcome::Response { status, body } => FetchOutcomeView::Response {
                status,
                body: body@,
            },
        }
    }
}

/// The body that a fetch gave: that of a response whose status is one of
/// success, from 200 to 299. Any other fetch has failed.
pub open spec fn accepted_body(outcome: FetchOutcomeView) -> Option<Seq<u8>> {
    match outcome {
        FetchOutcomeView::Response { status, body } => if 200 <= status <= 299 {
            Some(body)
        } else {
            None
        },
        FetchOutcomeView::Failed => None,
    }
}

/// Takes the body out of a fetch that succeeded.
pub fn response_body(outcome: FetchOutcome) -> (body: Option<Vec<u8>>)
    ensures
        body_view(body) == accepted_body(outcome@),
{
    match outcome {
        FetchOutcome::Response { status, body } => if 200 <= status && status <= 299 {
            Some(body)
        } else {
            None
        },
        FetchOutcome::Failed => None,
    }
}

/// The bytes of an icon after a fetch: the body, or nothing where the fetch
/// failed. A failed fetch and an empty body are one and the same.
pub open spec fn favicon_payload(body: Option<Seq<u8>>) -> Seq<u8> {
    match body {
        Some(bytes) => bytes,
        None => Seq::empty(),
    }
}

/// The body of a fetch as plain values.
pub open spec fn body_view(body: Option<Vec<u8>>) -> Option<Seq<u8>> {
    match body {
        Some(bytes) => Some(bytes@),
        None => None,
    }
}

/// The status line that an icon job sends before it fetches.
pub fn favicon_started() -> (event: Event)
    ensures
        event@ == EventView::LogMessage("Loading favicon, spinner=true"@),
{
    Event::LogMessage("Loading favicon, spinner=true".to_owned())
}

/// The one event that ends an icon job, whatever its fetch gave.
pub fn favicon_finished(tab_id: u128, body: Option<Vec<u8>>) -> (event: Event)
    ensures
        event@ == EventView::FaviconLoaded(tab_id, favicon_payload(body_view(body))),
{
    match body {
        Some(bytes) => Event::FaviconLoaded(tab_id, bytes),
        None => Event::FaviconLoaded(tab_id, Vec::new()),
    }
}

/// The status line that a page job sends before it fetches.
pub fn page_started(url: &str) -> (event: Event)
    ensures
        event@ == EventView::LogMessage("Loading URL: "@ + url@),
{
    let mut line: String = "Loading URL: ".to_owned();
    line.append(url);
    Event::LogMessage(line)
}

/// What a page job sends when its fetch is over: the page where the body is
/// text, a status line where the fetch failed or the body is no UTF-8.
pub open spec fn page_outcome(tab_id: u128, body: Option<Seq<u8>>) -> EventView {
    match body {
        Some(bytes) => if valid_utf8(bytes) {
            EventView::PageLoaded(tab_id, decode_utf8(bytes))
        } else {
            EventView::LogMessage("Failed to decode URL body"@)
        },
        None => EventView::LogMessage("Failed to load URL"@),
    }
}

/// The one event that ends a page job, whatever its fetch gave.
pub fn page_finished(tab_id: u128, body: Option<Vec<u8>>) -> (event: Event)
    ensures
        event@ == page_outcome(tab_id, body_view(body)),
{
    match body {
        Some(bytes) => match utf8_text(bytes) {
            Some(text) => Event::PageLoaded(tab_id, text),
            None => Event::LogMessage("Failed to decode URL body".to_owned()),
        },
        None => Event::LogMessage("Failed to load URL".to_owned()),
    }
}

/// An RGB raster with an alpha channel, eight bits a channel, rows one
/// after another.
#[derive(Debug, PartialEq, Eq)]
pub struct Pixbuf {
    pub pixels: Vec<u8>,
    pub width: i32,
    pub height: i32,
    /// The bytes from the start of one row to the start of the next.
    pub rowstride: i32,
}

/// A `Pixbuf` as plain values.
pub struct PixbufView {
    pub pixels: Seq<u8>,
    pub width: int,
    pub height: int,
    pub rowstride: int,
}

impl View for Pixbuf {
    type V = PixbufView;

    open spec fn view(&self) -> PixbufView {
        PixbufView {
            pixels: self.pixels@,
            width: self.width as int,
            height: self.height as int,
            rowstride: self.rowstride as int,
        }
    }
}

/// The raster of an optional `Pixbuf`.
pub open spec fn pixbuf_view(pixbuf: Option<Pixbuf>) -> Option<PixbufView> {
    match pixbuf {
        Some(p) => Some(p@),
        None => None,
    }
}

/// Whether RGBA bytes of that length can be laid out as a raster of that
/// size: neither side is zero, a row's length in bytes and the height fit
/// an `i32`, and the bytes are exactly four a pixel.
pub open spec fn raster_fits(width: u32, height: u32, len: nat) -> bool {
    &&& 0 < width
    &&& 0 < height
    &&& width * 4 <= i32::MAX
    &&& height <= i32::MAX
    &&& len == width * height * 4
}

/// The raster of a decoded image, where it can be laid out.
pub open spec fn raster_of(width: u32, height: u32, pixels: Seq<u8>) -> Option<PixbufView> {
    if raster_fits(width, height, pixels.len()) {
        Some(PixbufView { pixels, width: width as int, height: height as int, rowstride: width * 4 })
    } else {
        None
    }
}

/// Lays decoded RGBA bytes out as a raster with rows of `width * 4` bytes.
pub fn pixbuf_from_rgba(width: u32, height: u32, pixels: Vec<u8>) -> (pixbuf: Option<Pixbuf>)
    ensures
        pixbuf_view(pixbuf) == raster_of(width, height, pixels@),
{
    if width == 0 || height == 0 || width > 0x1fff_ffff || height > 0x7fff_ffff {
        return None;
    }
    assert(width as u64 * height as u64 * 4 <= 0x1fff_ffff * 0x7fff_ffff * 4) by (nonlinear_arith)
        requires
            width <= 0x1fff_ffff,
            height <= 0x7fff_ffff,
    ;
    let expected: u64 = width as u64 * height as u64 * 4;
    if pixels.len() as u64 != expected {
        return None;
    }
    Some(Pixbuf { pixels, width: width as i32, height: height as i32, rowstride: width as i32 * 4 })
}

/// Whether a raster is laid out as its sizes say: both sides are above
/// zero, a row is four bytes a pixel and fits an `i32`, and the bytes are
/// exactly those of its rows.
pub open spec fn raster_wf(raster: PixbufView) -> bool {
    &&& 0 < raster.width
    &&& 0 < raster.height <= i32::MAX
    &&& raster.rowstride == raster.width * 4
    &&& raster.rowstride <= i32::MAX
    &&& raster.pixels.len() == raster.width * raster.height * 4
}

/// Whether an icon is none or a raster that is laid out as its sizes say.
pub open spec fn icon_wf(icon: Option<PixbufView>) -> bool {
    icon matches Some(raster) ==> raster_wf(raster)
}

/// Every raster that can be laid out is laid out as its sizes say.
pub proof fn lemma_raster_of_is_wf(width: u32, height: u32, pixels: Seq<u8>)
    ensures
        icon_wf(raster_of(width, height, pixels)),
{
}

/// Calls `image::load_from_memory`, then `to_rgba8` on the image, and hands
/// out its `dimensions` and its raw bytes, or `None` where the decoder
/// refuses the bytes. Nothing is claimed of the answer: what the decoder
/// makes of given bytes is its own affair, and may differ from one process
/// to another.
#[verifier::external_body]
fn decode_rgba(buf: &Vec<u8>) -> (image: Option<(u32, u32, Vec<u8>)>) {
    match image::load_from_memory(buf.as_slice()) {
        Ok(img) => {
            let rgba = img.to_rgba8();
            let (width, height) = rgba.dimensions();
            Some((width, height, rgba.into_raw()))
        },
        Err(_) => None,
    }
}

/// Decodes the bytes of an icon into a raster; `None` where the decoder
/// refuses them or what it gives cannot be laid out. Whatever the decoder
/// gives, a raster that comes out is laid out as its sizes say.
pub fn bytes_to_pixbuf(buf: Vec<u8>) -> (pixbuf: Option<Pixbuf>)
    ensures
        icon_wf(pixbuf_view(pixbuf)),
{
    match decode_rgba(&buf) {
        Some((width, height, pixels)) => {
            proof {
                lemma_raster_of_is_wf(width, height, pixels@);
            }
            pixbuf_from_rgba(width, height, pixels)
        },
        None => None,
    }
}

} // verus!
