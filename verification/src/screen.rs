//! Screen streaming: hosting control, BGRA capture conversion, JPEG/Base64 encoding
//! of captured frames, and the length-prefixed frame format on the wire.

use vstd::prelude::*;
use crate::text::{decimal, decimal_string};

verus! {

/// Largest frame a viewer accepts, in bytes.
pub const MAX_FRAME_LEN: u32 = 10000000;

/// JPEG quality used for captured frames.
pub const JPEG_QUALITY: u8 = 60;

/// Pause after a frame was sent or a capture failed, in milliseconds.
pub const FRAME_INTERVAL_MS: u64 = 66;

/// Extra pause after a failed capture, in milliseconds.
pub const CAPTURE_RETRY_MS: u64 = 50;

// ---------------------------------------------------------------------------
// Frame format: 4-byte big-endian length, then the payload
// ---------------------------------------------------------------------------

/// Big-endian bytes of `n` (for `n < 2^32`).
pub open spec fn be32_bytes(n: nat) -> Seq<u8> {
    seq![
        (n / 16777216) as u8,
        ((n / 65536) % 256) as u8,
        ((n / 256) % 256) as u8,
        (n % 256) as u8,
    ]
}

/// The number whose big-endian bytes are `b[0..4]`.
pub open spec fn be32_value(b: Seq<u8>) -> nat {
    (b[0] as nat) * 16777216 + (b[1] as nat) * 65536 + (b[2] as nat) * 256 + (b[3] as nat)
}

/// The length field written before a payload of `len` bytes: the length as a
/// `u32` (wrapping modulo 2^32), big-endian.
pub open spec fn header_for(len: nat) -> Seq<u8> {
    be32_bytes(len % 4294967296)
}

/// The header sent before a captured frame of `payload_len` bytes.
pub fn frame_header(payload_len: usize) -> (h: Vec<u8>)
    ensures
        h@ == header_for(payload_len as nat),
{
    let n: u64 = (payload_len as u64) % 4294967296;
    let mut h: Vec<u8> = Vec::new();
    h.push((n / 16777216) as u8);
    h.push(((n / 65536) % 256) as u8);
    h.push(((n / 256) % 256) as u8);
    h.push((n % 256) as u8);
    h
}

/// Why a viewer refuses a frame header.
pub enum FrameError {
    /// The announced length exceeds `MAX_FRAME_LEN`.
    TooLarge { len: u32 },
}

impl FrameError {
    /// The error text reported to the viewer's caller.
    pub fn message(&self) -> (m: String)
        ensures
            m@ == "Frame too large, invalid stream"@,
    {
        String::from_str("Frame too large, invalid stream")
    }
}

/// What a viewer decides from a 4-byte header: the number of payload bytes to read,
/// or a refusal when it announces more than `MAX_FRAME_LEN`.
pub open spec fn header_decision(header: Seq<u8>) -> Result<nat, u32> {
    if be32_value(header) > MAX_FRAME_LEN as nat {
        Err(be32_value(header) as u32)
    } else {
        Ok(be32_value(header))
    }
}

/// Reads the payload length from a frame header received by a viewer.
pub fn payload_len_from_header(header: &[u8]) -> (r: Result<usize, FrameError>)
    requires
        header@.len() == 4,
    ensures
        match r {
            Ok(n) => header_decision(header@) == Ok::<nat, u32>(n as nat),
            Err(FrameError::TooLarge { len }) => header_decision(header@) == Err::<nat, u32>(len),
        },
{
    let len: u32 = (header[0] as u32) * 16777216 + (header[1] as u32) * 65536 + (header[2] as u32)
        * 256 + (header[3] as u32);
    if len > MAX_FRAME_LEN {
        Err(FrameError::TooLarge { len })
    } else {
        Ok(len as usize)
    }
}

proof fn lemma_be32_roundtrip(n: nat)
    requires
        n < 4294967296,
    ensures
        be32_bytes(n).len() == 4,
        be32_value(be32_bytes(n)) == n,
{
    let b = be32_bytes(n);
    let a0 = n / 16777216;
    let a1 = (n / 65536) % 256;
    let a2 = (n / 256) % 256;
    let a3 = n % 256;
    assert(a0 * 16777216 + a1 * 65536 + a2 * 256 + a3 == n) by (nonlinear_arith)
        requires
            a0 == n / 16777216,
            a1 == (n / 65536) % 256,
            a2 == (n / 256) % 256,
            a3 == n % 256,
    ;
    assert(a0 < 256);
}

/// A viewer reads back exactly the length a host wrote in front of a frame, and
/// accepts every frame of at most `MAX_FRAME_LEN` bytes.
pub proof fn law_frame_header_roundtrip(payload_len: nat)
    requires
        payload_len <= MAX_FRAME_LEN as nat,
    ensures
        header_for(payload_len).len() == 4,
        header_decision(header_for(payload_len)) == Ok::<nat, u32>(payload_len),
{
    lemma_be32_roundtrip(payload_len);
}

/// A viewer reading the stream a host writes for one frame (header, then payload)
/// takes the first four bytes as the header, accepts the announced length, and the
/// bytes it then reads are exactly the frame.
pub proof fn law_viewer_reads_frame(payload: Seq<u8>)
    requires
        payload.len() <= MAX_FRAME_LEN as nat,
    ensures
        ({
            let stream = header_for(payload.len()) + payload;
            &&& header_decision(stream.subrange(0, 4)) == Ok::<nat, u32>(payload.len())
            &&& stream.subrange(4, 4 + payload.len() as int) == payload
        }),
{
    lemma_be32_roundtrip(payload.len());
    let stream = header_for(payload.len()) + payload;
    assert(stream.subrange(0, 4) =~= header_for(payload.len()));
    assert(stream.subrange(4, 4 + payload.len() as int) =~= payload);
}

/// A viewer refuses every frame longer than `MAX_FRAME_LEN` (and shorter than 2^32)
/// from its header alone.
pub proof fn law_oversized_frame_refused(payload_len: nat)
    requires
        (MAX_FRAME_LEN as nat) < payload_len < 4294967296,
    ensures
        header_decision(header_for(payload_len)) matches Err(_),
{
    lemma_be32_roundtrip(payload_len);
}

// ---------------------------------------------------------------------------
// Viewer connection messages
// ---------------------------------------------------------------------------

/// `ip:port`.
pub open spec fn host_address_text(ip: Seq<char>, port: u16) -> Seq<char> {
    ip + ":"@ + decimal(port as nat)
}

/// The address a viewer connects to.
pub fn host_address(ip: &str, port: u16) -> (a: String)
    ensures
        a@ == host_address_text(ip@, port),
{
    let mut a = String::from_str(ip);
    a.append(":");
    let p = decimal_string(port as u64);
    a.append(p.as_str());
    a
}

/// The reply once a viewer has received its first frame.
pub open spec fn connected_text(addr: Seq<char>, frame_len: nat) -> Seq<char> {
    "Connected to "@ + addr + " \u{2014} received first frame ("@ + decimal(frame_len) + " bytes)"@
}

/// Builds the reply once a viewer has received its first frame of `frame_len` bytes.
pub fn connected_message(addr: &str, frame_len: usize) -> (m: String)
    ensures
        m@ == connected_text(addr@, frame_len as nat),
{
    let mut m = String::from_str("Connected to ");
    m.append(addr);
    m.append(" \u{2014} received first frame (");
    let n = decimal_string(frame_len as u64);
    m.append(n.as_str());
    m.append(" bytes)");
    m
}

// ---------------------------------------------------------------------------
// Captured frames
// ---------------------------------------------------------------------------

/// Which input byte of a BGRA pixel lands at output position `k % 4`.
pub open spec fn rgba_source_offset(k: int) -> int {
    if k % 4 == 0 {
        2
    } else if k % 4 == 2 {
        0
    } else {
        k % 4
    }
}

/// The RGBA bytes for BGRA bytes `bgra`: every whole 4-byte pixel with its first and
/// third byte swapped; a trailing partial pixel is dropped.
pub open spec fn rgba_from_bgra(bgra: Seq<u8>) -> Seq<u8> {
    Seq::new(
        (4 * (bgra.len() / 4)) as nat,
        |k: int| bgra[k - k % 4 + rgba_source_offset(k)],
    )
}

/// Converts a captured BGRA frame to RGBA.
pub fn bgra_to_rgba(frame: &[u8]) -> (rgba: Vec<u8>)
    ensures
        rgba@ == rgba_from_bgra(frame@),
{
    let n = frame.len();
    let mut rgba: Vec<u8> = Vec::new();
    let mut i: usize = 0;
    while n - i >= 4
        invariant
            n == frame@.len(),
            i % 4 == 0,
            i <= n,
            rgba@.len() == i,
            forall|k: int|
                0 <= k < i ==> #[trigger] rgba@[k] == frame@[k - k % 4 + rgba_source_offset(k)],
        decreases n - i,
    {
        rgba.push(frame[i + 2]);
        rgba.push(frame[i + 1]);
        rgba.push(frame[i]);
        rgba.push(frame[i + 3]);
        i = i + 4;
    }
    assert(i == 4 * (n / 4));
    assert(rgba@ =~= rgba_from_bgra(frame@));
    rgba
}

/// Whether an RGBA buffer of `len` bytes can hold a `width` x `height` image, as
/// `image::ImageBuffer::from_raw` decides it.
pub open spec fn fits_image(len: nat, width: u32, height: u32) -> bool {
    4 * (width as nat) * (height as nat) <= len
}

/// Pause before polling the capturer again when no frame is ready, in milliseconds.
pub const CAPTURE_POLL_MS: u64 = 10;

/// What to do when the capturer did not deliver a frame.
pub enum CaptureRetry {
    /// No frame was ready yet: sleep this many milliseconds and poll again.
    PollAgainAfter(u64),
    /// The capture failed with this error text.
    Fail(String),
}

/// Decides on a capturer error: a frame not ready yet is polled again, any other
/// error ends the capture with `Capture error: ` and its text.
pub fn on_capture_error(would_block: bool, detail: &str) -> (r: CaptureRetry)
    ensures
        if would_block {
            r == CaptureRetry::PollAgainAfter(CAPTURE_POLL_MS)
        } else {
            r matches CaptureRetry::Fail(m) && m@ == "Capture error: "@ + detail@
        },
{
    if would_block {
        CaptureRetry::PollAgainAfter(CAPTURE_POLL_MS)
    } else {
        let mut m = String::from_str("Capture error: ");
        m.append(detail);
        CaptureRetry::Fail(m)
    }
}

/// Which input byte of an RGBA pixel lands at RGB output position `k`.
pub open spec fn rgb_source_index(k: int) -> int {
    4 * (k / 3) + k % 3
}

/// The RGB bytes for RGBA bytes `rgba`: every whole 4-byte pixel without its alpha
/// byte (JPEG carries no alpha); a trailing partial pixel is dropped.
pub open spec fn rgb_from_rgba(rgba: Seq<u8>) -> Seq<u8> {
    Seq::new((3 * (rgba.len() / 4)) as nat, |k: int| rgba[rgb_source_index(k)])
}

/// Drops the alpha byte of every pixel of an RGBA buffer.
pub fn rgba_to_rgb(rgba: &[u8]) -> (rgb: Vec<u8>)
    ensures
        rgb@ == rgb_from_rgba(rgba@),
{
    let n = rgba.len();
    let mut rgb: Vec<u8> = Vec::new();
    let mut i: usize = 0;
    while n - i >= 4
        invariant
            n == rgba@.len(),
            i % 4 == 0,
            i <= n,
            rgb@.len() == 3 * (i / 4),
            forall|k: int| 0 <= k < rgb@.len() ==> #[trigger] rgb@[k] == rgba@[rgb_source_index(k)],
        decreases n - i,
    {
        rgb.push(rgba[i]);
        rgb.push(rgba[i + 1]);
        rgb.push(rgba[i + 2]);
        i = i + 4;
    }
    assert(i / 4 == n / 4);
    assert(rgb@ =~= rgb_from_rgba(rgba@));
    rgb
}

/// Whether `image`'s JPEG encoder takes an image of `width` x `height` pixels: both
/// sides between 1 and 65535.
pub open spec fn jpeg_dimensions_ok(width: u32, height: u32) -> bool {
    1 <= width <= 65535 && 1 <= height <= 65535
}

/// The outcome of encoding an RGB buffer as JPEG with `image`'s `JpegEncoder` at the
/// given quality: the JPEG bytes, or the encoder's error text.
pub uninterp spec fn jpeg_rgb_result(rgb: Seq<u8>, width: u32, height: u32, quality: u8) -> Result<
    Seq<u8>,
    Seq<char>,
>;

/// Encodes an RGB buffer with `image::codecs::jpeg::JpegEncoder::new_with_quality`
/// and `ImageEncoder::write_image` (colour type `Rgb8`). The encoder panics unless the
/// buffer holds exactly `3 * width * height` bytes, hence the `requires`. As its
/// source shows, it refuses a side of 0 or above 65535 (`InvalidSize`) and otherwise
/// writes into the `Vec`, which cannot fail; the output starts with the SOI marker
/// `FF D8` and ends with the EOI marker `FF D9`. The compressed bytes and the error
/// text are tied to the name `jpeg_rgb_result`.
#[verifier::external_body]
fn encode_jpeg_rgb(rgb: &[u8], width: u32, height: u32, quality: u8) -> (r: Result<
    Vec<u8>,
    String,
>)
    requires
        rgb@.len() == 3 * (width as nat) * (height as nat),
    ensures
        r is Ok <==> jpeg_dimensions_ok(width, height),
        match r {
            Ok(j) => {
                &&& jpeg_rgb_result(rgb@, width, height, quality) == Ok::<Seq<u8>, Seq<char>>(j@)
                &&& j@.len() >= 4
                &&& j@[0] == 0xFFu8 && j@[1] == 0xD8u8
                &&& j@[j@.len() - 2] == 0xFFu8 && j@[j@.len() - 1] == 0xD9u8
            },
            Err(m) => jpeg_rgb_result(rgb@, width, height, quality) == Err::<
                Seq<u8>,
                Seq<char>,
            >(m@),
        },
{
    let mut out: Vec<u8> = Vec::new();
    let encoder = image::codecs::jpeg::JpegEncoder::new_with_quality(&mut out, quality);
    match image::ImageEncoder::write_image(
        encoder,
        rgb,
        width,
        height,
        image::ExtendedColorType::Rgb8,
    ) {
        Ok(()) => Ok(out),
        Err(e) => Err(e.to_string()),
    }
}

/// The outcome of turning a captured BGRA frame into JPEG bytes: the frame is read
/// as RGBA pixels, checked to cover the screen, and encoded without its alpha.
pub open spec fn capture_jpeg_result(bgra: Seq<u8>, width: u32, height: u32) -> Result<
    Seq<u8>,
    Seq<char>,
> {
    let rgba = rgba_from_bgra(bgra);
    if !fits_image(rgba.len(), width, height) {
        Err("Failed to create image buffer"@)
    } else {
        match jpeg_rgb_result(rgb_from_rgba(rgba), width, height, JPEG_QUALITY) {
            Ok(j) => Ok(j),
            Err(m) => Err("JPEG encode error: "@ + m),
        }
    }
}

/// Whether a captured frame can be encoded: its whole pixels do not outnumber
/// `width * height` (the JPEG encoder panics on frames whose pixels do).
pub open spec fn capture_encodable(bgra_len: nat, width: u32, height: u32) -> bool {
    4 * (bgra_len / 4) <= 4 * (width as nat) * (height as nat)
}

/// `width * height`, computed without overflow.
fn pixel_count(width: u32, height: u32) -> (p: u128)
    ensures
        p as nat == (width as nat) * (height as nat),
        4 * (p as nat) == 4 * (width as nat) * (height as nat),
        p <= 18446744065119617025u128,
{
    assert((width as nat) * (height as nat) <= 4294967295 * 4294967295) by (nonlinear_arith)
        requires
            width <= 4294967295,
            height <= 4294967295,
    ;
    assert(4 * ((width as nat) * (height as nat)) == 4 * (width as nat) * (height as nat))
        by (nonlinear_arith);
    (width as u128) * (height as u128)
}

/// Checks whether a captured frame can be handed to `capture_to_jpeg`.
pub fn is_capture_encodable(bgra_len: usize, width: u32, height: u32) -> (b: bool)
    ensures
        b == capture_encodable(bgra_len as nat, width, height),
{
    let pixels: u128 = pixel_count(width, height);
    ((bgra_len / 4) as u128) <= pixels
}

/// Turns a captured BGRA frame of `width` x `height` pixels into JPEG bytes. It
/// succeeds exactly when the frame covers the screen and both sides are between 1
/// and 65535, and then yields one JPEG stream, from the SOI marker `FF D8` to the
/// EOI marker `FF D9`.
pub fn capture_to_jpeg(bgra: &[u8], width: u32, height: u32) -> (r: Result<Vec<u8>, String>)
    requires
        capture_encodable(bgra@.len(), width, height),
    ensures
        match r {
            Ok(j) => capture_jpeg_result(bgra@, width, height) == Ok::<Seq<u8>, Seq<char>>(j@),
            Err(m) => capture_jpeg_result(bgra@, width, height) == Err::<Seq<u8>, Seq<char>>(m@),
        },
        r is Ok <==> (fits_image(4 * (bgra@.len() / 4), width, height) && jpeg_dimensions_ok(
            width,
            height,
        )),
        r matches Ok(j) ==> {
            &&& j@.len() >= 4
            &&& j@[0] == 0xFFu8 && j@[1] == 0xD8u8
            &&& j@[j@.len() - 2] == 0xFFu8 && j@[j@.len() - 1] == 0xD9u8
        },
{
    let rgba = bgra_to_rgba(bgra);
    let pixels: u128 = pixel_count(width, height);
    if (rgba.len() as u128) < 4 * pixels {
        Err(String::from_str("Failed to create image buffer"))
    } else {
        let rgb = rgba_to_rgb(rgba.as_slice());
        proof {
            let p = (width as nat) * (height as nat);
            assert(rgba@.len() == 4 * p);
            assert(rgba@.len() / 4 == p);
            assert(3 * p == 3 * (width as nat) * (height as nat)) by (nonlinear_arith)
                requires
                    p == (width as nat) * (height as nat),
            ;
        }
        jpeg_outcome(encode_jpeg_rgb(rgb.as_slice(), width, height, JPEG_QUALITY))
    }
}

/// A captured frame that covers the screen is encoded at quality 60 from its pixels
/// with red and blue put back in place: pixel `p` of the encoded image has red
/// `bgra[4p+2]`, green `bgra[4p+1]` and blue `bgra[4p]`, and the alpha byte is
/// dropped. The capture yields the encoder's bytes, or its error text behind
/// `JPEG encode error: `.
pub proof fn law_capture_encodes_screen_colours(
    bgra: Seq<u8>,
    width: u32,
    height: u32,
    rgb: Seq<u8>,
)
    requires
        bgra.len() / 4 == (width as nat) * (height as nat),
        rgb.len() == 3 * ((width as nat) * (height as nat)),
        forall|p: int|
            0 <= p < (width as nat) * (height as nat) ==> {
                &&& #[trigger] rgb[3 * p] == bgra[4 * p + 2]
                &&& rgb[3 * p + 1] == bgra[4 * p + 1]
                &&& rgb[3 * p + 2] == bgra[4 * p]
            },
    ensures
        jpeg_rgb_result(rgb, width, height, 60u8) matches Ok(j) ==> capture_jpeg_result(
            bgra,
            width,
            height,
        ) == Ok::<Seq<u8>, Seq<char>>(j),
        jpeg_rgb_result(rgb, width, height, 60u8) matches Err(m) ==> capture_jpeg_result(
            bgra,
            width,
            height,
        ) == Err::<Seq<u8>, Seq<char>>("JPEG encode error: "@ + m),
{
    let n: nat = (width as nat) * (height as nat);
    let rgba = rgba_from_bgra(bgra);
    assert(rgba.len() == 4 * n);
    assert(4 * (width as nat) * (height as nat) == 4 * n) by (nonlinear_arith)
        requires
            n == (width as nat) * (height as nat),
    ;
    let conv = rgb_from_rgba(rgba);
    assert(conv.len() == 3 * n);
    assert forall|k: int| 0 <= k < 3 * n implies #[trigger] conv[k] == rgb[k] by {
        let q = k / 3;
        let r = k % 3;
        assert(k == 3 * q + r);
        assert(0 <= q < n);
        let i = 4 * q + r;
        assert(rgb_source_index(k) == i);
        assert(i % 4 == r && i - i % 4 == 4 * q);
        assert(rgba[i] == bgra[4 * q + rgba_source_offset(i)]);
        assert(rgb[3 * q] == bgra[4 * q + 2]);
    }
    assert(conv =~= rgb);
}

/// What a capture yields once the JPEG encoder has answered: its bytes, or its error
/// text behind `JPEG encode error: `.
pub fn jpeg_outcome(encoded: Result<Vec<u8>, String>) -> (r: Result<Vec<u8>, String>)
    ensures
        match encoded {
            Ok(j) => r matches Ok(x) && x@ == j@,
            Err(m) => r matches Err(e) && e@ == "JPEG encode error: "@ + m@,
        },
{
    match encoded {
        Ok(j) => Ok(j),
        Err(m) => {
            let mut msg = String::from_str("JPEG encode error: ");
            msg.append(m.as_str());
            Err(msg)
        },
    }
}

/// The character of the standard Base64 alphabet for a 6-bit value `v`.
pub open spec fn base64_char(v: nat) -> char {
    if v < 26 {
        (65 + v) as char
    } else if v < 52 {
        (71 + v) as char
    } else if v < 62 {
        (v - 4) as char
    } else if v == 62 {
        '+'
    } else {
        '/'
    }
}

/// The standard Base64 encoding of `data` (RFC 4648 alphabet, `=` padding): each
/// group of three bytes becomes four characters, and a final group of one or two
/// bytes becomes two or three characters followed by `=` padding.
pub open spec fn base64_standard(data: Seq<u8>) -> Seq<char>
    decreases data.len(),
{
    if data.len() == 0 {
        Seq::empty()
    } else if data.len() == 1 {
        let a = data[0] as nat;
        seq![base64_char(a / 4), base64_char((a % 4) * 16), '=', '=']
    } else if data.len() == 2 {
        let a = data[0] as nat;
        let b = data[1] as nat;
        seq![base64_char(a / 4), base64_char((a % 4) * 16 + b / 16), base64_char((b % 16) * 4), '=']
    } else {
        let a = data[0] as nat;
        let b = data[1] as nat;
        let c = data[2] as nat;
        seq![
            base64_char(a / 4),
            base64_char((a % 4) * 16 + b / 16),
            base64_char((b % 16) * 4 + c / 64),
            base64_char(c % 64),
        ] + base64_standard(data.subrange(3, data.len() as int))
    }
}

/// Whether `len` input bytes have a Base64 encoding whose length fits in a `usize`.
pub open spec fn base64_len_fits(len: nat) -> bool {
    4 * ((len + 2) / 3) <= usize::MAX as nat
}

/// Checks `base64_len_fits` for `len`.
pub fn fits_base64(len: usize) -> (b: bool)
    ensures
        b == base64_len_fits(len as nat),
{
    len / 3 + (if len % 3 == 0 { 0 } else { 1 }) <= usize::MAX / 4
}

/// Calls `base64::Engine::encode` on the `STANDARD` engine, which panics when the
/// encoded length overflows a `usize`, hence the `requires`. The result is the
/// standard padded Base64 text (`base64_standard`).
#[verifier::external_body]
fn base64_encode(data: &[u8]) -> (s: String)
    requires
        base64_len_fits(data@.len()),
    ensures
        s@ == base64_standard(data@),
{
    base64::Engine::encode(&base64::engine::general_purpose::STANDARD, data)
}

/// The text form of a frame returned to a local caller: its Base64 encoding.
pub fn frame_base64(jpeg: &[u8]) -> (s: String)
    requires
        base64_len_fits(jpeg@.len()),
    ensures
        s@ == base64_standard(jpeg@),
{
    base64_encode(jpeg)
}

// ---------------------------------------------------------------------------
// Serving a viewer
// ---------------------------------------------------------------------------

/// One thing the host does for a connected viewer.
pub enum ViewerAction {
    /// Write these bytes to the viewer; stop serving it if the write fails.
    Write(Vec<u8>),
    /// Sleep this many milliseconds.
    Pause(u64),
}

/// What the host does after one capture attempt for a viewer: a captured frame is
/// sent as header then payload and followed by the frame interval; a failed capture
/// waits the retry delay and then the frame interval.
pub fn viewer_actions(capture: Result<Vec<u8>, String>) -> (actions: Vec<ViewerAction>)
    ensures
        match capture {
            Ok(frame) => {
                &&& actions@.len() == 3
                &&& actions@[0] matches ViewerAction::Write(h) && h@ == header_for(frame@.len())
                &&& actions@[1] matches ViewerAction::Write(p) && p@ == frame@
                &&& actions@[2] == ViewerAction::Pause(FRAME_INTERVAL_MS)
            },
            Err(_) => {
                &&& actions@.len() == 2
                &&& actions@[0] == ViewerAction::Pause(CAPTURE_RETRY_MS)
                &&& actions@[1] == ViewerAction::Pause(FRAME_INTERVAL_MS)
            },
        },
{
    let mut actions: Vec<ViewerAction> = Vec::new();
    match capture {
        Ok(frame) => {
            actions.push(ViewerAction::Write(frame_header(frame.len())));
            actions.push(ViewerAction::Write(frame));
            actions.push(ViewerAction::Pause(FRAME_INTERVAL_MS));
        },
        Err(_) => {
            actions.push(ViewerAction::Pause(CAPTURE_RETRY_MS));
            actions.push(ViewerAction::Pause(FRAME_INTERVAL_MS));
        },
    }
    actions
}

// ---------------------------------------------------------------------------
// Hosting control
// ---------------------------------------------------------------------------

/// What the screen host is asked to handle.
pub enum HostEvent {
    /// A caller asked to start hosting on `port`.
    StartRequested { port: u16 },
    /// The primary display was opened for a start on `port`; it measures `width` x `height`.
    DisplayOpened { port: u16, width: u32, height: u32 },
    /// Opening the primary display failed with `detail`.
    DisplayFailed { detail: String },
    /// Binding the listening socket failed.
    ListenerFailed,
    /// A caller asked to stop hosting.
    StopRequested,
}

/// What the caller must do next.
pub enum HostAction {
    /// Answer the pending request with `Ok` and this text.
    ReplyOk(String),
    /// Answer the pending request with `Err` and this text.
    ReplyErr(String),
    /// Open the primary display, then report `DisplayOpened` or `DisplayFailed`.
    OpenDisplay { port: u16 },
    /// Bind `port`, serve viewers while hosting lasts, and answer with `Ok(reply)`.
    Listen { port: u16, reply: String },
    /// Answer a stop request with `Ok(())`.
    Stopped,
    /// Nothing to do.
    Idle,
}

/// The hosting flag and the last measured screen size.
pub struct ScreenHost {
    hosting: bool,
    width: u32,
    height: u32,
}

/// The text answering a start request that is already being served.
pub open spec fn already_hosting_text() -> Seq<char> {
    "Already hosting"@
}

/// The text answering a successful start on `port`.
pub open spec fn hosting_started_text(port: u16) -> Seq<char> {
    "Hosting started on port "@ + decimal(port as nat)
}

impl ScreenHost {
    pub closed spec fn hosting_spec(&self) -> bool {
        self.hosting
    }

    pub closed spec fn screen_size_spec(&self) -> (u32, u32) {
        (self.width, self.height)
    }

    /// A host that is not streaming and has not measured the screen.
    pub fn new() -> (h: ScreenHost)
        ensures
            !h.hosting_spec(),
            h.screen_size_spec() == (0u32, 0u32),
    {
        ScreenHost { hosting: false, width: 0, height: 0 }
    }

    /// Whether viewers should still be served.
    pub fn is_hosting(&self) -> (b: bool)
        ensures
            b == self.hosting_spec(),
    {
        self.hosting
    }

    /// The last measured screen size.
    pub fn screen_size(&self) -> (s: (u32, u32))
        ensures
            s == self.screen_size_spec(),
    {
        (self.width, self.height)
    }

    /// Advances the host on `event` and says what to do.
    pub fn step(&mut self, event: HostEvent) -> (action: HostAction)
        ensures
            match event {
                HostEvent::StartRequested { port } => if old(self).hosting_spec() {
                    &&& *final(self) == *old(self)
                    &&& action matches HostAction::ReplyOk(m) && m@ == already_hosting_text()
                } else {
                    &&& final(self).hosting_spec()
                    &&& final(self).screen_size_spec() == old(self).screen_size_spec()
                    &&& action == HostAction::OpenDisplay { port }
                },
                HostEvent::DisplayOpened { port, width, height } => {
                    &&& final(self).hosting_spec() == old(self).hosting_spec()
                    &&& final(self).screen_size_spec() == (width, height)
                    &&& action matches HostAction::Listen { port: p, reply } && p == port
                        && reply@ == hosting_started_text(port)
                },
                HostEvent::DisplayFailed { detail } => {
                    &&& *final(self) == *old(self)
                    &&& action matches HostAction::ReplyErr(m) && m@ == "Display error: "@
                        + detail@
                },
                HostEvent::ListenerFailed => {
                    &&& !final(self).hosting_spec()
                    &&& final(self).screen_size_spec() == old(self).screen_size_spec()
                    &&& action is Idle
                },
                HostEvent::StopRequested => {
                    &&& !final(self).hosting_spec()
                    &&& final(self).screen_size_spec() == old(self).screen_size_spec()
                    &&& action is Stopped
                },
            },
    {
        match event {
            HostEvent::StartRequested { port } => {
                if self.hosting {
                    HostAction::ReplyOk(String::from_str("Already hosting"))
                } else {
                    self.hosting = true;
                    HostAction::OpenDisplay { port }
                }
            },
            HostEvent::DisplayOpened { port, width, height } => {
                self.width = width;
                self.height = height;
                let mut reply = String::from_str("Hosting started on port ");
                let p = decimal_string(port as u64);
                reply.append(p.as_str());
                HostAction::Listen { port, reply }
            },
            HostEvent::DisplayFailed { detail } => {
                let mut m = String::from_str("Display error: ");
                m.append(detail.as_str());
                HostAction::ReplyErr(m)
            },
            HostEvent::ListenerFailed => {
                self.hosting = false;
                HostAction::Idle
            },
            HostEvent::StopRequested => {
                self.hosting = false;
                HostAction::Stopped
            },
        }
    }
}

} // verus!
