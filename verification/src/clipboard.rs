//! Clipboard payloads: building packets from what the system clipboard holds or what a peer
//! sent, and the content hashes that tell repeated clipboards apart.
use crate::digest::{sha256_hex, spec_sha256_hex};
use crate::error::RelayError;
use crate::models::{ClipboardPayload, ClipboardPayloadKind};
use crate::text::{all_whitespace, decode_utf8_text, is_blank};
use crate::transfers::LocalFileClipboard;
use vstd::prelude::*;
use vstd::slice::slice_to_vec;
use vstd::utf8::{decode_utf8, encode_utf8, valid_utf8};

verus! {

/// The largest image payload that is relayed, in bytes.
pub const MAX_IMAGE_BYTES: usize = 10 * 1024 * 1024;

/// A clipboard payload with its bytes.
#[derive(Clone, Debug)]
pub struct ClipboardPacket {
    pub meta: ClipboardPayload,
    pub bytes: Vec<u8>,
}

/// What the clipboard monitor found on the system clipboard.
#[derive(Clone, Debug)]
pub enum ClipboardMonitorEvent {
    Packet(ClipboardPacket),
    FileList(LocalFileClipboard),
}

impl ClipboardMonitorEvent {
    pub open spec fn spec_content_hash(&self) -> Seq<char> {
        match self {
            ClipboardMonitorEvent::Packet(packet) => packet.meta.hash@,
            ClipboardMonitorEvent::FileList(file_list) => file_list.hash@,
        }
    }

    /// The hash that identifies the clipboard content.
    pub fn content_hash(&self) -> (hash: String)
        ensures
            hash@ == self.spec_content_hash(),
    {
        match self {
            ClipboardMonitorEvent::Packet(packet) => packet.meta.hash.clone(),
            ClipboardMonitorEvent::FileList(file_list) => file_list.hash.clone(),
        }
    }
}

/// Whether the monitor hands a clipboard on: only when its hash differs from the last one seen.
pub fn monitor_should_dispatch(last_hash: &Option<String>, current_hash: &String) -> (dispatch: bool)
    ensures
        dispatch == match last_hash {
            Some(last) => last@ != current_hash@,
            None => true,
        },
{
    match last_hash {
        Some(last) => !(*last == *current_hash),
        None => true,
    }
}

/// What the monitor has seen after a run of clipboard reads, each the hash of what a read
/// found or none for a read that found nothing or failed: the hash it last handed on, and
/// every hash it handed on, in order.
pub open spec fn monitor_run(reads: Seq<Option<Seq<char>>>) -> (Option<Seq<char>>, Seq<Seq<char>>)
    decreases reads.len(),
{
    if reads.len() == 0 {
        (None, Seq::empty())
    } else {
        let (last, handed) = monitor_run(reads.drop_last());
        match reads.last() {
            Some(h) => if last != Some(h) {
                (Some(h), handed.push(h))
            } else {
                (last, handed)
            },
            None => (last, handed),
        }
    }
}

/// One read of the monitor: a read that found a clipboard with a new hash is handed on and
/// remembered; any other read changes nothing.
pub fn monitor_step(last_hash: &mut Option<String>, read: Option<String>) -> (dispatch: bool)
    ensures
        dispatch == (read matches Some(h) && match *old(last_hash) {
            Some(l) => l@ != h@,
            None => true,
        }),
        dispatch ==> (read matches Some(h) && *final(last_hash) == Some(h)),
        !dispatch ==> *final(last_hash) == *old(last_hash),
{
    match read {
        Some(current) => {
            if monitor_should_dispatch(last_hash, &current) {
                *last_hash = Some(current);
                true
            } else {
                false
            }
        },
        None => false,
    }
}

/// The monitor never hands on the same clipboard twice in a row, and what it remembers is
/// the last clipboard it handed on.
pub proof fn the_monitor_hands_on_only_changes(reads: Seq<Option<Seq<char>>>)
    ensures
        ({
            let (last, handed) = monitor_run(reads);
            &&& forall|i: int| 0 <= i < handed.len() - 1 ==> #[trigger] handed[i] != handed[i + 1]
            &&& handed.len() == 0 ==> last is None
            &&& handed.len() > 0 ==> last == Some(handed.last())
        }),
    decreases reads.len(),
{
    if reads.len() > 0 {
        the_monitor_hands_on_only_changes(reads.drop_last());
        let (last, handed) = monitor_run(reads.drop_last());
        match reads.last() {
            Some(h) => if last != Some(h) {
                let n = handed.push(h);
                assert forall|i: int| 0 <= i < n.len() - 1 implies #[trigger] n[i] != n[i + 1] by {
                    if i < handed.len() - 1 {
                        assert(n[i] == handed[i] && n[i + 1] == handed[i + 1]);
                    } else {
                        assert(n[i] == handed.last() && n[i + 1] == h);
                    }
                }
            },
            None => {},
        }
    }
}

/// Rebuilds a packet that a peer sent; images over the size limit are refused.
pub fn packet_from_remote(
    kind: ClipboardPayloadKind,
    mime: String,
    hash: String,
    bytes: Vec<u8>,
) -> (r: Result<ClipboardPacket, RelayError>)
    ensures
        r is Err <==> (kind == ClipboardPayloadKind::Image && bytes@.len() > MAX_IMAGE_BYTES),
        r is Err ==> r->Err_0 == RelayError::ImageTooLarge,
        r matches Ok(packet) ==> packet.meta == (ClipboardPayload {
            kind,
            mime,
            size: bytes@.len() as usize,
            hash,
        }) && packet.bytes == bytes,
{
    if kind == ClipboardPayloadKind::Image && bytes.len() > MAX_IMAGE_BYTES {
        return Err(RelayError::ImageTooLarge);
    }
    let size = bytes.len();
    Ok(ClipboardPacket { meta: ClipboardPayload { kind, mime, size, hash }, bytes })
}

/// The content hash of a payload: the hex SHA-256 digest of the label's bytes followed by the
/// payload.
pub open spec fn spec_hash_bytes(label: Seq<char>, payload: Seq<u8>) -> Seq<char> {
    spec_sha256_hex(encode_utf8(label) + payload)
}

pub fn hash_bytes(label: &str, payload: &[u8]) -> (hash: String)
    ensures
        hash@ == spec_hash_bytes(label@, payload@),
{
    let mut data = slice_to_vec(label.as_bytes());
    let mut i: usize = 0;
    let ghost start = data@;
    while i < payload.len()
        invariant
            i <= payload@.len(),
            data@ == start + payload@.subrange(0, i as int),
        decreases payload.len() - i,
    {
        data.push(payload[i]);
        i = i + 1;
    }
    assert(payload@.subrange(0, payload@.len() as int) =~= payload@);
    sha256_hex(data.as_slice())
}

/// The packet for text read from the system clipboard; none for blank text.
pub fn text_packet(text: String) -> (r: Option<ClipboardPacket>)
    ensures
        r is None <==> all_whitespace(text@),
        r matches Some(packet) ==> {
            &&& packet.meta.kind == ClipboardPayloadKind::Text
            &&& packet.meta.mime@ == "text/plain; charset=utf-8"@
            &&& packet.bytes@ == encode_utf8(text@)
            &&& packet.meta.size == packet.bytes@.len()
            &&& packet.meta.hash@ == spec_hash_bytes("text"@, encode_utf8(text@))
        },
{
    if is_blank(text.as_str()) {
        return None;
    }
    let bytes = slice_to_vec(text.as_str().as_bytes());
    let hash = hash_bytes("text", bytes.as_slice());
    let size = bytes.len();
    Some(
        ClipboardPacket {
            meta: ClipboardPayload {
                kind: ClipboardPayloadKind::Text,
                mime: String::from_str("text/plain; charset=utf-8"),
                size,
                hash,
            },
            bytes,
        },
    )
}

/// The packet for an image read from the system clipboard and encoded as PNG; images over
/// the size limit are refused.
pub fn image_packet(png_bytes: Vec<u8>) -> (r: Result<ClipboardPacket, RelayError>)
    ensures
        r is Err <==> png_bytes@.len() > MAX_IMAGE_BYTES,
        r is Err ==> r->Err_0 == RelayError::ImageTooLarge,
        r matches Ok(packet) ==> {
            &&& packet.meta.kind == ClipboardPayloadKind::Image
            &&& packet.meta.mime@ == "image/png"@
            &&& packet.bytes == png_bytes
            &&& packet.meta.size == png_bytes@.len()
            &&& packet.meta.hash@ == spec_hash_bytes("image"@, png_bytes@)
        },
{
    if png_bytes.len() > MAX_IMAGE_BYTES {
        return Err(RelayError::ImageTooLarge);
    }
    let hash = hash_bytes("image", png_bytes.as_slice());
    let size = png_bytes.len();
    Ok(
        ClipboardPacket {
            meta: ClipboardPayload {
                kind: ClipboardPayloadKind::Image,
                mime: String::from_str("image/png"),
                size,
                hash,
            },
            bytes: png_bytes,
        },
    )
}

/// The PNG file that the `image` crate writes for RGBA pixels of the given size.
pub uninterp spec fn spec_png_encoding(width: u32, height: u32, rgba: Seq<u8>) -> Option<Seq<u8>>;

/// The size and RGBA pixels that the `image` crate reads from a PNG file.
pub uninterp spec fn spec_png_decoding(png: Seq<u8>) -> Option<(u32, u32, Seq<u8>)>;

/// Encodes RGBA pixels as PNG with the `image` crate: the raw buffer becomes an `RgbaImage`
/// (`ImageBuffer::from_raw`) and is written with `DynamicImage::write_to` in
/// `ImageFormat::Png`. The PNG encoder asserts that the buffer holds exactly four bytes per
/// pixel, so the buffer must have that length. The written bytes are named, and none is
/// returned where writing fails.
#[verifier::external_body]
fn png_encode(width: u32, height: u32, rgba: Vec<u8>) -> (r: Option<Vec<u8>>)
    requires
        rgba@.len() == 4 * (width * height),
    ensures
        match spec_png_encoding(width, height, rgba@) {
            Some(png) => r matches Some(bytes) && bytes@ == png,
            None => r is None,
        },
{
    let image = image::RgbaImage::from_raw(width, height, rgba)?;
    let mut cursor = std::io::Cursor::new(Vec::new());
    image::DynamicImage::ImageRgba8(image).write_to(&mut cursor, image::ImageFormat::Png).ok()?;
    Some(cursor.into_inner())
}

/// Reads a PNG file with `image::load_from_memory_with_format` and converts it to RGBA
/// (`DynamicImage::to_rgba8`), giving its width, height and pixels; none when it cannot be
/// read.
#[verifier::external_body]
fn png_decode(png: &[u8]) -> (r: Option<(u32, u32, Vec<u8>)>)
    ensures
        match spec_png_decoding(png@) {
            Some((w, h, pixels)) => r matches Some((width, height, bytes)) && width == w && height
                == h && bytes@ == pixels,
            None => r is None,
        },
{
    let image = image::load_from_memory_with_format(png, image::ImageFormat::Png).ok()?.to_rgba8();
    Some((image.width(), image.height(), image.into_raw()))
}

/// The packet for an image that the system clipboard holds as RGBA pixels: encoded as PNG and
/// then as `image_packet` says. Refused when the pixels are not exactly four bytes for each
/// pixel of the image, when encoding fails, or when the PNG is over the size limit.
pub fn image_clipboard_packet(width: usize, height: usize, rgba: Vec<u8>) -> (r: Result<ClipboardPacket, RelayError>)
    ensures
        4 * ((width as u32) * (height as u32)) != rgba@.len() ==> r == Err::<ClipboardPacket, RelayError>(
            RelayError::ImageLayoutInvalid,
        ),
        4 * ((width as u32) * (height as u32)) == rgba@.len() ==> match spec_png_encoding(
            width as u32,
            height as u32,
            rgba@,
        ) {
            None => r == Err::<ClipboardPacket, RelayError>(RelayError::ImageEncodingFailed),
            Some(png) => if png.len() > MAX_IMAGE_BYTES {
                r == Err::<ClipboardPacket, RelayError>(RelayError::ImageTooLarge)
            } else {
                r matches Ok(packet) && packet.meta.kind == ClipboardPayloadKind::Image
                    && packet.meta.mime@ == "image/png"@ && packet.bytes@ == png
                    && packet.meta.size == png.len() && packet.meta.hash@ == spec_hash_bytes(
                    "image"@,
                    png,
                )
            },
        },
{
    let w: u32 = #[verifier::truncate] (width as u32);
    let h: u32 = #[verifier::truncate] (height as u32);
    let wide_w: u128 = w as u128;
    let wide_h: u128 = h as u128;
    assert(wide_w * wide_h <= 0xffff_ffffu128 * 0xffff_ffffu128) by (nonlinear_arith)
        requires
            wide_w <= 0xffff_ffff,
            wide_h <= 0xffff_ffff,
    ;
    let needed: u128 = 4 * (wide_w * wide_h);
    if needed != rgba.len() as u128 {
        return Err(RelayError::ImageLayoutInvalid);
    }
    match png_encode(w, h, rgba) {
        None => Err(RelayError::ImageEncodingFailed),
        Some(png) => image_packet(png),
    }
}

/// The pixels to put on the system clipboard for an image a peer sent: its size and RGBA
/// pixels, refused when the PNG cannot be read.
pub fn clipboard_image(packet: &ClipboardPacket) -> (r: Result<(u32, u32, Vec<u8>), RelayError>)
    ensures
        match spec_png_decoding(packet.bytes@) {
            Some((w, h, pixels)) => r matches Ok((width, height, bytes)) && width == w && height == h
                && bytes@ == pixels,
            None => r == Err::<(u32, u32, Vec<u8>), RelayError>(RelayError::ImageDecodingFailed),
        },
{
    match png_decode(packet.bytes.as_slice()) {
        Some(image) => Ok(image),
        None => Err(RelayError::ImageDecodingFailed),
    }
}

/// The text to put on the system clipboard for text a peer sent; refused when it is not
/// valid UTF-8.
pub fn clipboard_text(packet: &ClipboardPacket) -> (r: Result<String, RelayError>)
    ensures
        valid_utf8(packet.bytes@) ==> (r matches Ok(text) && text@ == decode_utf8(packet.bytes@)),
        !valid_utf8(packet.bytes@) ==> r == Err::<String, RelayError>(RelayError::ClipboardTextNotUtf8),
{
    match decode_utf8_text(packet.bytes.as_slice()) {
        Some(text) => Ok(text),
        None => Err(RelayError::ClipboardTextNotUtf8),
    }
}

/// Writing a peer's clipboard on a build without a system clipboard bridge: refused.
pub fn write_remote(_packet: &ClipboardPacket) -> (r: Result<(), RelayError>)
    ensures
        r == Err::<(), RelayError>(RelayError::MobileClipboardUnavailable),
{
    Err(RelayError::MobileClipboardUnavailable)
}

/// Writing a file list on a build without a file clipboard bridge: refused.
pub fn write_file_list(_paths: &Vec<String>) -> (r: Result<(), RelayError>)
    ensures
        r == Err::<(), RelayError>(RelayError::MobileFileClipboardUnavailable),
{
    Err(RelayError::MobileFileClipboardUnavailable)
}

} // verus!
