//! The screenshot persister: flattens a frame to raw RGBA bytes, encodes
//! them as PNG, and lays out the file's name and full path. Writing the
//! bytes to disk is the caller's business.

use vstd::prelude::*;

use crate::errors::AppError;
use crate::frame::{Frame, Pixel};
use crate::naming::{
    filename_chars,
    make_filename,
    matches_screenshot_name,
    now_timestamp,
    fresh_suffix,
    CaptureKind,
    Timestamp,
};
use crate::paths::{ends_with, join_path, screenshots_dir, screenshots_folder_chars};

verus! {

/// The four bytes of one pixel, in RGBA order.
pub open spec fn pixel_bytes(p: Pixel) -> Seq<u8> {
    seq![p.r, p.g, p.b, p.a]
}

/// The bytes of one row, pixel after pixel.
pub open spec fn row_bytes(row: Seq<Pixel>) -> Seq<u8>
    decreases row.len(),
{
    if row.len() == 0 {
        Seq::empty()
    } else {
        row_bytes(row.drop_last()) + pixel_bytes(row.last())
    }
}

/// The bytes of a whole frame, row after row from the top.
pub open spec fn frame_bytes(rows: Seq<Vec<Pixel>>) -> Seq<u8>
    decreases rows.len(),
{
    if rows.len() == 0 {
        Seq::empty()
    } else {
        frame_bytes(rows.drop_last()) + row_bytes(rows.last()@)
    }
}

proof fn lemma_row_bytes_len(row: Seq<Pixel>)
    ensures
        row_bytes(row).len() == 4 * row.len(),
    decreases row.len(),
{
    if row.len() > 0 {
        lemma_row_bytes_len(row.drop_last());
    }
}

proof fn lemma_frame_bytes_len(rows: Seq<Vec<Pixel>>, w: int)
    requires
        forall|j: int| 0 <= j < rows.len() ==> (#[trigger] rows[j])@.len() == w,
    ensures
        frame_bytes(rows).len() == 4 * w * rows.len(),
    decreases rows.len(),
{
    if rows.len() > 0 {
        lemma_frame_bytes_len(rows.drop_last(), w);
        lemma_row_bytes_len(rows.last()@);
        assert(4 * w * (rows.len() - 1) + 4 * w == 4 * w * rows.len()) by (nonlinear_arith);
    }
}

/// The frame's pixels as one flat buffer of RGBA bytes, row-major.
pub fn to_rgba_bytes(frame: &Frame) -> (r: Vec<u8>)
    requires
        frame.wf(),
    ensures
        r@ == frame_bytes(frame.rows@),
        r@.len() == 4 * frame.width * frame.height,
{
    let mut bytes: Vec<u8> = Vec::new();
    let mut y: usize = 0;
    while y < frame.rows.len()
        invariant
            frame.wf(),
            y <= frame.rows@.len(),
            bytes@ == frame_bytes(frame.rows@.take(y as int)),
        decreases frame.rows@.len() - y,
    {
        let row = &frame.rows[y];
        let mut x: usize = 0;
        while x < row.len()
            invariant
                frame.wf(),
                y < frame.rows@.len(),
                row == frame.rows@[y as int],
                x <= row@.len(),
                bytes@ == frame_bytes(frame.rows@.take(y as int)) + row_bytes(row@.take(x as int)),
            decreases row@.len() - x,
        {
            let p = row[x];
            bytes.push(p.r);
            bytes.push(p.g);
            bytes.push(p.b);
            bytes.push(p.a);
            proof {
                assert(row@.take(x + 1).drop_last() =~= row@.take(x as int));
                assert(bytes@ =~= frame_bytes(frame.rows@.take(y as int)) + row_bytes(
                    row@.take(x + 1),
                ));
            }
            x = x + 1;
        }
        proof {
            assert(row@.take(row@.len() as int) =~= row@);
            assert(frame.rows@.take(y + 1).drop_last() =~= frame.rows@.take(y as int));
            assert(frame.rows@.take(y + 1).last() == frame.rows@[y as int]);
        }
        y = y + 1;
    }
    proof {
        assert(frame.rows@.take(frame.rows@.len() as int) =~= frame.rows@);
        lemma_frame_bytes_len(frame.rows@, frame.width as int);
    }
    bytes
}

/// The PNG encoding of an RGBA buffer with the given dimensions.
pub uninterp spec fn png_of(rgba: Seq<u8>, width: u32, height: u32) -> Seq<u8>;

/// Relies on image::RgbaImage::from_raw and ImageBuffer::write_to with the
/// PNG format: encoding is a function of the pixel bytes and dimensions
/// alone, succeeds when the buffer holds exactly 4 bytes per pixel and
/// both dimensions are positive, and a successful encoding is never empty
/// (it opens with the eight-byte PNG signature).
#[verifier::external_body]
fn png_encode(rgba: &Vec<u8>, width: u32, height: u32) -> (r: Option<Vec<u8>>)
    ensures
        r matches Some(b) ==> b@ == png_of(rgba@, width, height) && b@.len() > 0,
        (rgba@.len() == 4 * width * height && width > 0 && height > 0) ==> r is Some,
{
    let img = match image::RgbaImage::from_raw(width, height, rgba.clone()) {
        Some(i) => i,
        None => return None,
    };
    let mut out = std::io::Cursor::new(Vec::new());
    match img.write_to(&mut out, image::ImageFormat::Png) {
        Ok(()) => Some(out.into_inner()),
        Err(_) => None,
    }
}

/// A frame encoded as PNG, never empty on success. A frame with a zero
/// dimension cannot be encoded and is rejected with `IoError`.
pub fn encode_frame_png(frame: &Frame) -> (r: Result<Vec<u8>, AppError>)
    requires
        frame.wf(),
    ensures
        r matches Ok(b) ==> b@ == png_of(frame_bytes(frame.rows@), frame.width, frame.height)
            && b@.len() > 0,
        (frame.width > 0 && frame.height > 0) ==> r is Ok,
        r matches Err(e) ==> e matches AppError::IoError { .. },
{
    let bytes = to_rgba_bytes(frame);
    match png_encode(&bytes, frame.width, frame.height) {
        Some(png) => Ok(png),
        None => Err(AppError::IoError { detail: "could not encode the image".to_owned() }),
    }
}

/// Everything needed to write one screenshot to disk: the file's name, its
/// full path, and the PNG bytes.
#[derive(Debug, Clone, PartialEq, Eq)]
pub struct SavePlan {
    pub file_name: String,
    pub path: String,
    pub png: Vec<u8>,
}

/// The save plan for a frame in a given directory: the generated file name
/// (which matches the screenshot name pattern), the path under the
/// directory, and the frame's PNG encoding.
pub fn plan_save(dir: &str, kind: CaptureKind, t: Timestamp, rand: u32, frame: &Frame) -> (r:
    Result<SavePlan, AppError>)
    requires
        frame.wf(),
        t.wf(),
    ensures
        r matches Ok(p) ==> {
            &&& p.file_name@ == filename_chars(kind, t, rand)
            &&& matches_screenshot_name(p.file_name@)
            &&& p.path@ == dir@ + "/"@ + p.file_name@
            &&& p.png@ == png_of(frame_bytes(frame.rows@), frame.width, frame.height)
            &&& p.png@.len() > 0
        },
        (frame.width > 0 && frame.height > 0) ==> r is Ok,
        r matches Err(e) ==> e matches AppError::IoError { .. },
{
    let png = match encode_frame_png(frame) {
        Ok(b) => b,
        Err(e) => {
            return Err(e);
        },
    };
    let file_name = make_filename(kind, t, rand);
    let path = join_path(dir, file_name.as_str());
    Ok(SavePlan { file_name, path, png })
}

/// The save plan for a frame captured now: the screenshots directory of
/// this machine, the current local time, and a fresh random suffix. The
/// plan's path is the file's name under that directory, so it ends with
/// `/` + the screenshots folder + `/` + the file name.
pub fn plan_save_now(frame: &Frame, kind: CaptureKind) -> (r: Result<SavePlan, AppError>)
    requires
        frame.wf(),
    ensures
        r matches Ok(p) ==> {
            &&& matches_screenshot_name(p.file_name@)
            &&& p.png@ == png_of(frame_bytes(frame.rows@), frame.width, frame.height)
            &&& p.png@.len() > 0
            &&& ends_with(
                p.path@,
                seq!['/'] + screenshots_folder_chars() + seq!['/'] + p.file_name@,
            )
        },
        r matches Err(e) ==> (e == AppError::DirectoryUnavailable || e matches AppError::IoError {
            ..
        }),
{
    let dir = match screenshots_dir() {
        Ok(d) => d,
        Err(e) => {
            return Err(e);
        },
    };
    let t = now_timestamp();
    let rand = fresh_suffix();
    let r = plan_save(dir.as_str(), kind, t, rand, frame);
    proof {
        reveal_strlit("/");
        match &r {
            Ok(p) => {
                let tail = seq!['/'] + screenshots_folder_chars();
                let suffix = tail + seq!['/'] + p.file_name@;
                assert(p.path@.subrange(p.path@.len() - suffix.len(), p.path@.len() as int)
                    =~= suffix);
            },
            Err(_) => {},
        }
    }
    r
}

} // verus!
