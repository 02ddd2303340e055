use vstd::prelude::*;
use crate::codec::{decode_rgba, resize_triangle, triangle_resized};
use crate::geometry::{CANVAS, centre_offsets, resize_dims, target_size};
use crate::raster::{Raster, canvas_byte, channel_planes, compose, plane_index, rgba_index};
use crate::scores::{all_nan, argmax, is_first_max};

verus! {

/// The three steps that turn a model file into something that can run.
#[derive(PartialEq, Eq, Structural, Debug, Clone, Copy)]
pub enum ModelPhase {
    Load,
    Optimize,
    Compile,
}

/// Where a request can fail.
#[derive(PartialEq, Eq, Structural, Debug, Clone, Copy)]
pub enum Stage {
    /// Staging the uploaded bytes in scratch storage.
    Staging,
    /// Decoding the upload into pixels.
    Decoding,
    /// Preparing the model.
    Model(ModelPhase),
    /// Running the model on the tensor.
    Running,
}

/// Failure categories a request can end in.
#[derive(PartialEq, Eq, Structural, Debug, Clone, Copy)]
pub enum PipelineError {
    /// The upload is not a decodable image, or has no pixels.
    InvalidImage,
    /// The model could not be loaded, optimised or compiled.
    ModelLoad(ModelPhase),
    /// The model failed while running, or produced no usable score.
    Inference,
    /// Scratch storage for the upload could not be had.
    Resource,
}

/// Category of a failure at `stage`.
pub open spec fn error_at(stage: Stage) -> PipelineError {
    match stage {
        Stage::Staging => PipelineError::Resource,
        Stage::Decoding => PipelineError::InvalidImage,
        Stage::Model(phase) => PipelineError::ModelLoad(phase),
        Stage::Running => PipelineError::Inference,
    }
}

impl PipelineError {
    /// The error a failure at `stage` is reported as. Any failure while the
    /// model is prepared, a missing file included, is a model-loading error,
    /// never an inference error.
    pub fn at_stage(stage: Stage) -> (r: PipelineError)
        ensures
            r == error_at(stage),
            stage matches Stage::Model(_) ==> r matches PipelineError::ModelLoad(_),
    {
        match stage {
            Stage::Staging => PipelineError::Resource,
            Stage::Decoding => PipelineError::InvalidImage,
            Stage::Model(phase) => PipelineError::ModelLoad(phase),
            Stage::Running => PipelineError::Inference,
        }
    }

    /// Whether the caller can correct the failure (a bad upload) rather than
    /// the server.
    pub fn is_client_error(&self) -> (r: bool)
        ensures
            r <==> *self == PipelineError::InvalidImage,
    {
        match self {
            PipelineError::InvalidImage => true,
            _ => false,
        }
    }

    /// HTTP status the failure is answered with: 400 for a client error,
    /// 500 otherwise.
    pub fn status_code(&self) -> (r: u16)
        ensures
            r == (if *self == PipelineError::InvalidImage { 400u16 } else { 500u16 }),
    {
        if self.is_client_error() {
            400
        } else {
            500
        }
    }
}

/// RGBA bytes of an image of `width` x `height` pixels after it is resized to
/// its target size; nothing when one side of that size rounds down to zero.
pub open spec fn resized_pixels(pixels: Seq<u8>, width: int, height: int) -> Seq<u8> {
    let (nw, nh) = target_size(width, height);
    if nw == 0 || nh == 0 {
        Seq::empty()
    } else {
        triangle_resized(pixels, width as u32, height as u32, nw as u32, nh as u32)
    }
}

/// Intensity at channel `c` of tensor position (`y`, `x`) for an image:
/// resized to its target size, centred on the zeroed canvas.
pub open spec fn tensor_byte(pixels: Seq<u8>, width: int, height: int, c: int, y: int, x: int) -> u8 {
    let (nw, nh) = target_size(width, height);
    canvas_byte(resized_pixels(pixels, width, height), nw, nh, y, x, c)
}

/// `t` is the channel-major tensor of intensities of the image.
pub open spec fn is_tensor_of(t: Seq<u8>, pixels: Seq<u8>, width: int, height: int) -> bool {
    &&& t.len() == 3 * CANVAS * CANVAS
    &&& forall|c: int, y: int, x: int|
        0 <= c < 3 && 0 <= y < CANVAS && 0 <= x < CANVAS ==> #[trigger] t[plane_index(c, y, x)]
            == tensor_byte(pixels, width, height, c, y, x)
}

/// Turns a decoded image into the channel-major 3 x `CANVAS` x `CANVAS`
/// intensities the classifier is fed (before per-channel normalisation).
/// An image without pixels is refused.
pub fn prepare(img: &Raster) -> (r: Result<Vec<u8>, PipelineError>)
    requires
        img.wf(),
    ensures
        r.is_err() <==> (img.width == 0 || img.height == 0),
        r matches Err(e) ==> e == PipelineError::InvalidImage,
        r matches Ok(t) ==> is_tensor_of(t@, img.pixels@, img.width as int, img.height as int),
{
    let (nw, nh) = match resize_dims(img.width, img.height) {
        None => {
            return Err(PipelineError::InvalidImage);
        },
        Some(dims) => dims,
    };
    let resized = if nw == 0 || nh == 0 {
        Raster { width: nw, height: nh, pixels: Vec::new() }
    } else {
        Raster {
            width: nw,
            height: nh,
            pixels: resize_triangle(&img.pixels, img.width, img.height, nw, nh),
        }
    };
    assert(resized.wf()) by (nonlinear_arith)
        requires
            resized.pixels@.len() == 4 * nw * nh || (resized.pixels@.len() == 0 && (nw == 0 || nh
                == 0)),
            resized.width == nw,
            resized.height == nh,
    ;
    assert(resized.pixels@ == resized_pixels(img.pixels@, img.width as int, img.height as int));
    let canvas = compose(&resized);
    let t = channel_planes(&canvas);
    assert forall|c: int, y: int, x: int|
        0 <= c < 3 && 0 <= y < CANVAS && 0 <= x < CANVAS implies #[trigger] t@[plane_index(c, y, x)]
            == tensor_byte(img.pixels@, img.width as int, img.height as int, c, y, x) by {
        assert(canvas.pixels@[rgba_index(CANVAS as int, y, x, c)] == canvas_byte(
            resized.pixels@,
            nw as int,
            nh as int,
            y,
            x,
            c,
        ));
    }
    Ok(t)
}

/// Decodes an encoded image (PNG, JPEG) and prepares it as `prepare` does.
/// Bytes that do not decode, or decode to no pixels, are an invalid image.
/// Which pixels a decoder produces is left to it; what comes back is always
/// the tensor of some non-empty RGBA image.
pub fn prepare_encoded(bytes: &[u8]) -> (r: Result<Vec<u8>, PipelineError>)
    ensures
        r matches Err(e) ==> e == PipelineError::InvalidImage,
        r matches Ok(t) ==> exists|w: u32, h: u32, p: Seq<u8>|
            w > 0 && h > 0 && p.len() == 4 * w * h && #[trigger] is_tensor_of(
                t@,
                p,
                w as int,
                h as int,
            ),
{
    match decode_rgba(bytes) {
        None => Err(PipelineError::InvalidImage),
        Some((w, h, p)) => match Raster::from_rgba(w, h, p) {
            None => Err(PipelineError::InvalidImage),
            Some(img) => {
                let r = prepare(&img);
                if let Ok(t) = &r {
                    assert(is_tensor_of(t@, img.pixels@, img.width as int, img.height as int));
                }
                r
            },
        },
    }
}

/// Class predicted from the model's scores, given as IEEE-754 single bit
/// patterns: the first largest non-NaN score. Scores that are all NaN, or
/// none at all, are an inference failure.
pub fn predicted_class(scores: &Vec<u32>) -> (r: Result<usize, PipelineError>)
    ensures
        r.is_err() <==> all_nan(scores@),
        r matches Err(e) ==> e == PipelineError::Inference,
        r matches Ok(i) ==> is_first_max(scores@, i as int),
{
    match argmax(scores) {
        None => Err(PipelineError::Inference),
        Some(i) => Ok(i),
    }
}

/// A square image fills the whole canvas: both sides become `CANVAS` and the
/// padding is zero on both axes.
pub proof fn lemma_square_fills_canvas(side: int)
    requires
        side > 0,
    ensures
        target_size(side, side) == (CANVAS as int, CANVAS as int),
        centre_offsets(CANVAS as int, CANVAS as int) == (0int, 0int),
{
    assert((CANVAS * side) / side == CANVAS) by (nonlinear_arith)
        requires
            side > 0,
    ;
}

/// A landscape image is resized to the full canvas width and at most the
/// canvas height, is centred vertically, and every tensor row above or below
/// it holds zero in every channel.
pub proof fn lemma_landscape_rows(pixels: Seq<u8>, width: int, height: int, c: int, y: int, x: int)
    requires
        width > height > 0,
        0 <= c < 3,
        0 <= y < CANVAS,
        0 <= x < CANVAS,
        ({
            let (nw, nh) = target_size(width, height);
            let (px, py) = centre_offsets(nw, nh);
            y < py || y >= py + nh
        }),
    ensures
        target_size(width, height).0 == CANVAS,
        0 <= target_size(width, height).1 <= CANVAS,
        centre_offsets(target_size(width, height).0, target_size(width, height).1).1 == (CANVAS
            - target_size(width, height).1) / 2,
        tensor_byte(pixels, width, height, c, y, x) == 0,
{
    assert(0 <= (CANVAS * height) / width <= CANVAS) by (nonlinear_arith)
        requires
            width > height > 0,
    ;
}

} // verus!
