use vstd::prelude::*;

verus! {

/// Side of the square canvas the classifier consumes.
pub const CANVAS: u32 = 224;

/// Long-edge-preserving target size of a `width` x `height` image: the longer
/// side becomes `CANVAS`, the other is scaled by the same factor and rounded
/// down.
pub open spec fn target_size(width: int, height: int) -> (int, int) {
    if width > height {
        (CANVAS as int, (CANVAS * height) / width)
    } else {
        ((CANVAS * width) / height, CANVAS as int)
    }
}

/// Offsets that centre an image of the given size on the canvas.
pub open spec fn centre_offsets(width: int, height: int) -> (int, int) {
    ((CANVAS - width) / 2, (CANVAS - height) / 2)
}

/// Size an image is resized to before padding; `None` for an empty image.
pub fn resize_dims(width: u32, height: u32) -> (r: Option<(u32, u32)>)
    ensures
        r.is_none() <==> (width == 0 || height == 0),
        r matches Some((w, h)) ==> (w as int, h as int) == target_size(width as int, height as int),
        r matches Some((w, h)) ==> w <= CANVAS && h <= CANVAS,
{
    if width == 0 || height == 0 {
        return None;
    }
    if width > height {
        let h = (224u64 * height as u64) / width as u64;
        assert((224 * height as int) / width as int <= 224) by (nonlinear_arith)
            requires
                width > height,
        ;
        Some((CANVAS, h as u32))
    } else {
        let w = (224u64 * width as u64) / height as u64;
        assert((224 * width as int) / height as int <= 224) by (nonlinear_arith)
            requires
                width <= height,
                height > 0,
        ;
        Some((w as u32, CANVAS))
    }
}

/// Offsets at which an image of the given size is placed on the canvas.
pub fn padding(width: u32, height: u32) -> (r: (u32, u32))
    requires
        width <= CANVAS,
        height <= CANVAS,
    ensures
        (r.0 as int, r.1 as int) == centre_offsets(width as int, height as int),
        r.0 + width <= CANVAS,
        r.1 + height <= CANVAS,
{
    ((CANVAS - width) / 2, (CANVAS - height) / 2)
}

} // verus!
