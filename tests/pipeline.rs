use image_predict::pipeline::{prepare, prepare_encoded, PipelineError};
use image_predict::raster::{channel_planes, compose, Raster};

const SIDE: usize = 224;
const PLANE: usize = SIDE * SIDE;
const MEAN: [f32; 3] = [0.485, 0.456, 0.406];
const STD: [f32; 3] = [0.229, 0.224, 0.225];

fn solid(width: u32, height: u32, rgba: [u8; 4]) -> Raster {
    let mut pixels = Vec::new();
    for _ in 0..(width as usize * height as usize) {
        pixels.extend_from_slice(&rgba);
    }
    Raster { width, height, pixels }
}

fn normalized(intensity: u8, c: usize) -> f32 {
    (intensity as f32 / 255.0 - MEAN[c]) / STD[c]
}

#[test]
fn raster_length_is_checked() {
    assert!(Raster::from_rgba(2, 2, vec![0; 16]).is_some());
    assert!(Raster::from_rgba(2, 2, vec![0; 15]).is_none());
    assert!(Raster::from_rgba(0, 5, Vec::new()).is_some());
}

#[test]
fn compose_centres_and_forces_alpha() {
    let img = Raster { width: 2, height: 1, pixels: vec![10, 20, 30, 0, 40, 50, 60, 7] };
    let canvas = compose(&img);
    assert_eq!((canvas.width, canvas.height), (224, 224));
    assert_eq!(canvas.pixels.len(), PLANE * 4);
    let at = |x: usize, y: usize| {
        let i = (y * SIDE + x) * 4;
        canvas.pixels[i..i + 4].to_vec()
    };
    assert_eq!(at(111, 111), vec![10, 20, 30, 255]);
    assert_eq!(at(112, 111), vec![40, 50, 60, 255]);
    assert_eq!(at(110, 111), vec![0, 0, 0, 0]);
    assert_eq!(at(113, 111), vec![0, 0, 0, 0]);
    assert_eq!(at(111, 110), vec![0, 0, 0, 0]);
    assert_eq!(at(0, 0), vec![0, 0, 0, 0]);
}

#[test]
fn planes_are_channel_major() {
    let mut canvas = solid(224, 224, [0, 0, 0, 0]);
    let i = (5 * SIDE + 7) * 4;
    canvas.pixels[i..i + 4].copy_from_slice(&[1, 2, 3, 4]);
    let t = channel_planes(&canvas);
    assert_eq!(t.len(), 3 * PLANE);
    assert_eq!(t[5 * SIDE + 7], 1);
    assert_eq!(t[PLANE + 5 * SIDE + 7], 2);
    assert_eq!(t[2 * PLANE + 5 * SIDE + 7], 3);
    assert_eq!(t.iter().filter(|&&v| v != 0).count(), 3);
}

#[test]
fn empty_image_is_invalid() {
    assert_eq!(prepare(&solid(0, 10, [0; 4])), Err(PipelineError::InvalidImage));
    assert_eq!(prepare(&solid(10, 0, [0; 4])), Err(PipelineError::InvalidImage));
}

#[test]
fn red_landscape_end_to_end() {
    let t = prepare(&solid(400, 200, [255, 0, 0, 255])).unwrap();
    assert_eq!(t.len(), 3 * PLANE);
    for y in 0..SIDE {
        let inside = (56..168).contains(&y);
        for x in 0..SIDE {
            let red = t[y * SIDE + x];
            let green = t[PLANE + y * SIDE + x];
            let blue = t[2 * PLANE + y * SIDE + x];
            if inside {
                assert_eq!((red, green, blue), (255, 0, 0), "at {x},{y}");
            } else {
                assert_eq!((red, green, blue), (0, 0, 0), "at {x},{y}");
            }
        }
    }
    assert!((normalized(t[60 * SIDE], 0) - 2.249).abs() < 1e-3);
    assert!((normalized(t[PLANE + 60 * SIDE], 1) + 2.036).abs() < 1e-3);
    assert!((normalized(t[2 * PLANE + 60 * SIDE], 2) + 1.804).abs() < 1e-3);
    assert!((normalized(t[0], 0) + 0.485 / 0.229).abs() < 1e-5);
    assert!((normalized(t[PLANE], 1) + 0.456 / 0.224).abs() < 1e-5);
    assert!((normalized(t[2 * PLANE], 2) + 0.406 / 0.225).abs() < 1e-5);
}

#[test]
fn canvas_sized_image_passes_through() {
    let mut img = solid(224, 224, [9, 8, 7, 0]);
    let i = (3 * SIDE + 4) * 4;
    img.pixels[i..i + 4].copy_from_slice(&[200, 100, 50, 0]);
    let t = prepare(&img).unwrap();
    assert_eq!(t[3 * SIDE + 4], 200);
    assert_eq!(t[PLANE + 3 * SIDE + 4], 100);
    assert_eq!(t[2 * PLANE + 3 * SIDE + 4], 50);
    assert_eq!(t[0], 9);
    assert_eq!(t[PLANE], 8);
    assert_eq!(t[2 * PLANE], 7);
}

#[test]
fn small_square_is_upscaled_to_full_canvas() {
    let t = prepare(&solid(4, 4, [0, 255, 0, 255])).unwrap();
    assert!(t[..PLANE].iter().all(|&v| v == 0));
    assert!(t[PLANE..2 * PLANE].iter().all(|&v| v == 255));
    assert!(t[2 * PLANE..].iter().all(|&v| v == 0));
}

#[test]
fn extreme_ratio_leaves_blank_canvas() {
    let t = prepare(&solid(1000, 1, [255, 255, 255, 255])).unwrap();
    assert!(t.iter().all(|&v| v == 0));
}

#[test]
fn encoded_png_is_decoded_and_prepared() {
    let img = image::RgbaImage::from_pixel(400, 200, image::Rgba([255, 0, 0, 255]));
    let mut bytes: Vec<u8> = Vec::new();
    img.write_to(&mut std::io::Cursor::new(&mut bytes), image::ImageFormat::Png).unwrap();
    let t = prepare_encoded(&bytes).unwrap();
    assert_eq!(t[100 * SIDE + 10], 255);
    assert_eq!(t[PLANE + 100 * SIDE + 10], 0);
    assert_eq!(t[10 * SIDE + 10], 0);
}

#[test]
fn rgb_png_gets_opaque_alpha() {
    let img = image::RgbImage::from_pixel(224, 224, image::Rgb([1, 2, 3]));
    let mut bytes: Vec<u8> = Vec::new();
    img.write_to(&mut std::io::Cursor::new(&mut bytes), image::ImageFormat::Png).unwrap();
    let t = prepare_encoded(&bytes).unwrap();
    assert_eq!((t[0], t[PLANE], t[2 * PLANE]), (1, 2, 3));
}

#[test]
fn undecodable_bytes_are_invalid() {
    assert_eq!(prepare_encoded(b"not an image"), Err(PipelineError::InvalidImage));
    assert_eq!(prepare_encoded(&[]), Err(PipelineError::InvalidImage));
}
