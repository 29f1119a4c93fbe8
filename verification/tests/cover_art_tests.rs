use blackbird::image_ids::ImageIds;
use blackbird::quantize::{
    art_grid_of, average_region, compute_art_grid, compute_quadrant_colors, quadrant_colors_of, ArtColorGrid, RgbImage,
};
use image::{ImageBuffer, ImageEncoder, Rgb};

fn key(name: &str) -> (String, u16, u16) {
    (name.to_string(), 4, 4)
}

#[test]
fn test_alloc_id_stable_and_monotonic() {
    let mut ids = ImageIds::new();
    let (a, b) = (key("a"), key("b"));
    assert_eq!(ids.alloc_id(&a), 1);
    assert_eq!(ids.alloc_id(&b), 2);
    assert_eq!(ids.alloc_id(&a), 1);
    assert_eq!(ids.last, 2);
}

#[test]
fn test_forget_protocol_images() {
    let mut ids = ImageIds::new();
    let k = key("a");
    let image_id = ids.alloc_id(&k);
    let released = ids.forget(&vec![k.clone()]);
    assert_eq!(released, vec![image_id]);
    assert!(ids.entries.is_empty(), "the id is released on delete");
    let released = ids.forget(&vec![key("never-rendered")]);
    assert!(released.is_empty());
    // A forgotten key gets a fresh id when drawn again.
    assert_eq!(ids.alloc_id(&k), 2);
}

fn png(width: u32, height: u32, pixel: impl Fn(u32, u32) -> [u8; 3]) -> Vec<u8> {
    let img: ImageBuffer<Rgb<u8>, Vec<u8>> = ImageBuffer::from_fn(width, height, |x, y| Rgb(pixel(x, y)));
    let mut buf = Vec::new();
    image::codecs::png::PngEncoder::new(&mut buf)
        .write_image(img.as_raw(), width, height, image::ExtendedColorType::Rgb8)
        .unwrap();
    buf
}

#[test]
fn grids_average_their_bands() {
    // Left half red, right half blue.
    let data = png(4, 2, |x, _| if x < 2 { [255, 0, 0] } else { [0, 0, 255] });
    let grid = compute_art_grid(&data, 2, 1);
    assert_eq!(grid.colors, vec![vec![Some((255, 0, 0)), Some((0, 0, 255))]]);
    // One cell over the whole image averages both halves.
    let grid = compute_art_grid(&data, 1, 1);
    assert_eq!(grid.colors, vec![vec![Some((127, 0, 127))]]);
}

#[test]
fn grids_of_bad_data_are_placeholders() {
    let grid = compute_art_grid(&[1, 2, 3], 2, 2);
    assert_eq!(grid.colors, vec![vec![None, None], vec![None, None]]);
    let grid = compute_art_grid(&png(2, 2, |_, _| [1, 2, 3]), 0, 3);
    assert_eq!(grid.colors.len(), 3);
    assert!(grid.colors.iter().all(|r| r.is_empty()));
    assert_eq!(ArtColorGrid::empty(2, 1).colors, vec![vec![None, None]]);
}

#[test]
fn small_images_still_fill_every_band() {
    // A 1x1 image stretched over a 3x2 grid: every cell is that pixel.
    let data = png(1, 1, |_, _| [10, 20, 30]);
    let grid = compute_art_grid(&data, 3, 2);
    assert_eq!(grid.colors, vec![vec![Some((10, 20, 30)); 3]; 2]);
}

#[test]
fn quadrant_colors() {
    let data = png(8, 8, |x, y| [(x * 30) as u8, (y * 30) as u8, 0]);
    let q = compute_quadrant_colors(&data);
    assert_eq!(q.len(), 4);
    assert_eq!(q[0][0], Some((15, 15, 0)));
    assert_eq!(q[3][3], Some((195, 195, 0)));
    assert_eq!(compute_quadrant_colors(&[0, 1]), vec![vec![None; 4]; 4]);
}

#[test]
fn region_average_rounds_down() {
    let px = vec![0u8, 0, 0, 1, 1, 1, 255, 255, 255, 4, 5, 6];
    assert_eq!(average_region(&px, 2, 2, 0, 2, 0, 1), (0, 0, 0));
    assert_eq!(average_region(&px, 2, 2, 0, 2, 0, 2), (65, 65, 65));
}

#[test]
fn alloc_id_keeps_other_keys_and_wraps() {
    let mut ids = ImageIds::new();
    let (a, b, c) = (key("a"), key("b"), key("c"));
    assert_eq!(ids.alloc_id(&a), 1);
    assert_eq!(ids.alloc_id(&b), 2);
    assert_eq!(ids.alloc_id(&c), 3);
    assert_eq!((ids.alloc_id(&a), ids.alloc_id(&b), ids.alloc_id(&c)), (1, 2, 3));
    ids.last = u32::MAX;
    assert_eq!(ids.alloc_id(&key("d")), 0);
    assert_eq!(ids.alloc_id(&a), 1);
}

#[test]
fn forget_releases_each_evicted_id_once_in_order() {
    let mut ids = ImageIds::new();
    let (a, b, c) = (key("a"), key("b"), key("c"));
    ids.alloc_id(&a);
    ids.alloc_id(&b);
    ids.alloc_id(&c);
    let released = ids.forget(&vec![c.clone(), key("x"), a.clone(), c.clone()]);
    assert_eq!(released, vec![3, 1]);
    assert_eq!(ids.alloc_id(&b), 2);
}

#[test]
fn grids_of_decoded_images() {
    // A 2x1 image: a red pixel, then a blue one.
    let img = RgbImage { width: 2, height: 1, pixels: vec![255, 0, 0, 0, 0, 255] };
    assert_eq!(art_grid_of(&img, 2, 1).colors, vec![vec![Some((255, 0, 0)), Some((0, 0, 255))]]);
    assert_eq!(art_grid_of(&img, 1, 1).colors, vec![vec![Some((127, 0, 127))]]);
    let empty = RgbImage { width: 0, height: 0, pixels: vec![] };
    assert_eq!(art_grid_of(&empty, 1, 2).colors, vec![vec![None], vec![None]]);
    let q = quadrant_colors_of(&img);
    assert_eq!(q[0][0], Some((255, 0, 0)));
    assert_eq!(q[0][3], Some((127, 0, 127)));
    assert_eq!(quadrant_colors_of(&empty), vec![vec![None; 4]; 4]);
}
