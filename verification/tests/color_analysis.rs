use pokebot_pipeline::color_analysis::{ColorAnalysis, ColorAnalysisService};
use pokebot_pipeline::raster::RgbBuffer;

fn image_from(width: u32, height: u32, f: impl Fn(u32, u32) -> (u8, u8, u8)) -> RgbBuffer {
    let mut data = Vec::new();
    for y in 0..height {
        for x in 0..width {
            let (r, g, b) = f(x, y);
            data.push(r);
            data.push(g);
            data.push(b);
        }
    }
    RgbBuffer::from_raw(width, height, data).unwrap()
}

#[test]
fn quantize_rounds_down_to_the_step() {
    let s = ColorAnalysisService::new();
    assert_eq!(s.quantize_rgb((255, 17, 33), 16), (240, 16, 32));
    assert_eq!(s.quantize_rgb((255, 17, 33), 32), (248, 16, 32));
    assert_eq!(s.quantize_rgb((255, 255, 255), 1), (0, 0, 0));
}

#[test]
fn clamp_rect_holds_the_far_corner_inside() {
    let s = ColorAnalysisService::new();
    assert_eq!(s.clamp_rect(10, 10, 16, 16, 20, 30), (10, 10, 20, 26));
    assert_eq!(s.clamp_rect(0, 0, 16, 16, 64, 64), (0, 0, 16, 16));
}

#[test]
fn uniform_frame_has_one_dominant_colour() {
    let s = ColorAnalysisService::new();
    let img = RgbBuffer::from_pixel(10, 6, (200, 100, 50)).unwrap();
    let a = s.analyze_colors(&img);
    assert_eq!(a.dominant_colors, vec![(192, 96, 48)]);
    // samples at x in {0, 4, 8}, y in {0, 4}
    assert_eq!(a.sampled_pixels, 6);
    assert_eq!(a.color_distributions, vec![((192, 96, 48), 6)]);
    assert!(a.high_contrast_areas.is_empty());
    assert!(a.likely_text_areas.is_empty());
    assert!(a.menu_indicators.is_empty());
}

#[test]
fn dominant_colours_are_ranked_by_count() {
    let s = ColorAnalysisService::new();
    // left column of samples red, the other three blue
    let img = image_from(16, 4, |x, _| if x < 4 { (255, 0, 0) } else { (0, 0, 255) });
    let a = s.analyze_colors(&img);
    assert_eq!(a.dominant_colors, vec![(0, 0, 240), (240, 0, 0)]);
    assert_eq!(a.color_distributions, vec![((0, 0, 240), 3), ((240, 0, 0), 1)]);
    assert_eq!(a.sampled_pixels, 4);
}

#[test]
fn checkerboard_tile_is_high_contrast() {
    let s = ColorAnalysisService::new();
    let img = image_from(32, 16, |x, y| if x < 16 && (x + y) % 2 == 0 { (255, 255, 255) } else { (0, 0, 0) });
    assert!(s.is_high_contrast_tile(&img, 0, 0));
    assert!(!s.is_high_contrast_tile(&img, 16, 0));
    let mut a = ColorAnalysis::new();
    s.find_high_contrast_areas(&img, &mut a);
    assert_eq!(a.high_contrast_areas, vec![(0, 0, 16, 16)]);
}

#[test]
fn single_pixel_tile_has_no_contrast() {
    let s = ColorAnalysisService::new();
    let img = image_from(17, 17, |x, y| if (x + y) % 2 == 0 { (255, 255, 255) } else { (0, 0, 0) });
    assert!(!s.is_high_contrast_tile(&img, 16, 16));
}

#[test]
fn long_edge_runs_are_text() {
    let s = ColorAnalysisService::new();
    let img = image_from(64, 4, |x, _| if x <= 40 && x % 2 == 1 { (255, 255, 255) } else { (0, 0, 0) });
    let mut a = ColorAnalysis::new();
    s.find_likely_text_areas(&img, &mut a);
    assert_eq!(a.likely_text_areas, vec![(0, 0, 41, 4)]);
}

#[test]
fn run_open_at_the_row_end_is_dropped() {
    let s = ColorAnalysisService::new();
    let img = image_from(64, 4, |x, _| if x % 2 == 1 { (255, 255, 255) } else { (0, 0, 0) });
    let mut a = ColorAnalysis::new();
    s.find_likely_text_areas(&img, &mut a);
    assert!(a.likely_text_areas.is_empty());
}

#[test]
fn bright_dot_is_a_cursor() {
    let s = ColorAnalysisService::new();
    let img = image_from(16, 16, |x, y| if x == 8 && y == 8 { (255, 255, 255) } else { (0, 0, 0) });
    assert!(s.is_cursor_pattern(&img, 8, 8));
    assert!(!s.is_cursor_pattern(&img, 0, 8));
    let a = s.analyze_colors(&img);
    assert_eq!(a.menu_indicators, vec!["cursor".to_string()]);
}

#[test]
fn framed_squares_are_buttons() {
    let s = ColorAnalysisService::new();
    // two 16 x 16 squares with a white border around a black centre
    let img = image_from(32, 16, |x, y| {
        let (dx, dy) = (x % 16, y);
        if dx == 0 || dx == 15 || dy == 0 || dy == 15 { (255, 255, 255) } else { (0, 0, 0) }
    });
    assert!(s.is_button_pattern(&img, 0, 0));
    assert!(s.is_button_pattern(&img, 16, 0));
    assert!(!s.is_button_pattern(&img, 17, 0));
    assert!(s.has_button_patterns(&img));
    let a = s.analyze_colors(&img);
    assert_eq!(a.menu_indicators.last().map(|m| m.as_str()), Some("button"));
}
