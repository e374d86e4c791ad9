use chronocam::overlay::{
    Banner, Caption, Shade, BANNER_HEIGHT, CAPTION_BASELINE, CAPTION_LEFT, CAPTION_SCALE,
    CAPTION_THICKNESS,
};

#[test]
fn shades_are_the_two_ends_of_a_byte() {
    assert_eq!(Shade::Black.level(), 0);
    assert_eq!(Shade::White.level(), 255);
}

#[test]
fn banner_starts_in_the_top_left_corner() {
    let banner = Banner::across(640);
    assert_eq!(
        banner,
        Banner { left: 0, top: 0, width: 640, height: 45, shade: Shade::Black }
    );
}

#[test]
fn banner_height_is_forty_five_rows() {
    assert_eq!(BANNER_HEIGHT, 45);
    assert_eq!(Banner::across(1).height, 45);
    assert_eq!(Banner::across(1920).height, 45);
}

#[test]
fn banner_covers_the_top_rows_over_the_whole_width() {
    let banner = Banner::across(640);
    for y in 0..45 {
        assert!(banner.covers(0, y));
        assert!(banner.covers(320, y));
        assert!(banner.covers(639, y));
        assert!(!banner.covers(640, y));
        assert!(!banner.covers(-1, y));
    }
    for x in [0, 1, 639] {
        assert!(!banner.covers(x, 45));
        assert!(!banner.covers(x, -1));
        assert!(!banner.covers(x, 479));
    }
}

#[test]
fn banner_of_a_source_without_width_covers_nothing() {
    let banner = Banner::across(0);
    assert_eq!(banner.width, 0);
    assert!(!banner.covers(0, 0));
    let banner = Banner::across(-5);
    assert!(!banner.covers(0, 0));
    assert!(!banner.covers(-3, 0));
}

#[test]
fn banner_test_of_far_pixels_does_not_overflow() {
    let banner = Banner { left: i32::MAX, top: i32::MAX, width: i32::MAX, height: i32::MAX, shade: Shade::Black };
    assert!(banner.covers(i32::MAX, i32::MAX));
    assert!(!banner.covers(i32::MIN, i32::MIN));
}

#[test]
fn caption_sits_at_its_fixed_place_in_white() {
    let caption = Caption::of(String::from("Thu, 1 Jan 1970 00:00:00 +0000"));
    assert_eq!(caption.text, "Thu, 1 Jan 1970 00:00:00 +0000");
    assert_eq!((caption.left, caption.baseline), (10, 32));
    assert_eq!(caption.scale, 2);
    assert_eq!(caption.thickness, 2);
    assert_eq!(caption.shade, Shade::White);
}

#[test]
fn caption_constants_have_their_values() {
    assert_eq!(CAPTION_LEFT, 10);
    assert_eq!(CAPTION_BASELINE, 32);
    assert_eq!(CAPTION_SCALE, 2);
    assert_eq!(CAPTION_THICKNESS, 2);
}

#[test]
fn caption_of_an_empty_text_is_still_placed() {
    let caption = Caption::of(String::new());
    assert_eq!(
        caption,
        Caption { text: String::new(), left: 10, baseline: 32, scale: 2, thickness: 2, shade: Shade::White }
    );
}
