use tabcast::format::{FormatOffer, Framerate, NegotiatedFormat, PixelFormat, RawVideoInfo, Resolution};

fn size(width: u32, height: u32) -> Resolution {
    Resolution { width, height }
}

fn rate(num: u32, denom: u32) -> Framerate {
    Framerate { num, denom }
}

fn info(format: PixelFormat, width: u32, height: u32, num: u32, denom: u32) -> RawVideoInfo {
    RawVideoInfo { format: Some(format), size: size(width, height), framerate: rate(num, denom) }
}

#[test]
fn default_offer_values() {
    let offer = FormatOffer::default_offer();
    assert_eq!(
        offer.formats(),
        &vec![
            PixelFormat::Rgb,
            PixelFormat::Rgba,
            PixelFormat::Rgbx,
            PixelFormat::Bgrx,
            PixelFormat::Yuy2,
            PixelFormat::I420,
        ]
    );
    assert_eq!(offer.preferred_format(), PixelFormat::Rgb);
    assert_eq!(offer.min_size(), size(1, 1));
    assert_eq!(offer.max_size(), size(4096, 4096));
    assert_eq!(offer.preferred_size(), size(320, 240));
    assert_eq!(offer.min_rate(), rate(0, 1));
    assert_eq!(offer.max_rate(), rate(1000, 1));
    assert_eq!(offer.preferred_rate(), rate(25, 1));
}

#[test]
fn new_offer_keeps_its_parts() {
    let offer = FormatOffer::new(
        vec![PixelFormat::Yuy2, PixelFormat::Rgb],
        size(16, 8),
        size(640, 480),
        size(320, 240),
        rate(5, 1),
        rate(60, 1),
        rate(30, 1),
    )
    .expect("a valid offer");
    assert_eq!(offer.formats(), &vec![PixelFormat::Yuy2, PixelFormat::Rgb]);
    assert_eq!(offer.preferred_format(), PixelFormat::Yuy2);
    assert_eq!(offer.min_size(), size(16, 8));
    assert_eq!(offer.max_size(), size(640, 480));
    assert_eq!(offer.preferred_size(), size(320, 240));
    assert_eq!(offer.min_rate(), rate(5, 1));
    assert_eq!(offer.max_rate(), rate(60, 1));
    assert_eq!(offer.preferred_rate(), rate(30, 1));
}

#[test]
fn new_offer_rejects_an_empty_candidate_list() {
    let offer = FormatOffer::new(
        vec![],
        size(1, 1),
        size(4096, 4096),
        size(320, 240),
        rate(0, 1),
        rate(1000, 1),
        rate(25, 1),
    );
    assert!(offer.is_none());
}

#[test]
fn new_offer_rejects_a_preferred_size_outside_the_range() {
    let too_wide = FormatOffer::new(
        vec![PixelFormat::Rgb],
        size(1, 1),
        size(300, 300),
        size(320, 240),
        rate(0, 1),
        rate(1000, 1),
        rate(25, 1),
    );
    assert!(too_wide.is_none());
    let too_low = FormatOffer::new(
        vec![PixelFormat::Rgb],
        size(1, 250),
        size(4096, 4096),
        size(320, 240),
        rate(0, 1),
        rate(1000, 1),
        rate(25, 1),
    );
    assert!(too_low.is_none());
}

#[test]
fn new_offer_rejects_a_zero_denominator() {
    for broken in 0..3 {
        let denom = |which: i32| if which == broken { 0 } else { 1 };
        let offer = FormatOffer::new(
            vec![PixelFormat::Rgb],
            size(1, 1),
            size(4096, 4096),
            size(320, 240),
            rate(0, denom(0)),
            rate(1000, denom(1)),
            rate(25, denom(2)),
        );
        assert!(offer.is_none());
    }
}

#[test]
fn new_offer_rejects_a_preferred_rate_outside_the_range() {
    let too_fast = FormatOffer::new(
        vec![PixelFormat::Rgb],
        size(1, 1),
        size(4096, 4096),
        size(320, 240),
        rate(0, 1),
        rate(24, 1),
        rate(25, 1),
    );
    assert!(too_fast.is_none());
    let too_slow = FormatOffer::new(
        vec![PixelFormat::Rgb],
        size(1, 1),
        size(4096, 4096),
        size(320, 240),
        rate(30, 1),
        rate(60, 1),
        rate(25, 1),
    );
    assert!(too_slow.is_none());
}

#[test]
fn resolution_range_is_closed_on_both_ends() {
    let min = size(1, 1);
    let max = size(4096, 4096);
    assert!(size(1, 1).is_within(&min, &max));
    assert!(size(4096, 4096).is_within(&min, &max));
    assert!(size(1920, 1080).is_within(&min, &max));
    assert!(!size(0, 1080).is_within(&min, &max));
    assert!(!size(1920, 0).is_within(&min, &max));
    assert!(!size(4097, 1).is_within(&min, &max));
    assert!(!size(1, 4097).is_within(&min, &max));
}

#[test]
fn framerates_compare_as_fractions() {
    assert!(rate(30000, 1001).is_at_most(&rate(30, 1)));
    assert!(!rate(30, 1).is_at_most(&rate(30000, 1001)));
    assert!(rate(1, 2).is_at_most(&rate(2, 4)));
    assert!(rate(2, 4).is_at_most(&rate(1, 2)));
    assert!(rate(0, 1).is_at_most(&rate(0, 7)));
    assert!(rate(25, 1).is_at_most(&rate(1000, 1)));
    assert!(!rate(1001, 1).is_at_most(&rate(1000, 1)));
}

#[test]
fn framerate_comparison_does_not_overflow() {
    let huge = rate(u32::MAX, 1);
    let tiny = rate(1, u32::MAX);
    assert!(tiny.is_at_most(&huge));
    assert!(!huge.is_at_most(&tiny));
    assert!(huge.is_at_most(&huge));
    assert!(rate(u32::MAX, u32::MAX).is_at_most(&rate(1, 1)));
    assert!(rate(1, 1).is_at_most(&rate(u32::MAX, u32::MAX)));
}

#[test]
fn framerate_validity_is_a_nonzero_denominator() {
    assert!(rate(0, 1).is_valid());
    assert!(rate(30, 1).is_valid());
    assert!(!rate(30, 0).is_valid());
    assert!(!rate(0, 0).is_valid());
}

#[test]
fn offer_admits_what_lies_inside_it() {
    let offer = FormatOffer::default_offer();
    assert!(offer.admits(&info(PixelFormat::Rgba, 1920, 1080, 30, 1)));
    assert!(offer.admits(&info(PixelFormat::I420, 1, 1, 0, 1)));
    assert!(offer.admits(&info(PixelFormat::Rgb, 4096, 4096, 1000, 1)));
    assert!(offer.admits(&info(PixelFormat::Bgrx, 320, 240, 30000, 1001)));
}

#[test]
fn offer_refuses_what_lies_outside_it() {
    let offer = FormatOffer::new(
        vec![PixelFormat::Rgb, PixelFormat::Rgba],
        size(1, 1),
        size(4096, 4096),
        size(320, 240),
        rate(1, 1),
        rate(1000, 1),
        rate(25, 1),
    )
    .expect("a valid offer");
    assert!(!offer.admits(&info(PixelFormat::Yuy2, 1920, 1080, 30, 1)));
    assert!(!offer.admits(&info(PixelFormat::Rgba, 4097, 1080, 30, 1)));
    assert!(!offer.admits(&info(PixelFormat::Rgba, 1920, 0, 30, 1)));
    assert!(!offer.admits(&info(PixelFormat::Rgba, 1920, 1080, 1001, 1)));
    assert!(!offer.admits(&info(PixelFormat::Rgba, 1920, 1080, 1, 2)));
    assert!(!offer.admits(&info(PixelFormat::Rgba, 1920, 1080, 30, 0)));
    let unnamed =
        RawVideoInfo { format: None, size: size(1920, 1080), framerate: rate(30, 1) };
    assert!(!offer.admits(&unnamed));
}

#[test]
fn settle_hands_out_the_announced_format() {
    let offer = FormatOffer::default_offer();
    assert_eq!(
        offer.settle(&info(PixelFormat::Rgba, 1920, 1080, 30, 1)),
        Some(NegotiatedFormat {
            format: PixelFormat::Rgba,
            size: size(1920, 1080),
            framerate: rate(30, 1),
        })
    );
    assert_eq!(offer.settle(&info(PixelFormat::Rgba, 5000, 1080, 30, 1)), None);
}

#[test]
fn settled_format_is_always_inside_the_offer() {
    let offer = FormatOffer::new(
        vec![PixelFormat::Rgbx, PixelFormat::I420],
        size(100, 100),
        size(200, 200),
        size(150, 150),
        rate(10, 1),
        rate(20, 1),
        rate(15, 1),
    )
    .expect("a valid offer");
    let formats = [
        PixelFormat::Rgb,
        PixelFormat::Rgba,
        PixelFormat::Rgbx,
        PixelFormat::Bgrx,
        PixelFormat::Yuy2,
        PixelFormat::I420,
    ];
    let mut settled = 0;
    for format in formats {
        for width in [99u32, 100, 150, 200, 201] {
            for height in [99u32, 100, 200, 201] {
                for num in [9u32, 10, 15, 20, 21] {
                    let announced = info(format, width, height, num, 1);
                    if let Some(chosen) = offer.settle(&announced) {
                        settled += 1;
                        assert!(offer.formats().contains(&chosen.format));
                        assert!(chosen.size.is_within(&offer.min_size(), &offer.max_size()));
                        assert!(offer.min_rate().is_at_most(&chosen.framerate));
                        assert!(chosen.framerate.is_at_most(&offer.max_rate()));
                        assert_eq!(Some(chosen.format), announced.format);
                        assert_eq!(chosen.size, announced.size);
                        assert_eq!(chosen.framerate, announced.framerate);
                    }
                }
            }
        }
    }
    assert_eq!(settled, 2 * 3 * 2 * 3);
}

#[test]
fn format_choice_names_the_preferred_format_first_and_again_in_its_place() {
    assert_eq!(
        FormatOffer::default_offer().format_choice(),
        vec![
            PixelFormat::Rgb,
            PixelFormat::Rgb,
            PixelFormat::Rgba,
            PixelFormat::Rgbx,
            PixelFormat::Bgrx,
            PixelFormat::Yuy2,
            PixelFormat::I420,
        ]
    );
    let single = FormatOffer::new(
        vec![PixelFormat::I420],
        size(1, 1),
        size(2, 2),
        size(1, 2),
        rate(1, 1),
        rate(1, 1),
        rate(1, 1),
    )
    .expect("a valid offer");
    assert_eq!(single.format_choice(), vec![PixelFormat::I420, PixelFormat::I420]);
}
