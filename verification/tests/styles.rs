use canvas::style::{
    BlendingStyle, CompositionOrBlending, CompositionStyle, Direction, FillOrStrokeStyle,
    LineCapStyle, LineJoinStyle, LinearGradientStyle, RadialGradientStyle, RepetitionStyle,
    SurfaceStyle, TextAlign, TextBaseline,
};
use canvas::geometry::Size2D;
use canvas::scalar::Double;
use canvas::style::CanvasGradientStop;
use cssparser::RGBA;

fn double(value: f64) -> Double {
    Double { bits: value.to_bits() }
}

#[test]
fn line_cap_is_read_from_its_keyword() {
    assert_eq!(LineCapStyle::from_str("butt"), Ok(LineCapStyle::Butt));
    assert_eq!(LineCapStyle::from_str("round"), Ok(LineCapStyle::Round));
    assert_eq!(LineCapStyle::from_str("square"), Ok(LineCapStyle::Square));
    assert_eq!(LineCapStyle::from_str("Butt"), Err(()));
    assert_eq!(LineCapStyle::from_str("butt "), Err(()));
    assert_eq!(LineCapStyle::from_str(""), Err(()));
}

#[test]
fn line_join_is_read_from_its_keyword() {
    assert_eq!(LineJoinStyle::from_str("round"), Ok(LineJoinStyle::Round));
    assert_eq!(LineJoinStyle::from_str("bevel"), Ok(LineJoinStyle::Bevel));
    assert_eq!(LineJoinStyle::from_str("miter"), Ok(LineJoinStyle::Miter));
    assert_eq!(LineJoinStyle::from_str("butt"), Err(()));
}

#[test]
fn repetition_is_read_from_its_keyword() {
    assert_eq!(RepetitionStyle::from_str("repeat"), Ok(RepetitionStyle::Repeat));
    assert_eq!(RepetitionStyle::from_str("repeat-x"), Ok(RepetitionStyle::RepeatX));
    assert_eq!(RepetitionStyle::from_str("repeat-y"), Ok(RepetitionStyle::RepeatY));
    assert_eq!(RepetitionStyle::from_str("no-repeat"), Ok(RepetitionStyle::NoRepeat));
    assert_eq!(RepetitionStyle::from_str("repeat-z"), Err(()));
}

const COMPOSITIONS: [(CompositionStyle, &str); 12] = [
    (CompositionStyle::SrcIn, "source-in"),
    (CompositionStyle::SrcOut, "source-out"),
    (CompositionStyle::SrcOver, "source-over"),
    (CompositionStyle::SrcAtop, "source-atop"),
    (CompositionStyle::DestIn, "destination-in"),
    (CompositionStyle::DestOut, "destination-out"),
    (CompositionStyle::DestOver, "destination-over"),
    (CompositionStyle::DestAtop, "destination-atop"),
    (CompositionStyle::Copy, "copy"),
    (CompositionStyle::Lighter, "lighter"),
    (CompositionStyle::Xor, "xor"),
    (CompositionStyle::Clear, "clear"),
];

const BLENDINGS: [(BlendingStyle, &str); 15] = [
    (BlendingStyle::Multiply, "multiply"),
    (BlendingStyle::Screen, "screen"),
    (BlendingStyle::Overlay, "overlay"),
    (BlendingStyle::Darken, "darken"),
    (BlendingStyle::Lighten, "lighten"),
    (BlendingStyle::ColorDodge, "color-dodge"),
    (BlendingStyle::ColorBurn, "color-burn"),
    (BlendingStyle::HardLight, "hard-light"),
    (BlendingStyle::SoftLight, "soft-light"),
    (BlendingStyle::Difference, "difference"),
    (BlendingStyle::Exclusion, "exclusion"),
    (BlendingStyle::Hue, "hue"),
    (BlendingStyle::Saturation, "saturation"),
    (BlendingStyle::Color, "color"),
    (BlendingStyle::Luminosity, "luminosity"),
];

#[test]
fn composition_keywords_go_both_ways() {
    for (style, keyword) in COMPOSITIONS {
        assert_eq!(style.to_str(), keyword);
        assert_eq!(CompositionStyle::from_str(keyword), Ok(style));
        assert_eq!(CompositionStyle::from_str(style.to_str()), Ok(style));
    }
    assert_eq!(CompositionStyle::from_str("multiply"), Err(()));
    assert_eq!(CompositionStyle::from_str("source"), Err(()));
}

#[test]
fn blending_keywords_go_both_ways() {
    for (style, keyword) in BLENDINGS {
        assert_eq!(style.to_str(), keyword);
        assert_eq!(BlendingStyle::from_str(keyword), Ok(style));
        assert_eq!(BlendingStyle::from_str(style.to_str()), Ok(style));
    }
    assert_eq!(BlendingStyle::from_str("source-over"), Err(()));
    assert_eq!(BlendingStyle::from_str("colour"), Err(()));
}

#[test]
fn composition_or_blending_tries_composition_first() {
    for (style, keyword) in COMPOSITIONS {
        assert_eq!(
            CompositionOrBlending::from_str(keyword),
            Ok(CompositionOrBlending::Composition(style))
        );
    }
    for (style, keyword) in BLENDINGS {
        assert_eq!(
            CompositionOrBlending::from_str(keyword),
            Ok(CompositionOrBlending::Blending(style))
        );
    }
    assert_eq!(CompositionOrBlending::from_str("over"), Err(()));
}

#[test]
fn text_align_is_read_from_its_keyword() {
    assert_eq!(TextAlign::from_str("start"), Ok(TextAlign::Start));
    assert_eq!(TextAlign::from_str("end"), Ok(TextAlign::End));
    assert_eq!(TextAlign::from_str("left"), Ok(TextAlign::Left));
    assert_eq!(TextAlign::from_str("right"), Ok(TextAlign::Right));
    assert_eq!(TextAlign::from_str("center"), Ok(TextAlign::Center));
    assert_eq!(TextAlign::from_str("centre"), Err(()));
}

#[test]
fn text_baseline_is_read_from_its_keyword() {
    assert_eq!(TextBaseline::from_str("top"), Ok(TextBaseline::Top));
    assert_eq!(TextBaseline::from_str("hanging"), Ok(TextBaseline::Hanging));
    assert_eq!(TextBaseline::from_str("middle"), Ok(TextBaseline::Middle));
    assert_eq!(TextBaseline::from_str("alphabetic"), Ok(TextBaseline::Alphabetic));
    assert_eq!(TextBaseline::from_str("ideographic"), Ok(TextBaseline::Ideographic));
    assert_eq!(TextBaseline::from_str("bottom"), Ok(TextBaseline::Bottom));
    assert_eq!(TextBaseline::from_str("baseline"), Err(()));
}

#[test]
fn direction_is_read_from_its_keyword() {
    assert_eq!(Direction::from_str("ltr"), Ok(Direction::Ltr));
    assert_eq!(Direction::from_str("rtl"), Ok(Direction::Rtl));
    assert_eq!(Direction::from_str("inherit"), Ok(Direction::Inherit));
    assert_eq!(Direction::from_str("LTR"), Err(()));
}

#[test]
fn keywords_are_compared_by_characters_not_bytes_alone() {
    assert_eq!(TextAlign::from_str("cent\u{e9}r"), Err(()));
    assert_eq!(Direction::from_str("lt\u{301}r"), Err(()));
}

#[test]
fn styles_parse_through_the_standard_trait() {
    assert_eq!("bevel".parse::<LineJoinStyle>(), Ok(LineJoinStyle::Bevel));
    assert_eq!("xor".parse::<CompositionStyle>(), Ok(CompositionStyle::Xor));
    assert_eq!("hue".parse::<BlendingStyle>(), Ok(BlendingStyle::Hue));
    assert_eq!(
        "hue".parse::<CompositionOrBlending>(),
        Ok(CompositionOrBlending::Blending(BlendingStyle::Hue))
    );
    assert_eq!("sideways".parse::<Direction>(), Err(()));
}

#[test]
fn defaults_are_the_initial_values_of_a_canvas() {
    assert_eq!(
        CompositionOrBlending::default(),
        CompositionOrBlending::Composition(CompositionStyle::SrcOver)
    );
    assert_eq!(TextAlign::default(), TextAlign::Start);
    assert_eq!(TextBaseline::default(), TextBaseline::Alphabetic);
    assert_eq!(Direction::default(), Direction::Inherit);
}

#[test]
fn gradients_keep_what_they_are_made_of() {
    let stops = vec![
        CanvasGradientStop { offset: double(0.0), color: RGBA::new(255, 0, 0, 255) },
        CanvasGradientStop { offset: double(1.0), color: RGBA::new(0, 0, 255, 255) },
    ];
    let linear =
        LinearGradientStyle::new(double(1.0), double(2.0), double(3.0), double(4.0), stops.clone());
    assert_eq!(linear.x0, double(1.0));
    assert_eq!(linear.y0, double(2.0));
    assert_eq!(linear.x1, double(3.0));
    assert_eq!(linear.y1, double(4.0));
    assert_eq!(linear.stops, stops);

    let radial = RadialGradientStyle::new(
        double(1.0),
        double(2.0),
        double(0.5),
        double(3.0),
        double(4.0),
        double(8.0),
        stops.clone(),
    );
    assert_eq!(radial.x0, double(1.0));
    assert_eq!(radial.y0, double(2.0));
    assert_eq!(radial.r0, double(0.5));
    assert_eq!(radial.x1, double(3.0));
    assert_eq!(radial.y1, double(4.0));
    assert_eq!(radial.r1, double(8.0));
    assert_eq!(radial.stops, stops);
}

#[test]
fn surface_style_wraps_its_bytes() {
    let style = SurfaceStyle::new(vec![1, 2, 3, 4], Size2D { width: 1, height: 1 }, true, false);
    assert_eq!(style.surface_size, Size2D { width: 1u32, height: 1u32 });
    assert!(style.repeat_x);
    assert!(!style.repeat_y);
    assert_eq!(style.surface_data.len(), 4);
    let copy = style.clone();
    assert_eq!(copy, style);
    assert_eq!(style.surface_data.into_vec(), vec![1, 2, 3, 4]);
    assert!(matches!(FillOrStrokeStyle::Surface(copy), FillOrStrokeStyle::Surface(_)));
}
