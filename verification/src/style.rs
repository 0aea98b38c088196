//! Drawing styles of a 2D canvas and the keywords that name them.

use crate::bytes::ByteBuffer;
use crate::geometry::Size2D;
use crate::scalar::Double;
use crate::text::same_text;
use cssparser::RGBA;
use std::str::FromStr;
use vstd::prelude::*;

verus! {

/// How the inside of a path is told from its outside.
#[derive(Clone, Copy, Debug, PartialEq, Eq, Structural)]
pub enum FillRule {
    Nonzero,
    Evenodd,
}

/// The shape drawn at the two ends of a stroked line.
#[derive(Clone, Copy, Debug, PartialEq, Eq, Structural)]
pub enum LineCapStyle {
    Butt,
    Round,
    Square,
}

impl LineCapStyle {
    /// The keyword that names this style.
    pub open spec fn keyword(self) -> Seq<char> {
        match self {
            LineCapStyle::Butt => "butt"@,
            LineCapStyle::Round => "round"@,
            LineCapStyle::Square => "square"@,
        }
    }

    /// The style that `text` names, if it names one.
    pub open spec fn named(text: Seq<char>) -> Result<LineCapStyle, ()> {
        if exists|style: LineCapStyle| style.keyword() == text {
            Ok(choose|style: LineCapStyle| style.keyword() == text)
        } else {
            Err(())
        }
    }

    /// No two styles share a keyword.
    pub proof fn lemma_keywords_differ(one: LineCapStyle, other: LineCapStyle)
        requires
            one.keyword() == other.keyword(),
        ensures
            one == other,
    {
        reveal_strlit("butt");
        reveal_strlit("round");
        reveal_strlit("square");
        assert("butt"@.len() == 4);
        assert("round"@.len() == 5);
        assert("square"@.len() == 6);
    }

    /// Each style is the one, and the only one, that its keyword names.
    pub proof fn lemma_keyword_names(style: LineCapStyle)
        ensures
            LineCapStyle::named(style.keyword()) == Ok::<LineCapStyle, ()>(style),
    {
        let found = choose|found: LineCapStyle| found.keyword() == style.keyword();
        LineCapStyle::lemma_keywords_differ(found, style);
    }

    /// Reads a style from its keyword; any other text is an error.
    pub fn from_str(string: &str) -> (result: Result<LineCapStyle, ()>)
        ensures
            result == LineCapStyle::named(string@),
    {
        let result = if same_text(string, "butt") {
            Ok(LineCapStyle::Butt)
        } else if same_text(string, "round") {
            Ok(LineCapStyle::Round)
        } else if same_text(string, "square") {
            Ok(LineCapStyle::Square)
        } else {
            Err(())
        };
        proof {
            match result {
                Ok(style) => LineCapStyle::lemma_keyword_names(style),
                Err(_) => {
                    assert forall|style: LineCapStyle| style.keyword() != string@ by {}
                },
            }
        }
        result
    }
}

impl FromStr for LineCapStyle {
    type Err = ();

    /// Reads a value from its keyword, as the function of the same name
    /// on the type itself does; any other text is an error.
    fn from_str(string: &str) -> (result: Result<LineCapStyle, ()>)
        ensures
            result == LineCapStyle::named(string@),
    {
        LineCapStyle::from_str(string)
    }
}

/// The shape drawn where two stroked segments meet.
#[derive(Clone, Copy, Debug, PartialEq, Eq, Structural)]
pub enum LineJoinStyle {
    Round,
    Bevel,
    Miter,
}

impl LineJoinStyle {
    /// The keyword that names this style.
    pub open spec fn keyword(self) -> Seq<char> {
        match self {
            LineJoinStyle::Round => "round"@,
            LineJoinStyle::Bevel => "bevel"@,
            LineJoinStyle::Miter => "miter"@,
        }
    }

    /// The style that `text` names, if it names one.
    pub open spec fn named(text: Seq<char>) -> Result<LineJoinStyle, ()> {
        if exists|style: LineJoinStyle| style.keyword() == text {
            Ok(choose|style: LineJoinStyle| style.keyword() == text)
        } else {
            Err(())
        }
    }

    /// No two styles share a keyword.
    pub proof fn lemma_keywords_differ(one: LineJoinStyle, other: LineJoinStyle)
        requires
            one.keyword() == other.keyword(),
        ensures
            one == other,
    {
        reveal_strlit("round");
        reveal_strlit("bevel");
        reveal_strlit("miter");
        assert("round"@.len() == 5);
        assert("bevel"@.len() == 5);
        assert("miter"@.len() == 5);
        assert("round"@[0] != "bevel"@[0]);
        assert("round"@[0] != "miter"@[0]);
        assert("bevel"@[0] != "miter"@[0]);
    }

    /// Each style is the one, and the only one, that its keyword names.
    pub proof fn lemma_keyword_names(style: LineJoinStyle)
        ensures
            LineJoinStyle::named(style.keyword()) == Ok::<LineJoinStyle, ()>(style),
    {
        let found = choose|found: LineJoinStyle| found.keyword() == style.keyword();
        LineJoinStyle::lemma_keywords_differ(found, style);
    }

    /// Reads a style from its keyword; any other text is an error.
    pub fn from_str(string: &str) -> (result: Result<LineJoinStyle, ()>)
        ensures
            result == LineJoinStyle::named(string@),
    {
        let result = if same_text(string, "round") {
            Ok(LineJoinStyle::Round)
        } else if same_text(string, "bevel") {
            Ok(LineJoinStyle::Bevel)
        } else if same_text(string, "miter") {
            Ok(LineJoinStyle::Miter)
        } else {
            Err(())
        };
        proof {
            match result {
                Ok(style) => LineJoinStyle::lemma_keyword_names(style),
                Err(_) => {
                    assert forall|style: LineJoinStyle| style.keyword() != string@ by {}
                },
            }
        }
        result
    }
}

impl FromStr for LineJoinStyle {
    type Err = ();

    /// Reads a value from its keyword, as the function of the same name
    /// on the type itself does; any other text is an error.
    fn from_str(string: &str) -> (result: Result<LineJoinStyle, ()>)
        ensures
            result == LineJoinStyle::named(string@),
    {
        LineJoinStyle::from_str(string)
    }
}

/// The directions in which a pattern repeats.
#[derive(Clone, Copy, Debug, PartialEq, Eq, Structural)]
pub enum RepetitionStyle {
    Repeat,
    RepeatX,
    RepeatY,
    NoRepeat,
}

impl RepetitionStyle {
    /// The keyword that names this style.
    pub open spec fn keyword(self) -> Seq<char> {
        match self {
            RepetitionStyle::Repeat => "repeat"@,
            RepetitionStyle::RepeatX => "repeat-x"@,
            RepetitionStyle::RepeatY => "repeat-y"@,
            RepetitionStyle::NoRepeat => "no-repeat"@,
        }
    }

    /// The style that `text` names, if it names one.
    pub open spec fn named(text: Seq<char>) -> Result<RepetitionStyle, ()> {
        if exists|style: RepetitionStyle| style.keyword() == text {
            Ok(choose|style: RepetitionStyle| style.keyword() == text)
        } else {
            Err(())
        }
    }

    /// No two styles share a keyword.
    pub proof fn lemma_keywords_differ(one: RepetitionStyle, other: RepetitionStyle)
        requires
            one.keyword() == other.keyword(),
        ensures
            one == other,
    {
        reveal_strlit("repeat");
        reveal_strlit("repeat-x");
        reveal_strlit("repeat-y");
        reveal_strlit("no-repeat");
        assert("repeat"@.len() == 6);
        assert("repeat-x"@.len() == 8);
        assert("repeat-y"@.len() == 8);
        assert("no-repeat"@.len() == 9);
        assert("repeat-x"@[7] != "repeat-y"@[7]);
    }

    /// Each style is the one, and the only one, that its keyword names.
    pub proof fn lemma_keyword_names(style: RepetitionStyle)
        ensures
            RepetitionStyle::named(style.keyword()) == Ok::<RepetitionStyle, ()>(style),
    {
        let found = choose|found: RepetitionStyle| found.keyword() == style.keyword();
        RepetitionStyle::lemma_keywords_differ(found, style);
    }

    /// Reads a style from its keyword; any other text is an error.
    pub fn from_str(string: &str) -> (result: Result<RepetitionStyle, ()>)
        ensures
            result == RepetitionStyle::named(string@),
    {
        let result = if same_text(string, "repeat") {
            Ok(RepetitionStyle::Repeat)
        } else if same_text(string, "repeat-x") {
            Ok(RepetitionStyle::RepeatX)
        } else if same_text(string, "repeat-y") {
            Ok(RepetitionStyle::RepeatY)
        } else if same_text(string, "no-repeat") {
            Ok(RepetitionStyle::NoRepeat)
        } else {
            Err(())
        };
        proof {
            match result {
                Ok(style) => RepetitionStyle::lemma_keyword_names(style),
                Err(_) => {
                    assert forall|style: RepetitionStyle| style.keyword() != string@ by {}
                },
            }
        }
        result
    }
}

impl FromStr for RepetitionStyle {
    type Err = ();

    /// Reads a value from its keyword, as the function of the same name
    /// on the type itself does; any other text is an error.
    fn from_str(string: &str) -> (result: Result<RepetitionStyle, ()>)
        ensures
            result == RepetitionStyle::named(string@),
    {
        RepetitionStyle::from_str(string)
    }
}

/// How a drawn shape is composited with what lies beneath it.
#[derive(Clone, Copy, Debug, PartialEq, Eq, Structural)]
pub enum CompositionStyle {
    SrcIn,
    SrcOut,
    SrcOver,
    SrcAtop,
    DestIn,
    DestOut,
    DestOver,
    DestAtop,
    Copy,
    Lighter,
    Xor,
    Clear,
}

impl CompositionStyle {
    /// The keyword that names this style.
    pub open spec fn keyword(self) -> Seq<char> {
        match self {
            CompositionStyle::SrcIn => "source-in"@,
            CompositionStyle::SrcOut => "source-out"@,
            CompositionStyle::SrcOver => "source-over"@,
            CompositionStyle::SrcAtop => "source-atop"@,
            CompositionStyle::DestIn => "destination-in"@,
            CompositionStyle::DestOut => "destination-out"@,
            CompositionStyle::DestOver => "destination-over"@,
            CompositionStyle::DestAtop => "destination-atop"@,
            CompositionStyle::Copy => "copy"@,
            CompositionStyle::Lighter => "lighter"@,
            CompositionStyle::Xor => "xor"@,
            CompositionStyle::Clear => "clear"@,
        }
    }

    /// The style that `text` names, if it names one.
    pub open spec fn named(text: Seq<char>) -> Result<CompositionStyle, ()> {
        if exists|style: CompositionStyle| style.keyword() == text {
            Ok(choose|style: CompositionStyle| style.keyword() == text)
        } else {
            Err(())
        }
    }

    /// No two styles share a keyword.
    pub proof fn lemma_keywords_differ(one: CompositionStyle, other: CompositionStyle)
        requires
            one.keyword() == other.keyword(),
        ensures
            one == other,
    {
        reveal_strlit("source-in");
        reveal_strlit("source-out");
        reveal_strlit("source-over");
        reveal_strlit("source-atop");
        reveal_strlit("destination-in");
        reveal_strlit("destination-out");
        reveal_strlit("destination-over");
        reveal_strlit("destination-atop");
        reveal_strlit("copy");
        reveal_strlit("lighter");
        reveal_strlit("xor");
        reveal_strlit("clear");
        assert("source-in"@.len() == 9);
        assert("source-out"@.len() == 10);
        assert("source-over"@.len() == 11);
        assert("source-atop"@.len() == 11);
        assert("destination-in"@.len() == 14);
        assert("destination-out"@.len() == 15);
        assert("destination-over"@.len() == 16);
        assert("destination-atop"@.len() == 16);
        assert("copy"@.len() == 4);
        assert("lighter"@.len() == 7);
        assert("xor"@.len() == 3);
        assert("clear"@.len() == 5);
        assert("source-over"@[7] != "source-atop"@[7]);
        assert("destination-over"@[12] != "destination-atop"@[12]);
    }

    /// Each style is the one, and the only one, that its keyword names.
    pub proof fn lemma_keyword_names(style: CompositionStyle)
        ensures
            CompositionStyle::named(style.keyword()) == Ok::<CompositionStyle, ()>(style),
    {
        let found = choose|found: CompositionStyle| found.keyword() == style.keyword();
        CompositionStyle::lemma_keywords_differ(found, style);
    }

    /// Reads a style from its keyword; any other text is an error.
    pub fn from_str(string: &str) -> (result: Result<CompositionStyle, ()>)
        ensures
            result == CompositionStyle::named(string@),
    {
        let result = if same_text(string, "source-in") {
            Ok(CompositionStyle::SrcIn)
        } else if same_text(string, "source-out") {
            Ok(CompositionStyle::SrcOut)
        } else if same_text(string, "source-over") {
            Ok(CompositionStyle::SrcOver)
        } else if same_text(string, "source-atop") {
            Ok(CompositionStyle::SrcAtop)
        } else if same_text(string, "destination-in") {
            Ok(CompositionStyle::DestIn)
        } else if same_text(string, "destination-out") {
            Ok(CompositionStyle::DestOut)
        } else if same_text(string, "destination-over") {
            Ok(CompositionStyle::DestOver)
        } else if same_text(string, "destination-atop") {
            Ok(CompositionStyle::DestAtop)
        } else if same_text(string, "copy") {
            Ok(CompositionStyle::Copy)
        } else if same_text(string, "lighter") {
            Ok(CompositionStyle::Lighter)
        } else if same_text(string, "xor") {
            Ok(CompositionStyle::Xor)
        } else if same_text(string, "clear") {
            Ok(CompositionStyle::Clear)
        } else {
            Err(())
        };
        proof {
            match result {
                Ok(style) => CompositionStyle::lemma_keyword_names(style),
                Err(_) => {
                    assert forall|style: CompositionStyle| style.keyword() != string@ by {}
                },
            }
        }
        result
    }

    /// The keyword that names this style.
    pub fn to_str(&self) -> (name: &str)
        ensures
            name@ == self.keyword(),
    {
        match *self {
            CompositionStyle::SrcIn => "source-in",
            CompositionStyle::SrcOut => "source-out",
            CompositionStyle::SrcOver => "source-over",
            CompositionStyle::SrcAtop => "source-atop",
            CompositionStyle::DestIn => "destination-in",
            CompositionStyle::DestOut => "destination-out",
            CompositionStyle::DestOver => "destination-over",
            CompositionStyle::DestAtop => "destination-atop",
            CompositionStyle::Copy => "copy",
            CompositionStyle::Lighter => "lighter",
            CompositionStyle::Xor => "xor",
            CompositionStyle::Clear => "clear",
        }
    }
}

impl FromStr for CompositionStyle {
    type Err = ();

    /// Reads a value from its keyword, as the function of the same name
    /// on the type itself does; any other text is an error.
    fn from_str(string: &str) -> (result: Result<CompositionStyle, ()>)
        ensures
            result == CompositionStyle::named(string@),
    {
        CompositionStyle::from_str(string)
    }
}

/// How the colours of a drawn shape blend with those beneath it.
#[derive(Clone, Copy, Debug, PartialEq, Eq, Structural)]
pub enum BlendingStyle {
    Multiply,
    Screen,
    Overlay,
    Darken,
    Lighten,
    ColorDodge,
    ColorBurn,
    HardLight,
    SoftLight,
    Difference,
    Exclusion,
    Hue,
    Saturation,
    Color,
    Luminosity,
}

impl BlendingStyle {
    /// The keyword that names this style.
    pub open spec fn keyword(self) -> Seq<char> {
        match self {
            BlendingStyle::Multiply => "multiply"@,
            BlendingStyle::Screen => "screen"@,
            BlendingStyle::Overlay => "overlay"@,
            BlendingStyle::Darken => "darken"@,
            BlendingStyle::Lighten => "lighten"@,
            BlendingStyle::ColorDodge => "color-dodge"@,
            BlendingStyle::ColorBurn => "color-burn"@,
            BlendingStyle::HardLight => "hard-light"@,
            BlendingStyle::SoftLight => "soft-light"@,
            BlendingStyle::Difference => "difference"@,
            BlendingStyle::Exclusion => "exclusion"@,
            BlendingStyle::Hue => "hue"@,
            BlendingStyle::Saturation => "saturation"@,
            BlendingStyle::Color => "color"@,
            BlendingStyle::Luminosity => "luminosity"@,
        }
    }

    /// The style that `text` names, if it names one.
    pub open spec fn named(text: Seq<char>) -> Result<BlendingStyle, ()> {
        if exists|style: BlendingStyle| style.keyword() == text {
            Ok(choose|style: BlendingStyle| style.keyword() == text)
        } else {
            Err(())
        }
    }

    /// No two styles share a keyword.
    pub proof fn lemma_keywords_differ(one: BlendingStyle, other: BlendingStyle)
        requires
            one.keyword() == other.keyword(),
        ensures
            one == other,
    {
        reveal_strlit("multiply");
        reveal_strlit("screen");
        reveal_strlit("overlay");
        reveal_strlit("darken");
        reveal_strlit("lighten");
        reveal_strlit("color-dodge");
        reveal_strlit("color-burn");
        reveal_strlit("hard-light");
        reveal_strlit("soft-light");
        reveal_strlit("difference");
        reveal_strlit("exclusion");
        reveal_strlit("hue");
        reveal_strlit("saturation");
        reveal_strlit("color");
        reveal_strlit("luminosity");
        assert("multiply"@.len() == 8);
        assert("screen"@.len() == 6);
        assert("overlay"@.len() == 7);
        assert("darken"@.len() == 6);
        assert("lighten"@.len() == 7);
        assert("color-dodge"@.len() == 11);
        assert("color-burn"@.len() == 10);
        assert("hard-light"@.len() == 10);
        assert("soft-light"@.len() == 10);
        assert("difference"@.len() == 10);
        assert("exclusion"@.len() == 9);
        assert("hue"@.len() == 3);
        assert("saturation"@.len() == 10);
        assert("color"@.len() == 5);
        assert("luminosity"@.len() == 10);
        assert("screen"@[0] != "darken"@[0]);
        assert("overlay"@[0] != "lighten"@[0]);
        assert("color-burn"@[0] != "hard-light"@[0]);
        assert("color-burn"@[0] != "soft-light"@[0]);
        assert("color-burn"@[0] != "difference"@[0]);
        assert("color-burn"@[0] != "saturation"@[0]);
        assert("color-burn"@[0] != "luminosity"@[0]);
        assert("hard-light"@[0] != "soft-light"@[0]);
        assert("hard-light"@[0] != "difference"@[0]);
        assert("hard-light"@[0] != "saturation"@[0]);
        assert("hard-light"@[0] != "luminosity"@[0]);
        assert("soft-light"@[0] != "difference"@[0]);
        assert("soft-light"@[1] != "saturation"@[1]);
        assert("soft-light"@[0] != "luminosity"@[0]);
        assert("difference"@[0] != "saturation"@[0]);
        assert("difference"@[0] != "luminosity"@[0]);
        assert("saturation"@[0] != "luminosity"@[0]);
    }

    /// Each style is the one, and the only one, that its keyword names.
    pub proof fn lemma_keyword_names(style: BlendingStyle)
        ensures
            BlendingStyle::named(style.keyword()) == Ok::<BlendingStyle, ()>(style),
    {
        let found = choose|found: BlendingStyle| found.keyword() == style.keyword();
        BlendingStyle::lemma_keywords_differ(found, style);
    }

    /// Reads a style from its keyword; any other text is an error.
    pub fn from_str(string: &str) -> (result: Result<BlendingStyle, ()>)
        ensures
            result == BlendingStyle::named(string@),
    {
        let result = if same_text(string, "multiply") {
            Ok(BlendingStyle::Multiply)
        } else if same_text(string, "screen") {
            Ok(BlendingStyle::Screen)
        } else if same_text(string, "overlay") {
            Ok(BlendingStyle::Overlay)
        } else if same_text(string, "darken") {
            Ok(BlendingStyle::Darken)
        } else if same_text(string, "lighten") {
            Ok(BlendingStyle::Lighten)
        } else if same_text(string, "color-dodge") {
            Ok(BlendingStyle::ColorDodge)
        } else if same_text(string, "color-burn") {
            Ok(BlendingStyle::ColorBurn)
        } else if same_text(string, "hard-light") {
            Ok(BlendingStyle::HardLight)
        } else if same_text(string, "soft-light") {
            Ok(BlendingStyle::SoftLight)
        } else if same_text(string, "difference") {
            Ok(BlendingStyle::Difference)
        } else if same_text(string, "exclusion") {
            Ok(BlendingStyle::Exclusion)
        } else if same_text(string, "hue") {
            Ok(BlendingStyle::Hue)
        } else if same_text(string, "saturation") {
            Ok(BlendingStyle::Saturation)
        } else if same_text(string, "color") {
            Ok(BlendingStyle::Color)
        } else if same_text(string, "luminosity") {
            Ok(BlendingStyle::Luminosity)
        } else {
            Err(())
        };
        proof {
            match result {
                Ok(style) => BlendingStyle::lemma_keyword_names(style),
                Err(_) => {
                    assert forall|style: BlendingStyle| style.keyword() != string@ by {}
                },
            }
        }
        result
    }

    /// The keyword that names this style.
    pub fn to_str(&self) -> (name: &str)
        ensures
            name@ == self.keyword(),
    {
        match *self {
            BlendingStyle::Multiply => "multiply",
            BlendingStyle::Screen => "screen",
            BlendingStyle::Overlay => "overlay",
            BlendingStyle::Darken => "darken",
            BlendingStyle::Lighten => "lighten",
            BlendingStyle::ColorDodge => "color-dodge",
            BlendingStyle::ColorBurn => "color-burn",
            BlendingStyle::HardLight => "hard-light",
            BlendingStyle::SoftLight => "soft-light",
            BlendingStyle::Difference => "difference",
            BlendingStyle::Exclusion => "exclusion",
            BlendingStyle::Hue => "hue",
            BlendingStyle::Saturation => "saturation",
            BlendingStyle::Color => "color",
            BlendingStyle::Luminosity => "luminosity",
        }
    }
}

impl FromStr for BlendingStyle {
    type Err = ();

    /// Reads a value from its keyword, as the function of the same name
    /// on the type itself does; any other text is an error.
    fn from_str(string: &str) -> (result: Result<BlendingStyle, ()>)
        ensures
            result == BlendingStyle::named(string@),
    {
        BlendingStyle::from_str(string)
    }
}

/// Either way of combining a drawn shape with what lies beneath it.
#[derive(Clone, Copy, Debug, PartialEq, Eq, Structural)]
pub enum CompositionOrBlending {
    Composition(CompositionStyle),
    Blending(BlendingStyle),
}

impl CompositionOrBlending {
    /// The keyword that names this operation.
    pub open spec fn keyword(self) -> Seq<char> {
        match self {
            CompositionOrBlending::Composition(style) => style.keyword(),
            CompositionOrBlending::Blending(style) => style.keyword(),
        }
    }

    /// The operation that `text` names: a composition where it names one,
    /// else a blending where it names one.
    pub open spec fn named(text: Seq<char>) -> Result<CompositionOrBlending, ()> {
        match CompositionStyle::named(text) {
            Ok(style) => Ok(CompositionOrBlending::Composition(style)),
            Err(_) => match BlendingStyle::named(text) {
                Ok(style) => Ok(CompositionOrBlending::Blending(style)),
                Err(_) => Err(()),
            },
        }
    }

    /// No composition shares its keyword with a blending.
    pub proof fn lemma_keywords_apart(composition: CompositionStyle, blending: BlendingStyle)
        ensures
            composition.keyword() != blending.keyword(),
    {
        reveal_strlit("source-in");
        reveal_strlit("source-out");
        reveal_strlit("source-over");
        reveal_strlit("source-atop");
        reveal_strlit("destination-in");
        reveal_strlit("destination-out");
        reveal_strlit("destination-over");
        reveal_strlit("destination-atop");
        reveal_strlit("copy");
        reveal_strlit("lighter");
        reveal_strlit("xor");
        reveal_strlit("clear");
        reveal_strlit("multiply");
        reveal_strlit("screen");
        reveal_strlit("overlay");
        reveal_strlit("darken");
        reveal_strlit("lighten");
        reveal_strlit("color-dodge");
        reveal_strlit("color-burn");
        reveal_strlit("hard-light");
        reveal_strlit("soft-light");
        reveal_strlit("difference");
        reveal_strlit("exclusion");
        reveal_strlit("hue");
        reveal_strlit("saturation");
        reveal_strlit("color");
        reveal_strlit("luminosity");
        assert("source-in"@.len() == 9);
        assert("source-out"@.len() == 10);
        assert("source-over"@.len() == 11);
        assert("source-atop"@.len() == 11);
        assert("destination-in"@.len() == 14);
        assert("destination-out"@.len() == 15);
        assert("destination-over"@.len() == 16);
        assert("destination-atop"@.len() == 16);
        assert("copy"@.len() == 4);
        assert("lighter"@.len() == 7);
        assert("xor"@.len() == 3);
        assert("clear"@.len() == 5);
        assert("multiply"@.len() == 8);
        assert("screen"@.len() == 6);
        assert("overlay"@.len() == 7);
        assert("darken"@.len() == 6);
        assert("lighten"@.len() == 7);
        assert("color-dodge"@.len() == 11);
        assert("color-burn"@.len() == 10);
        assert("hard-light"@.len() == 10);
        assert("soft-light"@.len() == 10);
        assert("difference"@.len() == 10);
        assert("exclusion"@.len() == 9);
        assert("hue"@.len() == 3);
        assert("saturation"@.len() == 10);
        assert("color"@.len() == 5);
        assert("luminosity"@.len() == 10);
        assert("source-in"@[0] != "exclusion"@[0]);
        assert("source-out"@[0] != "color-burn"@[0]);
        assert("source-out"@[0] != "hard-light"@[0]);
        assert("source-out"@[2] != "soft-light"@[2]);
        assert("source-out"@[0] != "difference"@[0]);
        assert("source-out"@[1] != "saturation"@[1]);
        assert("source-out"@[0] != "luminosity"@[0]);
        assert("source-over"@[0] != "color-dodge"@[0]);
        assert("source-atop"@[0] != "color-dodge"@[0]);
        assert("lighter"@[0] != "overlay"@[0]);
        assert("lighter"@[6] != "lighten"@[6]);
        assert("xor"@[0] != "hue"@[0]);
        assert("clear"@[1] != "color"@[1]);
    }

    /// Each operation is the one that its keyword names.
    pub proof fn lemma_keyword_names(operation: CompositionOrBlending)
        ensures
            CompositionOrBlending::named(operation.keyword()) == Ok::<CompositionOrBlending, ()>(
                operation,
            ),
    {
        match operation {
            CompositionOrBlending::Composition(style) => {
                CompositionStyle::lemma_keyword_names(style)
            },
            CompositionOrBlending::Blending(style) => {
                BlendingStyle::lemma_keyword_names(style);
                assert forall|composition: CompositionStyle|
                    composition.keyword() != style.keyword() by {
                    CompositionOrBlending::lemma_keywords_apart(composition, style);
                }
            },
        }
    }

    /// Reads an operation from its keyword; any other text is an error.
    pub fn from_str(string: &str) -> (result: Result<CompositionOrBlending, ()>)
        ensures
            result == CompositionOrBlending::named(string@),
    {
        if let Ok(op) = CompositionStyle::from_str(string) {
            return Ok(CompositionOrBlending::Composition(op));
        }
        if let Ok(op) = BlendingStyle::from_str(string) {
            return Ok(CompositionOrBlending::Blending(op));
        }
        Err(())
    }
}

impl FromStr for CompositionOrBlending {
    type Err = ();

    /// Reads a value from its keyword, as the function of the same name
    /// on the type itself does; any other text is an error.
    fn from_str(string: &str) -> (result: Result<CompositionOrBlending, ()>)
        ensures
            result == CompositionOrBlending::named(string@),
    {
        CompositionOrBlending::from_str(string)
    }
}

impl Default for CompositionOrBlending {
    fn default() -> (operation: CompositionOrBlending)
        ensures
            operation == CompositionOrBlending::Composition(CompositionStyle::SrcOver),
    {
        CompositionOrBlending::Composition(CompositionStyle::SrcOver)
    }
}

/// Where text lies relative to its anchor point, along the line.
#[derive(Clone, Copy, Debug, PartialEq, Eq, Structural)]
pub enum TextAlign {
    Start,
    End,
    Left,
    Right,
    Center,
}

impl TextAlign {
    /// The keyword that names this style.
    pub open spec fn keyword(self) -> Seq<char> {
        match self {
            TextAlign::Start => "start"@,
            TextAlign::End => "end"@,
            TextAlign::Left => "left"@,
            TextAlign::Right => "right"@,
            TextAlign::Center => "center"@,
        }
    }

    /// The style that `text` names, if it names one.
    pub open spec fn named(text: Seq<char>) -> Result<TextAlign, ()> {
        if exists|style: TextAlign| style.keyword() == text {
            Ok(choose|style: TextAlign| style.keyword() == text)
        } else {
            Err(())
        }
    }

    /// No two styles share a keyword.
    pub proof fn lemma_keywords_differ(one: TextAlign, other: TextAlign)
        requires
            one.keyword() == other.keyword(),
        ensures
            one == other,
    {
        reveal_strlit("start");
        reveal_strlit("end");
        reveal_strlit("left");
        reveal_strlit("right");
        reveal_strlit("center");
        assert("start"@.len() == 5);
        assert("end"@.len() == 3);
        assert("left"@.len() == 4);
        assert("right"@.len() == 5);
        assert("center"@.len() == 6);
        assert("start"@[0] != "right"@[0]);
    }

    /// Each style is the one, and the only one, that its keyword names.
    pub proof fn lemma_keyword_names(style: TextAlign)
        ensures
            TextAlign::named(style.keyword()) == Ok::<TextAlign, ()>(style),
    {
        let found = choose|found: TextAlign| found.keyword() == style.keyword();
        TextAlign::lemma_keywords_differ(found, style);
    }

    /// Reads a style from its keyword; any other text is an error.
    pub fn from_str(string: &str) -> (result: Result<TextAlign, ()>)
        ensures
            result == TextAlign::named(string@),
    {
        let result = if same_text(string, "start") {
            Ok(TextAlign::Start)
        } else if same_text(string, "end") {
            Ok(TextAlign::End)
        } else if same_text(string, "left") {
            Ok(TextAlign::Left)
        } else if same_text(string, "right") {
            Ok(TextAlign::Right)
        } else if same_text(string, "center") {
            Ok(TextAlign::Center)
        } else {
            Err(())
        };
        proof {
            match result {
                Ok(style) => TextAlign::lemma_keyword_names(style),
                Err(_) => {
                    assert forall|style: TextAlign| style.keyword() != string@ by {}
                },
            }
        }
        result
    }
}

impl FromStr for TextAlign {
    type Err = ();

    /// Reads a value from its keyword, as the function of the same name
    /// on the type itself does; any other text is an error.
    fn from_str(string: &str) -> (result: Result<TextAlign, ()>)
        ensures
            result == TextAlign::named(string@),
    {
        TextAlign::from_str(string)
    }
}

impl Default for TextAlign {
    fn default() -> (style: TextAlign)
        ensures
            style == TextAlign::Start,
    {
        TextAlign::Start
    }
}

/// Which line of the text sits on its anchor point.
#[derive(Clone, Copy, Debug, PartialEq, Eq, Structural)]
pub enum TextBaseline {
    Top,
    Hanging,
    Middle,
    Alphabetic,
    Ideographic,
    Bottom,
}

impl TextBaseline {
    /// The keyword that names this style.
    pub open spec fn keyword(self) -> Seq<char> {
        match self {
            TextBaseline::Top => "top"@,
            TextBaseline::Hanging => "hanging"@,
            TextBaseline::Middle => "middle"@,
            TextBaseline::Alphabetic => "alphabetic"@,
            TextBaseline::Ideographic => "ideographic"@,
            TextBaseline::Bottom => "bottom"@,
        }
    }

    /// The style that `text` names, if it names one.
    pub open spec fn named(text: Seq<char>) -> Result<TextBaseline, ()> {
        if exists|style: TextBaseline| style.keyword() == text {
            Ok(choose|style: TextBaseline| style.keyword() == text)
        } else {
            Err(())
        }
    }

    /// No two styles share a keyword.
    pub proof fn lemma_keywords_differ(one: TextBaseline, other: TextBaseline)
        requires
            one.keyword() == other.keyword(),
        ensures
            one == other,
    {
        reveal_strlit("top");
        reveal_strlit("hanging");
        reveal_strlit("middle");
        reveal_strlit("alphabetic");
        reveal_strlit("ideographic");
        reveal_strlit("bottom");
        assert("top"@.len() == 3);
        assert("hanging"@.len() == 7);
        assert("middle"@.len() == 6);
        assert("alphabetic"@.len() == 10);
        assert("ideographic"@.len() == 11);
        assert("bottom"@.len() == 6);
        assert("middle"@[0] != "bottom"@[0]);
    }

    /// Each style is the one, and the only one, that its keyword names.
    pub proof fn lemma_keyword_names(style: TextBaseline)
        ensures
            TextBaseline::named(style.keyword()) == Ok::<TextBaseline, ()>(style),
    {
        let found = choose|found: TextBaseline| found.keyword() == style.keyword();
        TextBaseline::lemma_keywords_differ(found, style);
    }

    /// Reads a style from its keyword; any other text is an error.
    pub fn from_str(string: &str) -> (result: Result<TextBaseline, ()>)
        ensures
            result == TextBaseline::named(string@),
    {
        let result = if same_text(string, "top") {
            Ok(TextBaseline::Top)
        } else if same_text(string, "hanging") {
            Ok(TextBaseline::Hanging)
        } else if same_text(string, "middle") {
            Ok(TextBaseline::Middle)
        } else if same_text(string, "alphabetic") {
            Ok(TextBaseline::Alphabetic)
        } else if same_text(string, "ideographic") {
            Ok(TextBaseline::Ideographic)
        } else if same_text(string, "bottom") {
            Ok(TextBaseline::Bottom)
        } else {
            Err(())
        };
        proof {
            match result {
                Ok(style) => TextBaseline::lemma_keyword_names(style),
                Err(_) => {
                    assert forall|style: TextBaseline| style.keyword() != string@ by {}
                },
            }
        }
        result
    }
}

impl FromStr for TextBaseline {
    type Err = ();

    /// Reads a value from its keyword, as the function of the same name
    /// on the type itself does; any other text is an error.
    fn from_str(string: &str) -> (result: Result<TextBaseline, ()>)
        ensures
            result == TextBaseline::named(string@),
    {
        TextBaseline::from_str(string)
    }
}

impl Default for TextBaseline {
    fn default() -> (style: TextBaseline)
        ensures
            style == TextBaseline::Alphabetic,
    {
        TextBaseline::Alphabetic
    }
}

/// The direction in which text runs.
#[derive(Clone, Copy, Debug, PartialEq, Eq, Structural)]
pub enum Direction {
    Ltr,
    Rtl,
    Inherit,
}

impl Direction {
    /// The keyword that names this style.
    pub open spec fn keyword(self) -> Seq<char> {
        match self {
            Direction::Ltr => "ltr"@,
            Direction::Rtl => "rtl"@,
            Direction::Inherit => "inherit"@,
        }
    }

    /// The style that `text` names, if it names one.
    pub open spec fn named(text: Seq<char>) -> Result<Direction, ()> {
        if exists|style: Direction| style.keyword() == text {
            Ok(choose|style: Direction| style.keyword() == text)
        } else {
            Err(())
        }
    }

    /// No two styles share a keyword.
    pub proof fn lemma_keywords_differ(one: Direction, other: Direction)
        requires
            one.keyword() == other.keyword(),
        ensures
            one == other,
    {
        reveal_strlit("ltr");
        reveal_strlit("rtl");
        reveal_strlit("inherit");
        assert("ltr"@.len() == 3);
        assert("rtl"@.len() == 3);
        assert("inherit"@.len() == 7);
        assert("ltr"@[0] != "rtl"@[0]);
    }

    /// Each style is the one, and the only one, that its keyword names.
    pub proof fn lemma_keyword_names(style: Direction)
        ensures
            Direction::named(style.keyword()) == Ok::<Direction, ()>(style),
    {
        let found = choose|found: Direction| found.keyword() == style.keyword();
        Direction::lemma_keywords_differ(found, style);
    }

    /// Reads a style from its keyword; any other text is an error.
    pub fn from_str(string: &str) -> (result: Result<Direction, ()>)
        ensures
            result == Direction::named(string@),
    {
        let result = if same_text(string, "ltr") {
            Ok(Direction::Ltr)
        } else if same_text(string, "rtl") {
            Ok(Direction::Rtl)
        } else if same_text(string, "inherit") {
            Ok(Direction::Inherit)
        } else {
            Err(())
        };
        proof {
            match result {
                Ok(style) => Direction::lemma_keyword_names(style),
                Err(_) => {
                    assert forall|style: Direction| style.keyword() != string@ by {}
                },
            }
        }
        result
    }
}

impl FromStr for Direction {
    type Err = ();

    /// Reads a value from its keyword, as the function of the same name
    /// on the type itself does; any other text is an error.
    fn from_str(string: &str) -> (result: Result<Direction, ()>)
        ensures
            result == Direction::named(string@),
    {
        Direction::from_str(string)
    }
}

impl Default for Direction {
    fn default() -> (style: Direction)
        ensures
            style == Direction::Inherit,
    {
        Direction::Inherit
    }
}

/// One colour of a gradient and its place along the gradient's line.
#[derive(Clone, Debug, PartialEq)]
pub struct CanvasGradientStop {
    pub offset: Double,
    pub color: RGBA,
}

/// A gradient along the line from `(x0, y0)` to `(x1, y1)`.
#[derive(Clone, Debug, PartialEq)]
pub struct LinearGradientStyle {
    pub x0: Double,
    pub y0: Double,
    pub x1: Double,
    pub y1: Double,
    pub stops: Vec<CanvasGradientStop>,
}

impl LinearGradientStyle {
    pub fn new(
        x0: Double,
        y0: Double,
        x1: Double,
        y1: Double,
        stops: Vec<CanvasGradientStop>,
    ) -> (style: LinearGradientStyle)
        ensures
            style == (LinearGradientStyle { x0, y0, x1, y1, stops }),
    {
        LinearGradientStyle { x0: x0, y0: y0, x1: x1, y1: y1, stops: stops }
    }
}

/// A gradient between the circle of radius `r0` about `(x0, y0)` and the
/// circle of radius `r1` about `(x1, y1)`.
#[derive(Clone, Debug, PartialEq)]
pub struct RadialGradientStyle {
    pub x0: Double,
    pub y0: Double,
    pub r0: Double,
    pub x1: Double,
    pub y1: Double,
    pub r1: Double,
    pub stops: Vec<CanvasGradientStop>,
}

impl RadialGradientStyle {
    pub fn new(
        x0: Double,
        y0: Double,
        r0: Double,
        x1: Double,
        y1: Double,
        r1: Double,
        stops: Vec<CanvasGradientStop>,
    ) -> (style: RadialGradientStyle)
        ensures
            style == (RadialGradientStyle { x0, y0, r0, x1, y1, r1, stops }),
    {
        RadialGradientStyle { x0: x0, y0: y0, r0: r0, x1: x1, y1: y1, r1: r1, stops: stops }
    }
}

/// A pattern: the pixels of an image, repeated along either axis or not.
#[derive(Clone, Debug, PartialEq)]
pub struct SurfaceStyle {
    pub surface_data: ByteBuffer,
    pub surface_size: Size2D<u32>,
    pub repeat_x: bool,
    pub repeat_y: bool,
}

impl SurfaceStyle {
    pub fn new(
        surface_data: Vec<u8>,
        surface_size: Size2D<u32>,
        repeat_x: bool,
        repeat_y: bool,
    ) -> (style: SurfaceStyle)
        ensures
            style.surface_data@ == surface_data@,
            style.surface_size == surface_size,
            style.repeat_x == repeat_x,
            style.repeat_y == repeat_y,
    {
        SurfaceStyle {
            surface_data: ByteBuffer::from_vec(surface_data),
            surface_size,
            repeat_x,
            repeat_y,
        }
    }
}

/// What a fill or a stroke paints with.
#[derive(Clone, Debug, PartialEq)]
pub enum FillOrStrokeStyle {
    Color(RGBA),
    LinearGradient(LinearGradientStyle),
    RadialGradient(RadialGradientStyle),
    Surface(SurfaceStyle),
}

} // verus!
