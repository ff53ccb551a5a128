//! SVG attributes.

use vstd::prelude::*;
use crate::attribute::{opt_view, Attribute};
use crate::value::AttributeValue;
use crate::html_attributes::AriaRole;

verus! {

/// SVG presentation and element attributes.
#[derive(Debug, Clone)]
pub enum SVGAttributes {
    Color(String),
    Height(NumberOrString),
    Id(String),
    Lang(String),
    Max(NumberOrString),
    Media(String),
    Method(String),
    Min(NumberOrString),
    Name(String),
    Target(String),
    Type(String),
    Width(NumberOrString),
    Role(AriaRole),
    TabIndex(i64),
    CrossOrigin(CrossOrigin),
    AccentHeight(NumberOrString),
    Accumulate(Accumulate),
    Additive(Additive),
    AlignmentBaseline(AlignmentBaseline),
    AllowReorder(AllowReorder),
    Alphabetic(NumberOrString),
    Amplitude(NumberOrString),
    ArabicForm(ArabicForm),
    Ascent(NumberOrString),
    AttributeName(String),
    AttributeType(String),
    AutoReverse(bool),
    Azimuth(NumberOrString),
    BaseFrequency(NumberOrString),
    BaselineShift(NumberOrString),
    BaseProfile(NumberOrString),
    Bbox(NumberOrString),
    Begin(NumberOrString),
    Bias(NumberOrString),
    By(NumberOrString),
    CalcMode(NumberOrString),
    CapHeight(NumberOrString),
    Clip(NumberOrString),
    ClipPath(String),
    ClipPathUnits(ClipPathUnits),
    ClipRule(ClipRule),
    ColorInterpolation(NumberOrString),
    ColorInterpolationFilters(ColorInterpolationFilters),
    ColorProfile(NumberOrString),
    ColorRendering(NumberOrString),
    ContentScriptType(NumberOrString),
    ContentStyleType(NumberOrString),
    Cursor(NumberOrString),
    Cx(NumberOrString),
    Cy(NumberOrString),
    D(String),
    Decelerate(NumberOrString),
    Descent(NumberOrString),
    DiffuseConstant(NumberOrString),
    Direction(NumberOrString),
    Display(NumberOrString),
    Divisor(NumberOrString),
    DominantBaseline(NumberOrString),
    Dur(NumberOrString),
    Dx(NumberOrString),
    Dy(NumberOrString),
    EdgeMode(NumberOrString),
    Elevation(NumberOrString),
    EnableBackground(NumberOrString),
    End(NumberOrString),
    Exponent(NumberOrString),
    ExternalResourcesRequired(bool),
    Fill(String),
    FillOpacity(NumberOrString),
    FillRule(FillRule),
    Filter(String),
    FilterRes(NumberOrString),
    FilterUnits(NumberOrString),
    FloodColor(NumberOrString),
    FloodOpacity(NumberOrString),
    Focusable(Focusable),
    FontFamily(String),
    FontSize(NumberOrString),
    FontSizeAdjust(NumberOrString),
    FontStretch(NumberOrString),
    FontStyle(NumberOrString),
    FontVariant(NumberOrString),
    FontWeight(NumberOrString),
    Format(NumberOrString),
    Fr(NumberOrString),
    From(NumberOrString),
    Fx(NumberOrString),
    Fy(NumberOrString),
    G1(NumberOrString),
    G2(NumberOrString),
    GlyphName(NumberOrString),
    GlyphOrientationHorizontal(NumberOrString),
    GlyphOrientationVertical(NumberOrString),
    GlyphRef(NumberOrString),
    GradientTransform(String),
    GradientUnits(String),
    Hanging(NumberOrString),
    HorizAdvX(NumberOrString),
    HorizOriginX(NumberOrString),
    Href(String),
    Ideographic(NumberOrString),
    ImageRendering(NumberOrString),
    In2(NumberOrString),
    In(String),
    Intercept(NumberOrString),
    K1(NumberOrString),
    K2(NumberOrString),
    K3(NumberOrString),
    K4(NumberOrString),
    K(NumberOrString),
    KernelMatrix(NumberOrString),
    KernelUnitLength(NumberOrString),
    Kerning(NumberOrString),
    KeyPoints(NumberOrString),
    KeySplines(NumberOrString),
    KeyTimes(NumberOrString),
    LengthAdjust(NumberOrString),
    LetterSpacing(NumberOrString),
    LightingColor(NumberOrString),
    LimitingConeAngle(NumberOrString),
    Local(NumberOrString),
    MarkerEnd(String),
    MarkerHeight(NumberOrString),
    MarkerMid(String),
    MarkerStart(String),
    MarkerUnits(NumberOrString),
    MarkerWidth(NumberOrString),
    Mask(String),
    MaskContentUnits(NumberOrString),
    MaskUnits(NumberOrString),
    Mathematical(NumberOrString),
    Mode(NumberOrString),
    NumOctaves(NumberOrString),
    Offset(NumberOrString),
    Opacity(NumberOrString),
    Operator(NumberOrString),
    Order(NumberOrString),
    Orient(NumberOrString),
    Orientation(NumberOrString),
    Origin(NumberOrString),
    Overflow(NumberOrString),
    OverlinePosition(NumberOrString),
    OverlineThickness(NumberOrString),
    PaintOrder(NumberOrString),
    Panose1(NumberOrString),
    Path(String),
    PathLength(NumberOrString),
    PatternContentUnits(String),
    PatternTransform(NumberOrString),
    PatternUnits(String),
    PointerEvents(NumberOrString),
    Points(String),
    PointsAtX(NumberOrString),
    PointsAtY(NumberOrString),
    PointsAtZ(NumberOrString),
    PreserveAlpha(bool),
    OreserveAspectRatio(String),
    PrimitiveUnits(NumberOrString),
    R(NumberOrString),
    Radius(NumberOrString),
    RefX(NumberOrString),
    RefY(NumberOrString),
    RenderingIntent(NumberOrString),
    RepeatCount(NumberOrString),
    RepeatDur(NumberOrString),
    RequiredExtensions(NumberOrString),
    RequiredFeatures(NumberOrString),
    Restart(NumberOrString),
    Result(String),
    Rotate(NumberOrString),
    Rx(NumberOrString),
    Ry(NumberOrString),
    Scale(NumberOrString),
    Seed(NumberOrString),
    ShapeRendering(NumberOrString),
    Slope(NumberOrString),
    Spacing(NumberOrString),
    SpecularConstant(NumberOrString),
    SpecularExponent(NumberOrString),
    Speed(NumberOrString),
    SpreadMethod(String),
    StartOffset(NumberOrString),
    StdDeviation(NumberOrString),
    Stemh(NumberOrString),
    Stemv(NumberOrString),
    StitchTiles(NumberOrString),
    StopColor(String),
    StopOpacity(NumberOrString),
    StrikethroughPosition(NumberOrString),
    StrikethroughThickness(NumberOrString),
    String(NumberOrString),
    Stroke(String),
    StrokeDasharray(NumberOrString),
    StrokeDashoffset(NumberOrString),
    StrokeLinecap(StrokeLinecap),
    StrokeLinejoin(StrokeLinejoin),
    StrokeMiterlimit(NumberOrString),
    StrokeOpacity(NumberOrString),
    StrokeWidth(NumberOrString),
    SurfaceScale(NumberOrString),
    SystemLanguage(NumberOrString),
    TableValues(NumberOrString),
    TargetX(NumberOrString),
    TargetY(NumberOrString),
    TextAnchor(String),
    TextDecoration(NumberOrString),
    TextLength(NumberOrString),
    TextRendering(NumberOrString),
    To(NumberOrString),
    Transform(String),
    U1(NumberOrString),
    U2(NumberOrString),
    UnderlinePosition(NumberOrString),
    UnderlineThickness(NumberOrString),
    Unicode(NumberOrString),
    UnicodeBidi(NumberOrString),
    UnicodeRange(NumberOrString),
    UnitsPerEm(NumberOrString),
    VAlphabetic(NumberOrString),
    Values(String),
    VectorEffect(NumberOrString),
    Version(String),
    VertAdvY(NumberOrString),
    VertOriginX(NumberOrString),
    VertOriginY(NumberOrString),
    VHanging(NumberOrString),
    VIdeographic(NumberOrString),
    ViewBox(String),
    ViewTarget(NumberOrString),
    Visibility(NumberOrString),
    VMathematical(NumberOrString),
    Widths(NumberOrString),
    WordSpacing(NumberOrString),
    WritingMode(NumberOrString),
    X1(NumberOrString),
    X2(NumberOrString),
    X(NumberOrString),
    XChannelSelector(String),
    XHeight(NumberOrString),
    XlinkActuate(String),
    XlinkArcrole(String),
    XlinkHref(String),
    XlinkRole(String),
    XlinkShow(String),
    XlinkTitle(String),
    XlinkType(String),
    XmlBase(String),
    XmlLang(String),
    Xmlns(String),
    XmlnsXlink(String),
    XmlSpace(String),
    Y1(NumberOrString),
    Y2(NumberOrString),
    Y(NumberOrString),
    YChannelSelector(String),
    Z(NumberOrString),
    ZoomAndPan(String),
}

impl Attribute for SVGAttributes {
    open spec fn spec_key(&self) -> Seq<char> {
        match self {
            SVGAttributes::Color(..) => "color"@,
            SVGAttributes::Height(..) => "height"@,
            SVGAttributes::Id(..) => "id"@,
            SVGAttributes::Lang(..) => "lang"@,
            SVGAttributes::Max(..) => "max"@,
            SVGAttributes::Media(..) => "media"@,
            SVGAttributes::Method(..) => "method"@,
            SVGAttributes::Min(..) => "min"@,
            SVGAttributes::Name(..) => "name"@,
            SVGAttributes::Target(..) => "target"@,
            SVGAttributes::Type(..) => "type"@,
            SVGAttributes::Width(..) => "width"@,
            SVGAttributes::Role(..) => "role"@,
            SVGAttributes::TabIndex(..) => "tab-index"@,
            SVGAttributes::CrossOrigin(..) => "cross-origin"@,
            SVGAttributes::AccentHeight(..) => "accent-height"@,
            SVGAttributes::Accumulate(..) => "accumulate"@,
            SVGAttributes::Additive(..) => "additive"@,
            SVGAttributes::AlignmentBaseline(..) => "alignment-baseline"@,
            SVGAttributes::AllowReorder(..) => "allowReorder"@,
            SVGAttributes::Alphabetic(..) => "alphabetic"@,
            SVGAttributes::Amplitude(..) => "amplitude"@,
            SVGAttributes::ArabicForm(..) => "arabic-form"@,
            SVGAttributes::Ascent(..) => "ascent"@,
            SVGAttributes::AttributeName(..) => "attributeName"@,
            SVGAttributes::AttributeType(..) => "attributeType"@,
            SVGAttributes::AutoReverse(..) => "auto-reverse"@,
            SVGAttributes::Azimuth(..) => "azimuth"@,
            SVGAttributes::BaseFrequency(..) => "baseFrequency"@,
            SVGAttributes::BaselineShift(..) => "baseline-shift"@,
            SVGAttributes::BaseProfile(..) => "baseProfile"@,
            SVGAttributes::Bbox(..) => "bbox"@,
            SVGAttributes::Begin(..) => "begin"@,
            SVGAttributes::Bias(..) => "bias"@,
            SVGAttributes::By(..) => "by"@,
            SVGAttributes::CalcMode(..) => "calc-mode"@,
            SVGAttributes::CapHeight(..) => "cap-height"@,
            SVGAttributes::Clip(..) => "clip"@,
            SVGAttributes::ClipPath(..) => "clipPath"@,
            SVGAttributes::ClipPathUnits(..) => "clipPathUnits"@,
            SVGAttributes::ClipRule(..) => "clip-rule"@,
            SVGAttributes::ColorInterpolation(..) => "color-interpolation"@,
            SVGAttributes::ColorInterpolationFilters(..) => "color-interpolation-filters"@,
            SVGAttributes::ColorProfile(..) => "color-profile"@,
            SVGAttributes::ColorRendering(..) => "color-rendering"@,
            SVGAttributes::ContentScriptType(..) => "contentScriptType"@,
            SVGAttributes::ContentStyleType(..) => "contentStyleType"@,
            SVGAttributes::Cursor(..) => "cursor"@,
            SVGAttributes::Cx(..) => "cx"@,
            SVGAttributes::Cy(..) => "cy"@,
            SVGAttributes::D(..) => "d"@,
            SVGAttributes::Decelerate(..) => "decelerate"@,
            SVGAttributes::Descent(..) => "descent"@,
            SVGAttributes::DiffuseConstant(..) => "diffuseConstant"@,
            SVGAttributes::Direction(..) => "direction"@,
            SVGAttributes::Display(..) => "display"@,
            SVGAttributes::Divisor(..) => "divisor"@,
            SVGAttributes::DominantBaseline(..) => "dominant-baseline"@,
            SVGAttributes::Dur(..) => "dur"@,
            SVGAttributes::Dx(..) => "dx"@,
            SVGAttributes::Dy(..) => "dy"@,
            SVGAttributes::EdgeMode(..) => "edgeMode"@,
            SVGAttributes::Elevation(..) => "elevation"@,
            SVGAttributes::EnableBackground(..) => "enable-background"@,
            SVGAttributes::End(..) => "end"@,
            SVGAttributes::Exponent(..) => "exponent"@,
            SVGAttributes::ExternalResourcesRequired(..) => "externalResourcesRequired"@,
            SVGAttributes::Fill(..) => "fill"@,
            SVGAttributes::FillOpacity(..) => "fill-opacity"@,
            SVGAttributes::FillRule(..) => "fill-rule"@,
            SVGAttributes::Filter(..) => "filter"@,
            SVGAttributes::FilterRes(..) => "filterRes"@,
            SVGAttributes::FilterUnits(..) => "filterUnits"@,
            SVGAttributes::FloodColor(..) => "flood-color"@,
            SVGAttributes::FloodOpacity(..) => "flood-opacity"@,
            SVGAttributes::Focusable(..) => "focusable"@,
            SVGAttributes::FontFamily(..) => "font-family"@,
            SVGAttributes::FontSize(..) => "font-size"@,
            SVGAttributes::FontSizeAdjust(..) => "font-size-adjust"@,
            SVGAttributes::FontStretch(..) => "font-stretch"@,
            SVGAttributes::FontStyle(..) => "font-style"@,
            SVGAttributes::FontVariant(..) => "font-variant"@,
            SVGAttributes::FontWeight(..) => "font-weight"@,
            SVGAttributes::Format(..) => "format"@,
            SVGAttributes::Fr(..) => "fr"@,
            SVGAttributes::From(..) => "from"@,
            SVGAttributes::Fx(..) => "fx"@,
            SVGAttributes::Fy(..) => "fy"@,
            SVGAttributes::G1(..) => "g1"@,
            SVGAttributes::G2(..) => "g2"@,
            SVGAttributes::GlyphName(..) => "glyph-name"@,
            SVGAttributes::GlyphOrientationHorizontal(..) => "glyph-orientation-horizontal"@,
            SVGAttributes::GlyphOrientationVertical(..) => "glyph-orientation-vertical"@,
            SVGAttributes::GlyphRef(..) => "glyphRef"@,
            SVGAttributes::GradientTransform(..) => "gradientTransform"@,
            SVGAttributes::GradientUnits(..) => "gradientUnits"@,
            SVGAttributes::Hanging(..) => "hanging"@,
            SVGAttributes::HorizAdvX(..) => "horizAdvX"@,
            SVGAttributes::HorizOriginX(..) => "horiz-origin-x"@,
            SVGAttributes::Href(..) => "href"@,
            SVGAttributes::Ideographic(..) => "ideographic"@,
            SVGAttributes::ImageRendering(..) => "image-rendering"@,
            SVGAttributes::In2(..) => "in2"@,
            SVGAttributes::In(..) => "in"@,
            SVGAttributes::Intercept(..) => "intercept"@,
            SVGAttributes::K1(..) => "k1"@,
            SVGAttributes::K2(..) => "k2"@,
            SVGAttributes::K3(..) => "k3"@,
            SVGAttributes::K4(..) => "k4"@,
            SVGAttributes::K(..) => "k"@,
            SVGAttributes::KernelMatrix(..) => "kernelMatrix"@,
            SVGAttributes::KernelUnitLength(..) => "kernelUnitLength"@,
            SVGAttributes::Kerning(..) => "kerning"@,
            SVGAttributes::KeyPoints(..) => "keyPoints"@,
            SVGAttributes::KeySplines(..) => "keySplines"@,
            SVGAttributes::KeyTimes(..) => "keyTimes"@,
            SVGAttributes::LengthAdjust(..) => "lengthAdjust"@,
            SVGAttributes::LetterSpacing(..) => "letter-spacing"@,
            SVGAttributes::LightingColor(..) => "lighting-color"@,
            SVGAttributes::LimitingConeAngle(..) => "limitingConeAngle"@,
            SVGAttributes::Local(..) => "local"@,
            SVGAttributes::MarkerEnd(..) => "marker-end"@,
            SVGAttributes::MarkerHeight(..) => "markerHeight"@,
            SVGAttributes::MarkerMid(..) => "marker-mid"@,
            SVGAttributes::MarkerStart(..) => "marker-start"@,
            SVGAttributes::MarkerUnits(..) => "markerUnits"@,
            SVGAttributes::MarkerWidth(..) => "markerWidth"@,
            SVGAttributes::Mask(..) => "mask"@,
            SVGAttributes::MaskContentUnits(..) => "maskContentUnits"@,
            SVGAttributes::MaskUnits(..) => "maskUnits"@,
            SVGAttributes::Mathematical(..) => "mathematical"@,
            SVGAttributes::Mode(..) => "mode"@,
            SVGAttributes::NumOctaves(..) => "numOctaves"@,
            SVGAttributes::Offset(..) => "offset"@,
            SVGAttributes::Opacity(..) => "opacity"@,
            SVGAttributes::Operator(..) => "operator"@,
            SVGAttributes::Order(..) => "order"@,
            SVGAttributes::Orient(..) => "orient"@,
            SVGAttributes::Orientation(..) => "orientation"@,
            SVGAttributes::Origin(..) => "origin"@,
            SVGAttributes::Overflow(..) => "overflow"@,
            SVGAttributes::OverlinePosition(..) => "overline-position"@,
            SVGAttributes::OverlineThickness(..) => "overline-thickness"@,
            SVGAttributes::PaintOrder(..) => "paint-order"@,
            SVGAttributes::Panose1(..) => "panose-1"@,
            SVGAttributes::Path(..) => "path"@,
            SVGAttributes::PathLength(..) => "pathLength"@,
            SVGAttributes::PatternContentUnits(..) => "patternContentUnits"@,
            SVGAttributes::PatternTransform(..) => "patternTransform"@,
            SVGAttributes::PatternUnits(..) => "patternUnits"@,
            SVGAttributes::PointerEvents(..) => "pointer-events"@,
            SVGAttributes::Points(..) => "points"@,
            SVGAttributes::PointsAtX(..) => "pointsAtX"@,
            SVGAttributes::PointsAtY(..) => "pointsAtY"@,
            SVGAttributes::PointsAtZ(..) => "pointsAtZ"@,
            SVGAttributes::PreserveAlpha(..) => "preserveAlpha"@,
            SVGAttributes::OreserveAspectRatio(..) => "preserveAspectRatio"@,
            SVGAttributes::PrimitiveUnits(..) => "primitiveUnits"@,
            SVGAttributes::R(..) => "r"@,
            SVGAttributes::Radius(..) => "radius"@,
            SVGAttributes::RefX(..) => "refX"@,
            SVGAttributes::RefY(..) => "refY"@,
            SVGAttributes::RenderingIntent(..) => "rendering-intent"@,
            SVGAttributes::RepeatCount(..) => "repeatCount"@,
            SVGAttributes::RepeatDur(..) => "repeatDur"@,
            SVGAttributes::RequiredExtensions(..) => "requiredExtensions"@,
            SVGAttributes::RequiredFeatures(..) => "requiredFeatures"@,
            SVGAttributes::Restart(..) => "restart"@,
            SVGAttributes::Result(..) => "result"@,
            SVGAttributes::Rotate(..) => "rotate"@,
            SVGAttributes::Rx(..) => "rx"@,
            SVGAttributes::Ry(..) => "ry"@,
            SVGAttributes::Scale(..) => "scale"@,
            SVGAttributes::Seed(..) => "seed"@,
            SVGAttributes::ShapeRendering(..) => "shape-rendering"@,
            SVGAttributes::Slope(..) => "slope"@,
            SVGAttributes::Spacing(..) => "spacing"@,
            SVGAttributes::SpecularConstant(..) => "specularConstant"@,
            SVGAttributes::SpecularExponent(..) => "specularExponent"@,
            SVGAttributes::Speed(..) => "speed"@,
            SVGAttributes::SpreadMethod(..) => "spreadMethod"@,
            SVGAttributes::StartOffset(..) => "startOffset"@,
            SVGAttributes::StdDeviation(..) => "stdDeviation"@,
            SVGAttributes::Stemh(..) => "stemh"@,
            SVGAttributes::Stemv(..) => "stemv"@,
            SVGAttributes::StitchTiles(..) => "stitchTiles"@,
            SVGAttributes::StopColor(..) => "stop-color"@,
            SVGAttributes::StopOpacity(..) => "stop-opacity"@,
            SVGAttributes::StrikethroughPosition(..) => "strikethrough-position"@,
            SVGAttributes::StrikethroughThickness(..) => "strikethrough-thickness"@,
            SVGAttributes::String(..) => "string"@,
            SVGAttributes::Stroke(..) => "stroke"@,
            SVGAttributes::StrokeDasharray(..) => "stroke-dasharray"@,
            SVGAttributes::StrokeDashoffset(..) => "stroke-dashoffset"@,
            SVGAttributes::StrokeLinecap(..) => "stroke-linecap"@,
            SVGAttributes::StrokeLinejoin(..) => "stroke-linejoin"@,
            SVGAttributes::StrokeMiterlimit(..) => "stroke-miterlimit"@,
            SVGAttributes::StrokeOpacity(..) => "stroke-opacity"@,
            SVGAttributes::StrokeWidth(..) => "stroke-width"@,
            SVGAttributes::SurfaceScale(..) => "surfaceScale"@,
            SVGAttributes::SystemLanguage(..) => "systemLanguage"@,
            SVGAttributes::TableValues(..) => "tableValues"@,
            SVGAttributes::TargetX(..) => "targetX"@,
            SVGAttributes::TargetY(..) => "targetY"@,
            SVGAttributes::TextAnchor(..) => "text-anchor"@,
            SVGAttributes::TextDecoration(..) => "text-decoration"@,
            SVGAttributes::TextLength(..) => "textLength"@,
            SVGAttributes::TextRendering(..) => "text-rendering"@,
            SVGAttributes::To(..) => "to"@,
            SVGAttributes::Transform(..) => "transform"@,
            SVGAttributes::U1(..) => "u1"@,
            SVGAttributes::U2(..) => "u2"@,
            SVGAttributes::UnderlinePosition(..) => "underline-position"@,
            SVGAttributes::UnderlineThickness(..) => "underline-thickness"@,
            SVGAttributes::Unicode(..) => "unicode"@,
            SVGAttributes::UnicodeBidi(..) => "unicode-bidi"@,
            SVGAttributes::UnicodeRange(..) => "unicode-range"@,
            SVGAttributes::UnitsPerEm(..) => "units-per-em"@,
            SVGAttributes::VAlphabetic(..) => "v-alphabetic"@,
            SVGAttributes::Values(..) => "values"@,
            SVGAttributes::VectorEffect(..) => "vector-effect"@,
            SVGAttributes::Version(..) => "version"@,
            SVGAttributes::VertAdvY(..) => "vert-adv-y"@,
            SVGAttributes::VertOriginX(..) => "vert-origin-x"@,
            SVGAttributes::VertOriginY(..) => "vert-origin-y"@,
            SVGAttributes::VHanging(..) => "v-hanging"@,
            SVGAttributes::VIdeographic(..) => "v-ideographic"@,
            SVGAttributes::ViewBox(..) => "viewBox"@,
            SVGAttributes::ViewTarget(..) => "viewTarget"@,
            SVGAttributes::Visibility(..) => "visibility"@,
            SVGAttributes::VMathematical(..) => "v-mathematical"@,
            SVGAttributes::Widths(..) => "widths"@,
            SVGAttributes::WordSpacing(..) => "word-spacing"@,
            SVGAttributes::WritingMode(..) => "writing-mode"@,
            SVGAttributes::X1(..) => "x1"@,
            SVGAttributes::X2(..) => "x2"@,
            SVGAttributes::X(..) => "x"@,
            SVGAttributes::XChannelSelector(..) => "xChannelSelector"@,
            SVGAttributes::XHeight(..) => "x-height"@,
            SVGAttributes::XlinkActuate(..) => "xlink:actuate"@,
            SVGAttributes::XlinkArcrole(..) => "xlink:arcrole"@,
            SVGAttributes::XlinkHref(..) => "xlink:href"@,
            SVGAttributes::XlinkRole(..) => "xlink:role"@,
            SVGAttributes::XlinkShow(..) => "xlink:show"@,
            SVGAttributes::XlinkTitle(..) => "xlink:title"@,
            SVGAttributes::XlinkType(..) => "xlink:type"@,
            SVGAttributes::XmlBase(..) => "xml:base"@,
            SVGAttributes::XmlLang(..) => "xml:lang"@,
            SVGAttributes::Xmlns(..) => "xmlns"@,
            SVGAttributes::XmlnsXlink(..) => "xmlns:xlink"@,
            SVGAttributes::XmlSpace(..) => "xml:space"@,
            SVGAttributes::Y1(..) => "y1"@,
            SVGAttributes::Y2(..) => "y2"@,
            SVGAttributes::Y(..) => "y"@,
            SVGAttributes::YChannelSelector(..) => "yChannelSelector"@,
            SVGAttributes::Z(..) => "z"@,
            SVGAttributes::ZoomAndPan(..) => "zoomAndPan"@,
        }
    }

    open spec fn spec_value(&self) -> Option<Seq<char>> {
        match self {
            SVGAttributes::Color(v) => Some(v.spec_text()),
            SVGAttributes::Height(v) => Some(v.spec_text()),
            SVGAttributes::Id(v) => Some(v.spec_text()),
            SVGAttributes::Lang(v) => Some(v.spec_text()),
            SVGAttributes::Max(v) => Some(v.spec_text()),
            SVGAttributes::Media(v) => Some(v.spec_text()),
            SVGAttributes::Method(v) => Some(v.spec_text()),
            SVGAttributes::Min(v) => Some(v.spec_text()),
            SVGAttributes::Name(v) => Some(v.spec_text()),
            SVGAttributes::Target(v) => Some(v.spec_text()),
            SVGAttributes::Type(v) => Some(v.spec_text()),
            SVGAttributes::Width(v) => Some(v.spec_text()),
            SVGAttributes::Role(v) => Some(v.spec_text()),
            SVGAttributes::TabIndex(v) => Some(v.spec_text()),
            SVGAttributes::CrossOrigin(v) => Some(v.spec_text()),
            SVGAttributes::AccentHeight(v) => Some(v.spec_text()),
            SVGAttributes::Accumulate(v) => Some(v.spec_text()),
            SVGAttributes::Additive(v) => Some(v.spec_text()),
            SVGAttributes::AlignmentBaseline(v) => Some(v.spec_text()),
            SVGAttributes::AllowReorder(v) => Some(v.spec_text()),
            SVGAttributes::Alphabetic(v) => Some(v.spec_text()),
            SVGAttributes::Amplitude(v) => Some(v.spec_text()),
            SVGAttributes::ArabicForm(v) => Some(v.spec_text()),
            SVGAttributes::Ascent(v) => Some(v.spec_text()),
            SVGAttributes::AttributeName(v) => Some(v.spec_text()),
            SVGAttributes::AttributeType(v) => Some(v.spec_text()),
            SVGAttributes::AutoReverse(v) => Some(v.spec_text()),
            SVGAttributes::Azimuth(v) => Some(v.spec_text()),
            SVGAttributes::BaseFrequency(v) => Some(v.spec_text()),
            SVGAttributes::BaselineShift(v) => Some(v.spec_text()),
            SVGAttributes::BaseProfile(v) => Some(v.spec_text()),
            SVGAttributes::Bbox(v) => Some(v.spec_text()),
            SVGAttributes::Begin(v) => Some(v.spec_text()),
            SVGAttributes::Bias(v) => Some(v.spec_text()),
            SVGAttributes::By(v) => Some(v.spec_text()),
            SVGAttributes::CalcMode(v) => Some(v.spec_text()),
            SVGAttributes::CapHeight(v) => Some(v.spec_text()),
            SVGAttributes::Clip(v) => Some(v.spec_text()),
            SVGAttributes::ClipPath(v) => Some(v.spec_text()),
            SVGAttributes::ClipPathUnits(v) => Some(v.spec_text()),
            SVGAttributes::ClipRule(v) => Some(v.spec_text()),
            SVGAttributes::ColorInterpolation(v) => Some(v.spec_text()),
            SVGAttributes::ColorInterpolationFilters(v) => Some(v.spec_text()),
            SVGAttributes::ColorProfile(v) => Some(v.spec_text()),
            SVGAttributes::ColorRendering(v) => Some(v.spec_text()),
            SVGAttributes::ContentScriptType(v) => Some(v.spec_text()),
            SVGAttributes::ContentStyleType(v) => Some(v.spec_text()),
            SVGAttributes::Cursor(v) => Some(v.spec_text()),
            SVGAttributes::Cx(v) => Some(v.spec_text()),
            SVGAttributes::Cy(v) => Some(v.spec_text()),
            SVGAttributes::D(v) => Some(v.spec_text()),
            SVGAttributes::Decelerate(v) => Some(v.spec_text()),
            SVGAttributes::Descent(v) => Some(v.spec_text()),
            SVGAttributes::DiffuseConstant(v) => Some(v.spec_text()),
            SVGAttributes::Direction(v) => Some(v.spec_text()),
            SVGAttributes::Display(v) => Some(v.spec_text()),
            SVGAttributes::Divisor(v) => Some(v.spec_text()),
            SVGAttributes::DominantBaseline(v) => Some(v.spec_text()),
            SVGAttributes::Dur(v) => Some(v.spec_text()),
            SVGAttributes::Dx(v) => Some(v.spec_text()),
            SVGAttributes::Dy(v) => Some(v.spec_text()),
            SVGAttributes::EdgeMode(v) => Some(v.spec_text()),
            SVGAttributes::Elevation(v) => Some(v.spec_text()),
            SVGAttributes::EnableBackground(v) => Some(v.spec_text()),
            SVGAttributes::End(v) => Some(v.spec_text()),
            SVGAttributes::Exponent(v) => Some(v.spec_text()),
            SVGAttributes::ExternalResourcesRequired(v) => Some(v.spec_text()),
            SVGAttributes::Fill(v) => Some(v.spec_text()),
            SVGAttributes::FillOpacity(v) => Some(v.spec_text()),
            SVGAttributes::FillRule(v) => Some(v.spec_text()),
            SVGAttributes::Filter(v) => Some(v.spec_text()),
            SVGAttributes::FilterRes(v) => Some(v.spec_text()),
            SVGAttributes::FilterUnits(v) => Some(v.spec_text()),
            SVGAttributes::FloodColor(v) => Some(v.spec_text()),
            SVGAttributes::FloodOpacity(v) => Some(v.spec_text()),
            SVGAttributes::Focusable(v) => Some(v.spec_text()),
            SVGAttributes::FontFamily(v) => Some(v.spec_text()),
            SVGAttributes::FontSize(v) => Some(v.spec_text()),
            SVGAttributes::FontSizeAdjust(v) => Some(v.spec_text()),
            SVGAttributes::FontStretch(v) => Some(v.spec_text()),
            SVGAttributes::FontStyle(v) => Some(v.spec_text()),
            SVGAttributes::FontVariant(v) => Some(v.spec_text()),
            SVGAttributes::FontWeight(v) => Some(v.spec_text()),
            SVGAttributes::Format(v) => Some(v.spec_text()),
            SVGAttributes::Fr(v) => Some(v.spec_text()),
            SVGAttributes::From(v) => Some(v.spec_text()),
            SVGAttributes::Fx(v) => Some(v.spec_text()),
            SVGAttributes::Fy(v) => Some(v.spec_text()),
            SVGAttributes::G1(v) => Some(v.spec_text()),
            SVGAttributes::G2(v) => Some(v.spec_text()),
            SVGAttributes::GlyphName(v) => Some(v.spec_text()),
            SVGAttributes::GlyphOrientationHorizontal(v) => Some(v.spec_text()),
            SVGAttributes::GlyphOrientationVertical(v) => Some(v.spec_text()),
            SVGAttributes::GlyphRef(v) => Some(v.spec_text()),
            SVGAttributes::GradientTransform(v) => Some(v.spec_text()),
            SVGAttributes::GradientUnits(v) => Some(v.spec_text()),
            SVGAttributes::Hanging(v) => Some(v.spec_text()),
            SVGAttributes::HorizAdvX(v) => Some(v.spec_text()),
            SVGAttributes::HorizOriginX(v) => Some(v.spec_text()),
            SVGAttributes::Href(v) => Some(v.spec_text()),
            SVGAttributes::Ideographic(v) => Some(v.spec_text()),
            SVGAttributes::ImageRendering(v) => Some(v.spec_text()),
            SVGAttributes::In2(v) => Some(v.spec_text()),
            SVGAttributes::In(v) => Some(v.spec_text()),
            SVGAttributes::Intercept(v) => Some(v.spec_text()),
            SVGAttributes::K1(v) => Some(v.spec_text()),
            SVGAttributes::K2(v) => Some(v.spec_text()),
            SVGAttributes::K3(v) => Some(v.spec_text()),
            SVGAttributes::K4(v) => Some(v.spec_text()),
            SVGAttributes::K(v) => Some(v.spec_text()),
            SVGAttributes::KernelMatrix(v) => Some(v.spec_text()),
            SVGAttributes::KernelUnitLength(v) => Some(v.spec_text()),
            SVGAttributes::Kerning(v) => Some(v.spec_text()),
            SVGAttributes::KeyPoints(v) => Some(v.spec_text()),
            SVGAttributes::KeySplines(v) => Some(v.spec_text()),
            SVGAttributes::KeyTimes(v) => Some(v.spec_text()),
            SVGAttributes::LengthAdjust(v) => Some(v.spec_text()),
            SVGAttributes::LetterSpacing(v) => Some(v.spec_text()),
            SVGAttributes::LightingColor(v) => Some(v.spec_text()),
            SVGAttributes::LimitingConeAngle(v) => Some(v.spec_text()),
            SVGAttributes::Local(v) => Some(v.spec_text()),
            SVGAttributes::MarkerEnd(v) => Some(v.spec_text()),
            SVGAttributes::MarkerHeight(v) => Some(v.spec_text()),
            SVGAttributes::MarkerMid(v) => Some(v.spec_text()),
            SVGAttributes::MarkerStart(v) => Some(v.spec_text()),
            SVGAttributes::MarkerUnits(v) => Some(v.spec_text()),
            SVGAttributes::MarkerWidth(v) => Some(v.spec_text()),
            SVGAttributes::Mask(v) => Some(v.spec_text()),
            SVGAttributes::MaskContentUnits(v) => Some(v.spec_text()),
            SVGAttributes::MaskUnits(v) => Some(v.spec_text()),
            SVGAttributes::Mathematical(v) => Some(v.spec_text()),
            SVGAttributes::Mode(v) => Some(v.spec_text()),
            SVGAttributes::NumOctaves(v) => Some(v.spec_text()),
            SVGAttributes::Offset(v) => Some(v.spec_text()),
            SVGAttributes::Opacity(v) => Some(v.spec_text()),
            SVGAttributes::Operator(v) => Some(v.spec_text()),
            SVGAttributes::Order(v) => Some(v.spec_text()),
            SVGAttributes::Orient(v) => Some(v.spec_text()),
            SVGAttributes::Orientation(v) => Some(v.spec_text()),
            SVGAttributes::Origin(v) => Some(v.spec_text()),
            SVGAttributes::Overflow(v) => Some(v.spec_text()),
            SVGAttributes::OverlinePosition(v) => Some(v.spec_text()),
            SVGAttributes::OverlineThickness(v) => Some(v.spec_text()),
            SVGAttributes::PaintOrder(v) => Some(v.spec_text()),
            SVGAttributes::Panose1(v) => Some(v.spec_text()),
            SVGAttributes::Path(v) => Some(v.spec_text()),
            SVGAttributes::PathLength(v) => Some(v.spec_text()),
            SVGAttributes::PatternContentUnits(v) => Some(v.spec_text()),
            SVGAttributes::PatternTransform(v) => Some(v.spec_text()),
            SVGAttributes::PatternUnits(v) => Some(v.spec_text()),
            SVGAttributes::PointerEvents(v) => Some(v.spec_text()),
            SVGAttributes::Points(v) => Some(v.spec_text()),
            SVGAttributes::PointsAtX(v) => Some(v.spec_text()),
            SVGAttributes::PointsAtY(v) => Some(v.spec_text()),
            SVGAttributes::PointsAtZ(v) => Some(v.spec_text()),
            SVGAttributes::PreserveAlpha(v) => Some(v.spec_text()),
            SVGAttributes::OreserveAspectRatio(v) => Some(v.spec_text()),
            SVGAttributes::PrimitiveUnits(v) => Some(v.spec_text()),
            SVGAttributes::R(v) => Some(v.spec_text()),
            SVGAttributes::Radius(v) => Some(v.spec_text()),
            SVGAttributes::RefX(v) => Some(v.spec_text()),
            SVGAttributes::RefY(v) => Some(v.spec_text()),
            SVGAttributes::RenderingIntent(v) => Some(v.spec_text()),
            SVGAttributes::RepeatCount(v) => Some(v.spec_text()),
            SVGAttributes::RepeatDur(v) => Some(v.spec_text()),
            SVGAttributes::RequiredExtensions(v) => Some(v.spec_text()),
            SVGAttributes::RequiredFeatures(v) => Some(v.spec_text()),
            SVGAttributes::Restart(v) => Some(v.spec_text()),
            SVGAttributes::Result(v) => Some(v.spec_text()),
            SVGAttributes::Rotate(v) => Some(v.spec_text()),
            SVGAttributes::Rx(v) => Some(v.spec_text()),
            SVGAttributes::Ry(v) => Some(v.spec_text()),
            SVGAttributes::Scale(v) => Some(v.spec_text()),
            SVGAttributes::Seed(v) => Some(v.spec_text()),
            SVGAttributes::ShapeRendering(v) => Some(v.spec_text()),
            SVGAttributes::Slope(v) => Some(v.spec_text()),
            SVGAttributes::Spacing(v) => Some(v.spec_text()),
            SVGAttributes::SpecularConstant(v) => Some(v.spec_text()),
            SVGAttributes::SpecularExponent(v) => Some(v.spec_text()),
            SVGAttributes::Speed(v) => Some(v.spec_text()),
            SVGAttributes::SpreadMethod(v) => Some(v.spec_text()),
            SVGAttributes::StartOffset(v) => Some(v.spec_text()),
            SVGAttributes::StdDeviation(v) => Some(v.spec_text()),
            SVGAttributes::Stemh(v) => Some(v.spec_text()),
            SVGAttributes::Stemv(v) => Some(v.spec_text()),
            SVGAttributes::StitchTiles(v) => Some(v.spec_text()),
            SVGAttributes::StopColor(v) => Some(v.spec_text()),
            SVGAttributes::StopOpacity(v) => Some(v.spec_text()),
            SVGAttributes::StrikethroughPosition(v) => Some(v.spec_text()),
            SVGAttributes::StrikethroughThickness(v) => Some(v.spec_text()),
            SVGAttributes::String(v) => Some(v.spec_text()),
            SVGAttributes::Stroke(v) => Some(v.spec_text()),
            SVGAttributes::StrokeDasharray(v) => Some(v.spec_text()),
            SVGAttributes::StrokeDashoffset(v) => Some(v.spec_text()),
            SVGAttributes::StrokeLinecap(v) => Some(v.spec_text()),
            SVGAttributes::StrokeLinejoin(v) => Some(v.spec_text()),
            SVGAttributes::StrokeMiterlimit(v) => Some(v.spec_text()),
            SVGAttributes::StrokeOpacity(v) => Some(v.spec_text()),
            SVGAttributes::StrokeWidth(v) => Some(v.spec_text()),
            SVGAttributes::SurfaceScale(v) => Some(v.spec_text()),
            SVGAttributes::SystemLanguage(v) => Some(v.spec_text()),
            SVGAttributes::TableValues(v) => Some(v.spec_text()),
            SVGAttributes::TargetX(v) => Some(v.spec_text()),
            SVGAttributes::TargetY(v) => Some(v.spec_text()),
            SVGAttributes::TextAnchor(v) => Some(v.spec_text()),
            SVGAttributes::TextDecoration(v) => Some(v.spec_text()),
            SVGAttributes::TextLength(v) => Some(v.spec_text()),
            SVGAttributes::TextRendering(v) => Some(v.spec_text()),
            SVGAttributes::To(v) => Some(v.spec_text()),
            SVGAttributes::Transform(v) => Some(v.spec_text()),
            SVGAttributes::U1(v) => Some(v.spec_text()),
            SVGAttributes::U2(v) => Some(v.spec_text()),
            SVGAttributes::UnderlinePosition(v) => Some(v.spec_text()),
            SVGAttributes::UnderlineThickness(v) => Some(v.spec_text()),
            SVGAttributes::Unicode(v) => Some(v.spec_text()),
            SVGAttributes::UnicodeBidi(v) => Some(v.spec_text()),
            SVGAttributes::UnicodeRange(v) => Some(v.spec_text()),
            SVGAttributes::UnitsPerEm(v) => Some(v.spec_text()),
            SVGAttributes::VAlphabetic(v) => Some(v.spec_text()),
            SVGAttributes::Values(v) => Some(v.spec_text()),
            SVGAttributes::VectorEffect(v) => Some(v.spec_text()),
            SVGAttributes::Version(v) => Some(v.spec_text()),
            SVGAttributes::VertAdvY(v) => Some(v.spec_text()),
            SVGAttributes::VertOriginX(v) => Some(v.spec_text()),
            SVGAttributes::VertOriginY(v) => Some(v.spec_text()),
            SVGAttributes::VHanging(v) => Some(v.spec_text()),
            SVGAttributes::VIdeographic(v) => Some(v.spec_text()),
            SVGAttributes::ViewBox(v) => Some(v.spec_text()),
            SVGAttributes::ViewTarget(v) => Some(v.spec_text()),
            SVGAttributes::Visibility(v) => Some(v.spec_text()),
            SVGAttributes::VMathematical(v) => Some(v.spec_text()),
            SVGAttributes::Widths(v) => Some(v.spec_text()),
            SVGAttributes::WordSpacing(v) => Some(v.spec_text()),
            SVGAttributes::WritingMode(v) => Some(v.spec_text()),
            SVGAttributes::X1(v) => Some(v.spec_text()),
            SVGAttributes::X2(v) => Some(v.spec_text()),
            SVGAttributes::X(v) => Some(v.spec_text()),
            SVGAttributes::XChannelSelector(v) => Some(v.spec_text()),
            SVGAttributes::XHeight(v) => Some(v.spec_text()),
            SVGAttributes::XlinkActuate(v) => Some(v.spec_text()),
            SVGAttributes::XlinkArcrole(v) => Some(v.spec_text()),
            SVGAttributes::XlinkHref(v) => Some(v.spec_text()),
            SVGAttributes::XlinkRole(v) => Some(v.spec_text()),
            SVGAttributes::XlinkShow(v) => Some(v.spec_text()),
            SVGAttributes::XlinkTitle(v) => Some(v.spec_text()),
            SVGAttributes::XlinkType(v) => Some(v.spec_text()),
            SVGAttributes::XmlBase(v) => Some(v.spec_text()),
            SVGAttributes::XmlLang(v) => Some(v.spec_text()),
            SVGAttributes::Xmlns(v) => Some(v.spec_text()),
            SVGAttributes::XmlnsXlink(v) => Some(v.spec_text()),
            SVGAttributes::XmlSpace(v) => Some(v.spec_text()),
            SVGAttributes::Y1(v) => Some(v.spec_text()),
            SVGAttributes::Y2(v) => Some(v.spec_text()),
            SVGAttributes::Y(v) => Some(v.spec_text()),
            SVGAttributes::YChannelSelector(v) => Some(v.spec_text()),
            SVGAttributes::Z(v) => Some(v.spec_text()),
            SVGAttributes::ZoomAndPan(v) => Some(v.spec_text()),
        }
    }

    fn get_key(&self) -> (r: String) {
        match self {
            SVGAttributes::Color(..) => String::from_str("color"),
            SVGAttributes::Height(..) => String::from_str("height"),
            SVGAttributes::Id(..) => String::from_str("id"),
            SVGAttributes::Lang(..) => String::from_str("lang"),
            SVGAttributes::Max(..) => String::from_str("max"),
            SVGAttributes::Media(..) => String::from_str("media"),
            SVGAttributes::Method(..) => String::from_str("method"),
            SVGAttributes::Min(..) => String::from_str("min"),
            SVGAttributes::Name(..) => String::from_str("name"),
            SVGAttributes::Target(..) => String::from_str("target"),
            SVGAttributes::Type(..) => String::from_str("type"),
            SVGAttributes::Width(..) => String::from_str("width"),
            SVGAttributes::Role(..) => String::from_str("role"),
            SVGAttributes::TabIndex(..) => String::from_str("tab-index"),
            SVGAttributes::CrossOrigin(..) => String::from_str("cross-origin"),
            SVGAttributes::AccentHeight(..) => String::from_str("accent-height"),
            SVGAttributes::Accumulate(..) => String::from_str("accumulate"),
            SVGAttributes::Additive(..) => String::from_str("additive"),
            SVGAttributes::AlignmentBaseline(..) => String::from_str("alignment-baseline"),
            SVGAttributes::AllowReorder(..) => String::from_str("allowReorder"),
            SVGAttributes::Alphabetic(..) => String::from_str("alphabetic"),
            SVGAttributes::Amplitude(..) => String::from_str("amplitude"),
            SVGAttributes::ArabicForm(..) => String::from_str("arabic-form"),
            SVGAttributes::Ascent(..) => String::from_str("ascent"),
            SVGAttributes::AttributeName(..) => String::from_str("attributeName"),
            SVGAttributes::AttributeType(..) => String::from_str("attributeType"),
            SVGAttributes::AutoReverse(..) => String::from_str("auto-reverse"),
            SVGAttributes::Azimuth(..) => String::from_str("azimuth"),
            SVGAttributes::BaseFrequency(..) => String::from_str("baseFrequency"),
            SVGAttributes::BaselineShift(..) => String::from_str("baseline-shift"),
            SVGAttributes::BaseProfile(..) => String::from_str("baseProfile"),
            SVGAttributes::Bbox(..) => String::from_str("bbox"),
            SVGAttributes::Begin(..) => String::from_str("begin"),
            SVGAttributes::Bias(..) => String::from_str("bias"),
            SVGAttributes::By(..) => String::from_str("by"),
            SVGAttributes::CalcMode(..) => String::from_str("calc-mode"),
            SVGAttributes::CapHeight(..) => String::from_str("cap-height"),
            SVGAttributes::Clip(..) => String::from_str("clip"),
            SVGAttributes::ClipPath(..) => String::from_str("clipPath"),
            SVGAttributes::ClipPathUnits(..) => String::from_str("clipPathUnits"),
            SVGAttributes::ClipRule(..) => String::from_str("clip-rule"),
            SVGAttributes::ColorInterpolation(..) => String::from_str("color-interpolation"),
            SVGAttributes::ColorInterpolationFilters(..) => String::from_str("color-interpolation-filters"),
            SVGAttributes::ColorProfile(..) => String::from_str("color-profile"),
            SVGAttributes::ColorRendering(..) => String::from_str("color-rendering"),
            SVGAttributes::ContentScriptType(..) => String::from_str("contentScriptType"),
            SVGAttributes::ContentStyleType(..) => String::from_str("contentStyleType"),
            SVGAttributes::Cursor(..) => String::from_str("cursor"),
            SVGAttributes::Cx(..) => String::from_str("cx"),
            SVGAttributes::Cy(..) => String::from_str("cy"),
            SVGAttributes::D(..) => String::from_str("d"),
            SVGAttributes::Decelerate(..) => String::from_str("decelerate"),
            SVGAttributes::Descent(..) => String::from_str("descent"),
            SVGAttributes::DiffuseConstant(..) => String::from_str("diffuseConstant"),
            SVGAttributes::Direction(..) => String::from_str("direction"),
            SVGAttributes::Display(..) => String::from_str("display"),
            SVGAttributes::Divisor(..) => String::from_str("divisor"),
            SVGAttributes::DominantBaseline(..) => String::from_str("dominant-baseline"),
            SVGAttributes::Dur(..) => String::from_str("dur"),
            SVGAttributes::Dx(..) => String::from_str("dx"),
            SVGAttributes::Dy(..) => String::from_str("dy"),
            SVGAttributes::EdgeMode(..) => String::from_str("edgeMode"),
            SVGAttributes::Elevation(..) => String::from_str("elevation"),
            SVGAttributes::EnableBackground(..) => String::from_str("enable-background"),
            SVGAttributes::End(..) => String::from_str("end"),
            SVGAttributes::Exponent(..) => String::from_str("exponent"),
            SVGAttributes::ExternalResourcesRequired(..) => String::from_str("externalResourcesRequired"),
            SVGAttributes::Fill(..) => String::from_str("fill"),
            SVGAttributes::FillOpacity(..) => String::from_str("fill-opacity"),
            SVGAttributes::FillRule(..) => String::from_str("fill-rule"),
            SVGAttributes::Filter(..) => String::from_str("filter"),
            SVGAttributes::FilterRes(..) => String::from_str("filterRes"),
            SVGAttributes::FilterUnits(..) => String::from_str("filterUnits"),
            SVGAttributes::FloodColor(..) => String::from_str("flood-color"),
            SVGAttributes::FloodOpacity(..) => String::from_str("flood-opacity"),
            SVGAttributes::Focusable(..) => String::from_str("focusable"),
            SVGAttributes::FontFamily(..) => String::from_str("font-family"),
            SVGAttributes::FontSize(..) => String::from_str("font-size"),
            SVGAttributes::FontSizeAdjust(..) => String::from_str("font-size-adjust"),
            SVGAttributes::FontStretch(..) => String::from_str("font-stretch"),
            SVGAttributes::FontStyle(..) => String::from_str("font-style"),
            SVGAttributes::FontVariant(..) => String::from_str("font-variant"),
            SVGAttributes::FontWeight(..) => String::from_str("font-weight"),
            SVGAttributes::Format(..) => String::from_str("format"),
            SVGAttributes::Fr(..) => String::from_str("fr"),
            SVGAttributes::From(..) => String::from_str("from"),
            SVGAttributes::Fx(..) => String::from_str("fx"),
            SVGAttributes::Fy(..) => String::from_str("fy"),
            SVGAttributes::G1(..) => String::from_str("g1"),
            SVGAttributes::G2(..) => String::from_str("g2"),
            SVGAttributes::GlyphName(..) => String::from_str("glyph-name"),
            SVGAttributes::GlyphOrientationHorizontal(..) => String::from_str("glyph-orientation-horizontal"),
            SVGAttributes::GlyphOrientationVertical(..) => String::from_str("glyph-orientation-vertical"),
            SVGAttributes::GlyphRef(..) => String::from_str("glyphRef"),
            SVGAttributes::GradientTransform(..) => String::from_str("gradientTransform"),
            SVGAttributes::GradientUnits(..) => String::from_str("gradientUnits"),
            SVGAttributes::Hanging(..) => String::from_str("hanging"),
            SVGAttributes::HorizAdvX(..) => String::from_str("horizAdvX"),
            SVGAttributes::HorizOriginX(..) => String::from_str("horiz-origin-x"),
            SVGAttributes::Href(..) => String::from_str("href"),
            SVGAttributes::Ideographic(..) => String::from_str("ideographic"),
            SVGAttributes::ImageRendering(..) => String::from_str("image-rendering"),
            SVGAttributes::In2(..) => String::from_str("in2"),
            SVGAttributes::In(..) => String::from_str("in"),
            SVGAttributes::Intercept(..) => String::from_str("intercept"),
            SVGAttributes::K1(..) => String::from_str("k1"),
            SVGAttributes::K2(..) => String::from_str("k2"),
            SVGAttributes::K3(..) => String::from_str("k3"),
            SVGAttributes::K4(..) => String::from_str("k4"),
            SVGAttributes::K(..) => String::from_str("k"),
            SVGAttributes::KernelMatrix(..) => String::from_str("kernelMatrix"),
            SVGAttributes::KernelUnitLength(..) => String::from_str("kernelUnitLength"),
            SVGAttributes::Kerning(..) => String::from_str("kerning"),
            SVGAttributes::KeyPoints(..) => String::from_str("keyPoints"),
            SVGAttributes::KeySplines(..) => String::from_str("keySplines"),
            SVGAttributes::KeyTimes(..) => String::from_str("keyTimes"),
            SVGAttributes::LengthAdjust(..) => String::from_str("lengthAdjust"),
            SVGAttributes::LetterSpacing(..) => String::from_str("letter-spacing"),
            SVGAttributes::LightingColor(..) => String::from_str("lighting-color"),
            SVGAttributes::LimitingConeAngle(..) => String::from_str("limitingConeAngle"),
            SVGAttributes::Local(..) => String::from_str("local"),
            SVGAttributes::MarkerEnd(..) => String::from_str("marker-end"),
            SVGAttributes::MarkerHeight(..) => String::from_str("markerHeight"),
            SVGAttributes::MarkerMid(..) => String::from_str("marker-mid"),
            SVGAttributes::MarkerStart(..) => String::from_str("marker-start"),
            SVGAttributes::MarkerUnits(..) => String::from_str("markerUnits"),
            SVGAttributes::MarkerWidth(..) => String::from_str("markerWidth"),
            SVGAttributes::Mask(..) => String::from_str("mask"),
            SVGAttributes::MaskContentUnits(..) => String::from_str("maskContentUnits"),
            SVGAttributes::MaskUnits(..) => String::from_str("maskUnits"),
            SVGAttributes::Mathematical(..) => String::from_str("mathematical"),
            SVGAttributes::Mode(..) => String::from_str("mode"),
            SVGAttributes::NumOctaves(..) => String::from_str("numOctaves"),
            SVGAttributes::Offset(..) => String::from_str("offset"),
            SVGAttributes::Opacity(..) => String::from_str("opacity"),
            SVGAttributes::Operator(..) => String::from_str("operator"),
            SVGAttributes::Order(..) => String::from_str("order"),
            SVGAttributes::Orient(..) => String::from_str("orient"),
            SVGAttributes::Orientation(..) => String::from_str("orientation"),
            SVGAttributes::Origin(..) => String::from_str("origin"),
            SVGAttributes::Overflow(..) => String::from_str("overflow"),
            SVGAttributes::OverlinePosition(..) => String::from_str("overline-position"),
            SVGAttributes::OverlineThickness(..) => String::from_str("overline-thickness"),
            SVGAttributes::PaintOrder(..) => String::from_str("paint-order"),
            SVGAttributes::Panose1(..) => String::from_str("panose-1"),
            SVGAttributes::Path(..) => String::from_str("path"),
            SVGAttributes::PathLength(..) => String::from_str("pathLength"),
            SVGAttributes::PatternContentUnits(..) => String::from_str("patternContentUnits"),
            SVGAttributes::PatternTransform(..) => String::from_str("patternTransform"),
            SVGAttributes::PatternUnits(..) => String::from_str("patternUnits"),
            SVGAttributes::PointerEvents(..) => String::from_str("pointer-events"),
            SVGAttributes::Points(..) => String::from_str("points"),
            SVGAttributes::PointsAtX(..) => String::from_str("pointsAtX"),
            SVGAttributes::PointsAtY(..) => String::from_str("pointsAtY"),
            SVGAttributes::PointsAtZ(..) => String::from_str("pointsAtZ"),
            SVGAttributes::PreserveAlpha(..) => String::from_str("preserveAlpha"),
            SVGAttributes::OreserveAspectRatio(..) => String::from_str("preserveAspectRatio"),
            SVGAttributes::PrimitiveUnits(..) => String::from_str("primitiveUnits"),
            SVGAttributes::R(..) => String::from_str("r"),
            SVGAttributes::Radius(..) => String::from_str("radius"),
            SVGAttributes::RefX(..) => String::from_str("refX"),
            SVGAttributes::RefY(..) => String::from_str("refY"),
            SVGAttributes::RenderingIntent(..) => String::from_str("rendering-intent"),
            SVGAttributes::RepeatCount(..) => String::from_str("repeatCount"),
            SVGAttributes::RepeatDur(..) => String::from_str("repeatDur"),
            SVGAttributes::RequiredExtensions(..) => String::from_str("requiredExtensions"),
            SVGAttributes::RequiredFeatures(..) => String::from_str("requiredFeatures"),
            SVGAttributes::Restart(..) => String::from_str("restart"),
            SVGAttributes::Result(..) => String::from_str("result"),
            SVGAttributes::Rotate(..) => String::from_str("rotate"),
            SVGAttributes::Rx(..) => String::from_str("rx"),
            SVGAttributes::Ry(..) => String::from_str("ry"),
            SVGAttributes::Scale(..) => String::from_str("scale"),
            SVGAttributes::Seed(..) => String::from_str("seed"),
            SVGAttributes::ShapeRendering(..) => String::from_str("shape-rendering"),
            SVGAttributes::Slope(..) => String::from_str("slope"),
            SVGAttributes::Spacing(..) => String::from_str("spacing"),
            SVGAttributes::SpecularConstant(..) => String::from_str("specularConstant"),
            SVGAttributes::SpecularExponent(..) => String::from_str("specularExponent"),
            SVGAttributes::Speed(..) => String::from_str("speed"),
            SVGAttributes::SpreadMethod(..) => String::from_str("spreadMethod"),
            SVGAttributes::StartOffset(..) => String::from_str("startOffset"),
            SVGAttributes::StdDeviation(..) => String::from_str("stdDeviation"),
            SVGAttributes::Stemh(..) => String::from_str("stemh"),
            SVGAttributes::Stemv(..) => String::from_str("stemv"),
            SVGAttributes::StitchTiles(..) => String::from_str("stitchTiles"),
            SVGAttributes::StopColor(..) => String::from_str("stop-color"),
            SVGAttributes::StopOpacity(..) => String::from_str("stop-opacity"),
            SVGAttributes::StrikethroughPosition(..) => String::from_str("strikethrough-position"),
            SVGAttributes::StrikethroughThickness(..) => String::from_str("strikethrough-thickness"),
            SVGAttributes::String(..) => String::from_str("string"),
            SVGAttributes::Stroke(..) => String::from_str("stroke"),
            SVGAttributes::StrokeDasharray(..) => String::from_str("stroke-dasharray"),
            SVGAttributes::StrokeDashoffset(..) => String::from_str("stroke-dashoffset"),
            SVGAttributes::StrokeLinecap(..) => String::from_str("stroke-linecap"),
            SVGAttributes::StrokeLinejoin(..) => String::from_str("stroke-linejoin"),
            SVGAttributes::StrokeMiterlimit(..) => String::from_str("stroke-miterlimit"),
            SVGAttributes::StrokeOpacity(..) => String::from_str("stroke-opacity"),
            SVGAttributes::StrokeWidth(..) => String::from_str("stroke-width"),
            SVGAttributes::SurfaceScale(..) => String::from_str("surfaceScale"),
            SVGAttributes::SystemLanguage(..) => String::from_str("systemLanguage"),
            SVGAttributes::TableValues(..) => String::from_str("tableValues"),
            SVGAttributes::TargetX(..) => String::from_str("targetX"),
            SVGAttributes::TargetY(..) => String::from_str("targetY"),
            SVGAttributes::TextAnchor(..) => String::from_str("text-anchor"),
            SVGAttributes::TextDecoration(..) => String::from_str("text-decoration"),
            SVGAttributes::TextLength(..) => String::from_str("textLength"),
            SVGAttributes::TextRendering(..) => String::from_str("text-rendering"),
            SVGAttributes::To(..) => String::from_str("to"),
            SVGAttributes::Transform(..) => String::from_str("transform"),
            SVGAttributes::U1(..) => String::from_str("u1"),
            SVGAttributes::U2(..) => String::from_str("u2"),
            SVGAttributes::UnderlinePosition(..) => String::from_str("underline-position"),
            SVGAttributes::UnderlineThickness(..) => String::from_str("underline-thickness"),
            SVGAttributes::Unicode(..) => String::from_str("unicode"),
            SVGAttributes::UnicodeBidi(..) => String::from_str("unicode-bidi"),
            SVGAttributes::UnicodeRange(..) => String::from_str("unicode-range"),
            SVGAttributes::UnitsPerEm(..) => String::from_str("units-per-em"),
            SVGAttributes::VAlphabetic(..) => String::from_str("v-alphabetic"),
            SVGAttributes::Values(..) => String::from_str("values"),
            SVGAttributes::VectorEffect(..) => String::from_str("vector-effect"),
            SVGAttributes::Version(..) => String::from_str("version"),
            SVGAttributes::VertAdvY(..) => String::from_str("vert-adv-y"),
            SVGAttributes::VertOriginX(..) => String::from_str("vert-origin-x"),
            SVGAttributes::VertOriginY(..) => String::from_str("vert-origin-y"),
            SVGAttributes::VHanging(..) => String::from_str("v-hanging"),
            SVGAttributes::VIdeographic(..) => String::from_str("v-ideographic"),
            SVGAttributes::ViewBox(..) => String::from_str("viewBox"),
            SVGAttributes::ViewTarget(..) => String::from_str("viewTarget"),
            SVGAttributes::Visibility(..) => String::from_str("visibility"),
            SVGAttributes::VMathematical(..) => String::from_str("v-mathematical"),
            SVGAttributes::Widths(..) => String::from_str("widths"),
            SVGAttributes::WordSpacing(..) => String::from_str("word-spacing"),
            SVGAttributes::WritingMode(..) => String::from_str("writing-mode"),
            SVGAttributes::X1(..) => String::from_str("x1"),
            SVGAttributes::X2(..) => String::from_str("x2"),
            SVGAttributes::X(..) => String::from_str("x"),
            SVGAttributes::XChannelSelector(..) => String::from_str("xChannelSelector"),
            SVGAttributes::XHeight(..) => String::from_str("x-height"),
            SVGAttributes::XlinkActuate(..) => String::from_str("xlink:actuate"),
            SVGAttributes::XlinkArcrole(..) => String::from_str("xlink:arcrole"),
            SVGAttributes::XlinkHref(..) => String::from_str("xlink:href"),
            SVGAttributes::XlinkRole(..) => String::from_str("xlink:role"),
            SVGAttributes::XlinkShow(..) => String::from_str("xlink:show"),
            SVGAttributes::XlinkTitle(..) => String::from_str("xlink:title"),
            SVGAttributes::XlinkType(..) => String::from_str("xlink:type"),
            SVGAttributes::XmlBase(..) => String::from_str("xml:base"),
            SVGAttributes::XmlLang(..) => String::from_str("xml:lang"),
            SVGAttributes::Xmlns(..) => String::from_str("xmlns"),
            SVGAttributes::XmlnsXlink(..) => String::from_str("xmlns:xlink"),
            SVGAttributes::XmlSpace(..) => String::from_str("xml:space"),
            SVGAttributes::Y1(..) => String::from_str("y1"),
            SVGAttributes::Y2(..) => String::from_str("y2"),
            SVGAttributes::Y(..) => String::from_str("y"),
            SVGAttributes::YChannelSelector(..) => String::from_str("yChannelSelector"),
            SVGAttributes::Z(..) => String::from_str("z"),
            SVGAttributes::ZoomAndPan(..) => String::from_str("zoomAndPan"),
        }
    }

    fn get_val(&self) -> (r: Option<String>) {
        match self {
            SVGAttributes::Color(v) => Some(v.to_text()),
            SVGAttributes::Height(v) => Some(v.to_text()),
            SVGAttributes::Id(v) => Some(v.to_text()),
            SVGAttributes::Lang(v) => Some(v.to_text()),
            SVGAttributes::Max(v) => Some(v.to_text()),
            SVGAttributes::Media(v) => Some(v.to_text()),
            SVGAttributes::Method(v) => Some(v.to_text()),
            SVGAttributes::Min(v) => Some(v.to_text()),
            SVGAttributes::Name(v) => Some(v.to_text()),
            SVGAttributes::Target(v) => Some(v.to_text()),
            SVGAttributes::Type(v) => Some(v.to_text()),
            SVGAttributes::Width(v) => Some(v.to_text()),
            SVGAttributes::Role(v) => Some(v.to_text()),
            SVGAttributes::TabIndex(v) => Some(v.to_text()),
            SVGAttributes::CrossOrigin(v) => Some(v.to_text()),
            SVGAttributes::AccentHeight(v) => Some(v.to_text()),
            SVGAttributes::Accumulate(v) => Some(v.to_text()),
            SVGAttributes::Additive(v) => Some(v.to_text()),
            SVGAttributes::AlignmentBaseline(v) => Some(v.to_text()),
            SVGAttributes::AllowReorder(v) => Some(v.to_text()),
            SVGAttributes::Alphabetic(v) => Some(v.to_text()),
            SVGAttributes::Amplitude(v) => Some(v.to_text()),
            SVGAttributes::ArabicForm(v) => Some(v.to_text()),
            SVGAttributes::Ascent(v) => Some(v.to_text()),
            SVGAttributes::AttributeName(v) => Some(v.to_text()),
            SVGAttributes::AttributeType(v) => Some(v.to_text()),
            SVGAttributes::AutoReverse(v) => Some(v.to_text()),
            SVGAttributes::Azimuth(v) => Some(v.to_text()),
            SVGAttributes::BaseFrequency(v) => Some(v.to_text()),
            SVGAttributes::BaselineShift(v) => Some(v.to_text()),
            SVGAttributes::BaseProfile(v) => Some(v.to_text()),
            SVGAttributes::Bbox(v) => Some(v.to_text()),
            SVGAttributes::Begin(v) => Some(v.to_text()),
            SVGAttributes::Bias(v) => Some(v.to_text()),
            SVGAttributes::By(v) => Some(v.to_text()),
            SVGAttributes::CalcMode(v) => Some(v.to_text()),
            SVGAttributes::CapHeight(v) => Some(v.to_text()),
            SVGAttributes::Clip(v) => Some(v.to_text()),
            SVGAttributes::ClipPath(v) => Some(v.to_text()),
            SVGAttributes::ClipPathUnits(v) => Some(v.to_text()),
            SVGAttributes::ClipRule(v) => Some(v.to_text()),
            SVGAttributes::ColorInterpolation(v) => Some(v.to_text()),
            SVGAttributes::ColorInterpolationFilters(v) => Some(v.to_text()),
            SVGAttributes::ColorProfile(v) => Some(v.to_text()),
            SVGAttributes::ColorRendering(v) => Some(v.to_text()),
            SVGAttributes::ContentScriptType(v) => Some(v.to_text()),
            SVGAttributes::ContentStyleType(v) => Some(v.to_text()),
            SVGAttributes::Cursor(v) => Some(v.to_text()),
            SVGAttributes::Cx(v) => Some(v.to_text()),
            SVGAttributes::Cy(v) => Some(v.to_text()),
            SVGAttributes::D(v) => Some(v.to_text()),
            SVGAttributes::Decelerate(v) => Some(v.to_text()),
            SVGAttributes::Descent(v) => Some(v.to_text()),
            SVGAttributes::DiffuseConstant(v) => Some(v.to_text()),
            SVGAttributes::Direction(v) => Some(v.to_text()),
            SVGAttributes::Display(v) => Some(v.to_text()),
            SVGAttributes::Divisor(v) => Some(v.to_text()),
            SVGAttributes::DominantBaseline(v) => Some(v.to_text()),
            SVGAttributes::Dur(v) => Some(v.to_text()),
            SVGAttributes::Dx(v) => Some(v.to_text()),
            SVGAttributes::Dy(v) => Some(v.to_text()),
            SVGAttributes::EdgeMode(v) => Some(v.to_text()),
            SVGAttributes::Elevation(v) => Some(v.to_text()),
            SVGAttributes::EnableBackground(v) => Some(v.to_text()),
            SVGAttributes::End(v) => Some(v.to_text()),
            SVGAttributes::Exponent(v) => Some(v.to_text()),
            SVGAttributes::ExternalResourcesRequired(v) => Some(v.to_text()),
            SVGAttributes::Fill(v) => Some(v.to_text()),
            SVGAttributes::FillOpacity(v) => Some(v.to_text()),
            SVGAttributes::FillRule(v) => Some(v.to_text()),
            SVGAttributes::Filter(v) => Some(v.to_text()),
            SVGAttributes::FilterRes(v) => Some(v.to_text()),
            SVGAttributes::FilterUnits(v) => Some(v.to_text()),
            SVGAttributes::FloodColor(v) => Some(v.to_text()),
            SVGAttributes::FloodOpacity(v) => Some(v.to_text()),
            SVGAttributes::Focusable(v) => Some(v.to_text()),
            SVGAttributes::FontFamily(v) => Some(v.to_text()),
            SVGAttributes::FontSize(v) => Some(v.to_text()),
            SVGAttributes::FontSizeAdjust(v) => Some(v.to_text()),
            SVGAttributes::FontStretch(v) => Some(v.to_text()),
            SVGAttributes::FontStyle(v) => Some(v.to_text()),
            SVGAttributes::FontVariant(v) => Some(v.to_text()),
            SVGAttributes::FontWeight(v) => Some(v.to_text()),
            SVGAttributes::Format(v) => Some(v.to_text()),
            SVGAttributes::Fr(v) => Some(v.to_text()),
            SVGAttributes::From(v) => Some(v.to_text()),
            SVGAttributes::Fx(v) => Some(v.to_text()),
            SVGAttributes::Fy(v) => Some(v.to_text()),
            SVGAttributes::G1(v) => Some(v.to_text()),
            SVGAttributes::G2(v) => Some(v.to_text()),
            SVGAttributes::GlyphName(v) => Some(v.to_text()),
            SVGAttributes::GlyphOrientationHorizontal(v) => Some(v.to_text()),
            SVGAttributes::GlyphOrientationVertical(v) => Some(v.to_text()),
            SVGAttributes::GlyphRef(v) => Some(v.to_text()),
            SVGAttributes::GradientTransform(v) => Some(v.to_text()),
            SVGAttributes::GradientUnits(v) => Some(v.to_text()),
            SVGAttributes::Hanging(v) => Some(v.to_text()),
            SVGAttributes::HorizAdvX(v) => Some(v.to_text()),
            SVGAttributes::HorizOriginX(v) => Some(v.to_text()),
            SVGAttributes::Href(v) => Some(v.to_text()),
            SVGAttributes::Ideographic(v) => Some(v.to_text()),
            SVGAttributes::ImageRendering(v) => Some(v.to_text()),
            SVGAttributes::In2(v) => Some(v.to_text()),
            SVGAttributes::In(v) => Some(v.to_text()),
            SVGAttributes::Intercept(v) => Some(v.to_text()),
            SVGAttributes::K1(v) => Some(v.to_text()),
            SVGAttributes::K2(v) => Some(v.to_text()),
            SVGAttributes::K3(v) => Some(v.to_text()),
            SVGAttributes::K4(v) => Some(v.to_text()),
            SVGAttributes::K(v) => Some(v.to_text()),
            SVGAttributes::KernelMatrix(v) => Some(v.to_text()),
            SVGAttributes::KernelUnitLength(v) => Some(v.to_text()),
            SVGAttributes::Kerning(v) => Some(v.to_text()),
            SVGAttributes::KeyPoints(v) => Some(v.to_text()),
            SVGAttributes::KeySplines(v) => Some(v.to_text()),
            SVGAttributes::KeyTimes(v) => Some(v.to_text()),
            SVGAttributes::LengthAdjust(v) => Some(v.to_text()),
            SVGAttributes::LetterSpacing(v) => Some(v.to_text()),
            SVGAttributes::LightingColor(v) => Some(v.to_text()),
            SVGAttributes::LimitingConeAngle(v) => Some(v.to_text()),
            SVGAttributes::Local(v) => Some(v.to_text()),
            SVGAttributes::MarkerEnd(v) => Some(v.to_text()),
            SVGAttributes::MarkerHeight(v) => Some(v.to_text()),
            SVGAttributes::MarkerMid(v) => Some(v.to_text()),
            SVGAttributes::MarkerStart(v) => Some(v.to_text()),
            SVGAttributes::MarkerUnits(v) => Some(v.to_text()),
            SVGAttributes::MarkerWidth(v) => Some(v.to_text()),
            SVGAttributes::Mask(v) => Some(v.to_text()),
            SVGAttributes::MaskContentUnits(v) => Some(v.to_text()),
            SVGAttributes::MaskUnits(v) => Some(v.to_text()),
            SVGAttributes::Mathematical(v) => Some(v.to_text()),
            SVGAttributes::Mode(v) => Some(v.to_text()),
            SVGAttributes::NumOctaves(v) => Some(v.to_text()),
            SVGAttributes::Offset(v) => Some(v.to_text()),
            SVGAttributes::Opacity(v) => Some(v.to_text()),
            SVGAttributes::Operator(v) => Some(v.to_text()),
            SVGAttributes::Order(v) => Some(v.to_text()),
            SVGAttributes::Orient(v) => Some(v.to_text()),
            SVGAttributes::Orientation(v) => Some(v.to_text()),
            SVGAttributes::Origin(v) => Some(v.to_text()),
            SVGAttributes::Overflow(v) => Some(v.to_text()),
            SVGAttributes::OverlinePosition(v) => Some(v.to_text()),
            SVGAttributes::OverlineThickness(v) => Some(v.to_text()),
            SVGAttributes::PaintOrder(v) => Some(v.to_text()),
            SVGAttributes::Panose1(v) => Some(v.to_text()),
            SVGAttributes::Path(v) => Some(v.to_text()),
            SVGAttributes::PathLength(v) => Some(v.to_text()),
            SVGAttributes::PatternContentUnits(v) => Some(v.to_text()),
            SVGAttributes::PatternTransform(v) => Some(v.to_text()),
            SVGAttributes::PatternUnits(v) => Some(v.to_text()),
            SVGAttributes::PointerEvents(v) => Some(v.to_text()),
            SVGAttributes::Points(v) => Some(v.to_text()),
            SVGAttributes::PointsAtX(v) => Some(v.to_text()),
            SVGAttributes::PointsAtY(v) => Some(v.to_text()),
            SVGAttributes::PointsAtZ(v) => Some(v.to_text()),
            SVGAttributes::PreserveAlpha(v) => Some(v.to_text()),
            SVGAttributes::OreserveAspectRatio(v) => Some(v.to_text()),
            SVGAttributes::PrimitiveUnits(v) => Some(v.to_text()),
            SVGAttributes::R(v) => Some(v.to_text()),
            SVGAttributes::Radius(v) => Some(v.to_text()),
            SVGAttributes::RefX(v) => Some(v.to_text()),
            SVGAttributes::RefY(v) => Some(v.to_text()),
            SVGAttributes::RenderingIntent(v) => Some(v.to_text()),
            SVGAttributes::RepeatCount(v) => Some(v.to_text()),
            SVGAttributes::RepeatDur(v) => Some(v.to_text()),
            SVGAttributes::RequiredExtensions(v) => Some(v.to_text()),
            SVGAttributes::RequiredFeatures(v) => Some(v.to_text()),
            SVGAttributes::Restart(v) => Some(v.to_text()),
            SVGAttributes::Result(v) => Some(v.to_text()),
            SVGAttributes::Rotate(v) => Some(v.to_text()),
            SVGAttributes::Rx(v) => Some(v.to_text()),
            SVGAttributes::Ry(v) => Some(v.to_text()),
            SVGAttributes::Scale(v) => Some(v.to_text()),
            SVGAttributes::Seed(v) => Some(v.to_text()),
            SVGAttributes::ShapeRendering(v) => Some(v.to_text()),
            SVGAttributes::Slope(v) => Some(v.to_text()),
            SVGAttributes::Spacing(v) => Some(v.to_text()),
            SVGAttributes::SpecularConstant(v) => Some(v.to_text()),
            SVGAttributes::SpecularExponent(v) => Some(v.to_text()),
            SVGAttributes::Speed(v) => Some(v.to_text()),
            SVGAttributes::SpreadMethod(v) => Some(v.to_text()),
            SVGAttributes::StartOffset(v) => Some(v.to_text()),
            SVGAttributes::StdDeviation(v) => Some(v.to_text()),
            SVGAttributes::Stemh(v) => Some(v.to_text()),
            SVGAttributes::Stemv(v) => Some(v.to_text()),
            SVGAttributes::StitchTiles(v) => Some(v.to_text()),
            SVGAttributes::StopColor(v) => Some(v.to_text()),
            SVGAttributes::StopOpacity(v) => Some(v.to_text()),
            SVGAttributes::StrikethroughPosition(v) => Some(v.to_text()),
            SVGAttributes::StrikethroughThickness(v) => Some(v.to_text()),
            SVGAttributes::String(v) => Some(v.to_text()),
            SVGAttributes::Stroke(v) => Some(v.to_text()),
            SVGAttributes::StrokeDasharray(v) => Some(v.to_text()),
            SVGAttributes::StrokeDashoffset(v) => Some(v.to_text()),
            SVGAttributes::StrokeLinecap(v) => Some(v.to_text()),
            SVGAttributes::StrokeLinejoin(v) => Some(v.to_text()),
            SVGAttributes::StrokeMiterlimit(v) => Some(v.to_text()),
            SVGAttributes::StrokeOpacity(v) => Some(v.to_text()),
            SVGAttributes::StrokeWidth(v) => Some(v.to_text()),
            SVGAttributes::SurfaceScale(v) => Some(v.to_text()),
            SVGAttributes::SystemLanguage(v) => Some(v.to_text()),
            SVGAttributes::TableValues(v) => Some(v.to_text()),
            SVGAttributes::TargetX(v) => Some(v.to_text()),
            SVGAttributes::TargetY(v) => Some(v.to_text()),
            SVGAttributes::TextAnchor(v) => Some(v.to_text()),
            SVGAttributes::TextDecoration(v) => Some(v.to_text()),
            SVGAttributes::TextLength(v) => Some(v.to_text()),
            SVGAttributes::TextRendering(v) => Some(v.to_text()),
            SVGAttributes::To(v) => Some(v.to_text()),
            SVGAttributes::Transform(v) => Some(v.to_text()),
            SVGAttributes::U1(v) => Some(v.to_text()),
            SVGAttributes::U2(v) => Some(v.to_text()),
            SVGAttributes::UnderlinePosition(v) => Some(v.to_text()),
            SVGAttributes::UnderlineThickness(v) => Some(v.to_text()),
            SVGAttributes::Unicode(v) => Some(v.to_text()),
            SVGAttributes::UnicodeBidi(v) => Some(v.to_text()),
            SVGAttributes::UnicodeRange(v) => Some(v.to_text()),
            SVGAttributes::UnitsPerEm(v) => Some(v.to_text()),
            SVGAttributes::VAlphabetic(v) => Some(v.to_text()),
            SVGAttributes::Values(v) => Some(v.to_text()),
            SVGAttributes::VectorEffect(v) => Some(v.to_text()),
            SVGAttributes::Version(v) => Some(v.to_text()),
            SVGAttributes::VertAdvY(v) => Some(v.to_text()),
            SVGAttributes::VertOriginX(v) => Some(v.to_text()),
            SVGAttributes::VertOriginY(v) => Some(v.to_text()),
            SVGAttributes::VHanging(v) => Some(v.to_text()),
            SVGAttributes::VIdeographic(v) => Some(v.to_text()),
            SVGAttributes::ViewBox(v) => Some(v.to_text()),
            SVGAttributes::ViewTarget(v) => Some(v.to_text()),
            SVGAttributes::Visibility(v) => Some(v.to_text()),
            SVGAttributes::VMathematical(v) => Some(v.to_text()),
            SVGAttributes::Widths(v) => Some(v.to_text()),
            SVGAttributes::WordSpacing(v) => Some(v.to_text()),
            SVGAttributes::WritingMode(v) => Some(v.to_text()),
            SVGAttributes::X1(v) => Some(v.to_text()),
            SVGAttributes::X2(v) => Some(v.to_text()),
            SVGAttributes::X(v) => Some(v.to_text()),
            SVGAttributes::XChannelSelector(v) => Some(v.to_text()),
            SVGAttributes::XHeight(v) => Some(v.to_text()),
            SVGAttributes::XlinkActuate(v) => Some(v.to_text()),
            SVGAttributes::XlinkArcrole(v) => Some(v.to_text()),
            SVGAttributes::XlinkHref(v) => Some(v.to_text()),
            SVGAttributes::XlinkRole(v) => Some(v.to_text()),
            SVGAttributes::XlinkShow(v) => Some(v.to_text()),
            SVGAttributes::XlinkTitle(v) => Some(v.to_text()),
            SVGAttributes::XlinkType(v) => Some(v.to_text()),
            SVGAttributes::XmlBase(v) => Some(v.to_text()),
            SVGAttributes::XmlLang(v) => Some(v.to_text()),
            SVGAttributes::Xmlns(v) => Some(v.to_text()),
            SVGAttributes::XmlnsXlink(v) => Some(v.to_text()),
            SVGAttributes::XmlSpace(v) => Some(v.to_text()),
            SVGAttributes::Y1(v) => Some(v.to_text()),
            SVGAttributes::Y2(v) => Some(v.to_text()),
            SVGAttributes::Y(v) => Some(v.to_text()),
            SVGAttributes::YChannelSelector(v) => Some(v.to_text()),
            SVGAttributes::Z(v) => Some(v.to_text()),
            SVGAttributes::ZoomAndPan(v) => Some(v.to_text()),
        }
    }
}

/// A number or a free-form string.
#[derive(Debug, Clone, PartialEq, Eq, Hash)]
pub enum NumberOrString {
    Number(i64),
    String(String),
}

impl AttributeValue for NumberOrString {
    open spec fn spec_text(&self) -> Seq<char> {
        match self {
            NumberOrString::Number(v) => v.spec_text(),
            NumberOrString::String(v) => v.spec_text(),
        }
    }

    fn to_text(&self) -> (r: String) {
        match self {
            NumberOrString::Number(v) => v.to_text(),
            NumberOrString::String(v) => v.to_text(),
        }
    }
}

/// Values of an SVG attribute of the same name.
#[derive(Debug, Clone, Copy, PartialEq, Eq, Hash, Structural)]
pub enum CrossOrigin {
    Anonymous,
    UseCredentials,
    Blank,
}

impl AttributeValue for CrossOrigin {
    open spec fn spec_text(&self) -> Seq<char> {
        match self {
            CrossOrigin::Anonymous => "anonymous"@,
            CrossOrigin::UseCredentials => "use-credentials"@,
            CrossOrigin::Blank => "\"\""@,
        }
    }

    fn to_text(&self) -> (r: String) {
        match self {
            CrossOrigin::Anonymous => String::from_str("anonymous"),
            CrossOrigin::UseCredentials => String::from_str("use-credentials"),
            CrossOrigin::Blank => String::from_str("\"\""),
        }
    }
}

/// Values of an SVG attribute of the same name.
#[derive(Debug, Clone, Copy, PartialEq, Eq, Hash, Structural)]
pub enum Accumulate {
    NoneKeyword,
    Sum,
}

impl AttributeValue for Accumulate {
    open spec fn spec_text(&self) -> Seq<char> {
        match self {
            Accumulate::NoneKeyword => "none"@,
            Accumulate::Sum => "sum"@,
        }
    }

    fn to_text(&self) -> (r: String) {
        match self {
            Accumulate::NoneKeyword => String::from_str("none"),
            Accumulate::Sum => String::from_str("sum"),
        }
    }
}

/// Values of an SVG attribute of the same name.
#[derive(Debug, Clone, Copy, PartialEq, Eq, Hash, Structural)]
pub enum Additive {
    Replace,
    Sum,
}

impl AttributeValue for Additive {
    open spec fn spec_text(&self) -> Seq<char> {
        match self {
            Additive::Replace => "replace"@,
            Additive::Sum => "sum"@,
        }
    }

    fn to_text(&self) -> (r: String) {
        match self {
            Additive::Replace => String::from_str("replace"),
            Additive::Sum => String::from_str("sum"),
        }
    }
}

/// Values of an SVG attribute of the same name.
#[derive(Debug, Clone, Copy, PartialEq, Eq, Hash, Structural)]
pub enum AlignmentBaseline {
    Auto,
    Baseline,
    BeforeEdge,
    TextBeforeEdge,
    Middle,
    Central,
    AfterEdge,
    TextAfterEdge,
    Ideographic,
    Alphabetic,
    Hanging,
    Mathematical,
    Inherit,
}

impl AttributeValue for AlignmentBaseline {
    open spec fn spec_text(&self) -> Seq<char> {
        match self {
            AlignmentBaseline::Auto => "auto"@,
            AlignmentBaseline::Baseline => "baseline"@,
            AlignmentBaseline::BeforeEdge => "before-edge"@,
            AlignmentBaseline::TextBeforeEdge => "text-before-edge"@,
            AlignmentBaseline::Middle => "middle"@,
            AlignmentBaseline::Central => "central"@,
            AlignmentBaseline::AfterEdge => "after-edge"@,
            AlignmentBaseline::TextAfterEdge => "text-after-edge"@,
            AlignmentBaseline::Ideographic => "ideographic"@,
            AlignmentBaseline::Alphabetic => "alphabetic"@,
            AlignmentBaseline::Hanging => "hanging"@,
            AlignmentBaseline::Mathematical => "mathematical"@,
            AlignmentBaseline::Inherit => "inherit"@,
        }
    }

    fn to_text(&self) -> (r: String) {
        match self {
            AlignmentBaseline::Auto => String::from_str("auto"),
            AlignmentBaseline::Baseline => String::from_str("baseline"),
            AlignmentBaseline::BeforeEdge => String::from_str("before-edge"),
            AlignmentBaseline::TextBeforeEdge => String::from_str("text-before-edge"),
            AlignmentBaseline::Middle => String::from_str("middle"),
            AlignmentBaseline::Central => String::from_str("central"),
            AlignmentBaseline::AfterEdge => String::from_str("after-edge"),
            AlignmentBaseline::TextAfterEdge => String::from_str("text-after-edge"),
            AlignmentBaseline::Ideographic => String::from_str("ideographic"),
            AlignmentBaseline::Alphabetic => String::from_str("alphabetic"),
            AlignmentBaseline::Hanging => String::from_str("hanging"),
            AlignmentBaseline::Mathematical => String::from_str("mathematical"),
            AlignmentBaseline::Inherit => String::from_str("inherit"),
        }
    }
}

/// Values of an SVG attribute of the same name.
#[derive(Debug, Clone, Copy, PartialEq, Eq, Hash, Structural)]
pub enum AllowReorder {
    No,
    Yes,
}

impl AttributeValue for AllowReorder {
    open spec fn spec_text(&self) -> Seq<char> {
        match self {
            AllowReorder::No => "no"@,
            AllowReorder::Yes => "yes"@,
        }
    }

    fn to_text(&self) -> (r: String) {
        match self {
            AllowReorder::No => String::from_str("no"),
            AllowReorder::Yes => String::from_str("yes"),
        }
    }
}

/// Values of an SVG attribute of the same name.
#[derive(Debug, Clone, Copy, PartialEq, Eq, Hash, Structural)]
pub enum ArabicForm {
    Initial,
    Medial,
    Terminal,
    Isolated,
}

impl AttributeValue for ArabicForm {
    open spec fn spec_text(&self) -> Seq<char> {
        match self {
            ArabicForm::Initial => "initial"@,
            ArabicForm::Medial => "medial"@,
            ArabicForm::Terminal => "terminal"@,
            ArabicForm::Isolated => "isolated"@,
        }
    }

    fn to_text(&self) -> (r: String) {
        match self {
            ArabicForm::Initial => String::from_str("initial"),
            ArabicForm::Medial => String::from_str("medial"),
            ArabicForm::Terminal => String::from_str("terminal"),
            ArabicForm::Isolated => String::from_str("isolated"),
        }
    }
}

/// Values of an SVG attribute of the same name.
#[derive(Debug, Clone, Copy, PartialEq, Eq, Hash, Structural)]
pub enum ClipRule {
    Nonzero,
    Evenodd,
    Inherit,
}

impl AttributeValue for ClipRule {
    open spec fn spec_text(&self) -> Seq<char> {
        match self {
            ClipRule::Nonzero => "nonzero"@,
            ClipRule::Evenodd => "evenodd"@,
            ClipRule::Inherit => "inherit"@,
        }
    }

    fn to_text(&self) -> (r: String) {
        match self {
            ClipRule::Nonzero => String::from_str("nonzero"),
            ClipRule::Evenodd => String::from_str("evenodd"),
            ClipRule::Inherit => String::from_str("inherit"),
        }
    }
}

/// Values of an SVG attribute of the same name.
#[derive(Debug, Clone, Copy, PartialEq, Eq, Hash, Structural)]
pub enum ClipPathUnits {
    UserSpaceOnUse,
    ObjectBoundingBox,
}

impl AttributeValue for ClipPathUnits {
    open spec fn spec_text(&self) -> Seq<char> {
        match self {
            ClipPathUnits::UserSpaceOnUse => "userSpaceOnUse"@,
            ClipPathUnits::ObjectBoundingBox => "objectBoundingBox"@,
        }
    }

    fn to_text(&self) -> (r: String) {
        match self {
            ClipPathUnits::UserSpaceOnUse => String::from_str("userSpaceOnUse"),
            ClipPathUnits::ObjectBoundingBox => String::from_str("objectBoundingBox"),
        }
    }
}

/// Values of an SVG attribute of the same name.
#[derive(Debug, Clone, Copy, PartialEq, Eq, Hash, Structural)]
pub enum ColorInterpolationFilters {
    Auto,
    SRGB,
    LinearRGB,
    Inherit,
}

impl AttributeValue for ColorInterpolationFilters {
    open spec fn spec_text(&self) -> Seq<char> {
        match self {
            ColorInterpolationFilters::Auto => "auto"@,
            ColorInterpolationFilters::SRGB => "sRGB"@,
            ColorInterpolationFilters::LinearRGB => "linearRGB"@,
            ColorInterpolationFilters::Inherit => "inherit"@,
        }
    }

    fn to_text(&self) -> (r: String) {
        match self {
            ColorInterpolationFilters::Auto => String::from_str("auto"),
            ColorInterpolationFilters::SRGB => String::from_str("sRGB"),
            ColorInterpolationFilters::LinearRGB => String::from_str("linearRGB"),
            ColorInterpolationFilters::Inherit => String::from_str("inherit"),
        }
    }
}

/// Values of an SVG attribute of the same name.
#[derive(Debug, Clone, Copy, PartialEq, Eq, Hash, Structural)]
pub enum FillRule {
    Nonzero,
    Evenodd,
    Inherit,
}

impl AttributeValue for FillRule {
    open spec fn spec_text(&self) -> Seq<char> {
        match self {
            FillRule::Nonzero => "nonzero"@,
            FillRule::Evenodd => "evenodd"@,
            FillRule::Inherit => "inherit"@,
        }
    }

    fn to_text(&self) -> (r: String) {
        match self {
            FillRule::Nonzero => String::from_str("nonzero"),
            FillRule::Evenodd => String::from_str("evenodd"),
            FillRule::Inherit => String::from_str("inherit"),
        }
    }
}

/// Values of an SVG attribute of the same name.
#[derive(Debug, Clone, Copy, PartialEq, Eq, Hash, Structural)]
pub enum Focusable {
    True,
    False,
    Auto,
}

impl AttributeValue for Focusable {
    open spec fn spec_text(&self) -> Seq<char> {
        match self {
            Focusable::True => "true"@,
            Focusable::False => "false"@,
            Focusable::Auto => "auto"@,
        }
    }

    fn to_text(&self) -> (r: String) {
        match self {
            Focusable::True => String::from_str("true"),
            Focusable::False => String::from_str("false"),
            Focusable::Auto => String::from_str("auto"),
        }
    }
}

/// Values of an SVG attribute of the same name.
#[derive(Debug, Clone, Copy, PartialEq, Eq, Hash, Structural)]
pub enum StrokeLinecap {
    Butt,
    Round,
    Square,
    Inherit,
}

impl AttributeValue for StrokeLinecap {
    open spec fn spec_text(&self) -> Seq<char> {
        match self {
            StrokeLinecap::Butt => "butt"@,
            StrokeLinecap::Round => "round"@,
            StrokeLinecap::Square => "square"@,
            StrokeLinecap::Inherit => "inherit"@,
        }
    }

    fn to_text(&self) -> (r: String) {
        match self {
            StrokeLinecap::Butt => String::from_str("butt"),
            StrokeLinecap::Round => String::from_str("round"),
            StrokeLinecap::Square => String::from_str("square"),
            StrokeLinecap::Inherit => String::from_str("inherit"),
        }
    }
}

/// Values of an SVG attribute of the same name.
#[derive(Debug, Clone, Copy, PartialEq, Eq, Hash, Structural)]
pub enum StrokeLinejoin {
    Miter,
    Round,
    Bevel,
    Inherit,
}

impl AttributeValue for StrokeLinejoin {
    open spec fn spec_text(&self) -> Seq<char> {
        match self {
            StrokeLinejoin::Miter => "miter"@,
            StrokeLinejoin::Round => "round"@,
            StrokeLinejoin::Bevel => "bevel"@,
            StrokeLinejoin::Inherit => "inherit"@,
        }
    }

    fn to_text(&self) -> (r: String) {
        match self {
            StrokeLinejoin::Miter => String::from_str("miter"),
            StrokeLinejoin::Round => String::from_str("round"),
            StrokeLinejoin::Bevel => String::from_str("bevel"),
            StrokeLinejoin::Inherit => String::from_str("inherit"),
        }
    }
}

/// A props type that takes SVG attributes.
pub trait SvgAttributeReceiver {
    /// The holder's own well-formedness.
    spec fn svg_receiver_wf(&self) -> bool;

    /// The SVG attributes considered present, pending operations included.
    spec fn svg_attributes(&self) -> Map<Seq<char>, Option<String>>;

    /// Records `attribute`; returns whether its key was absent before.
    fn add_svg_attribute(&mut self, attribute: SVGAttributes) -> (r: bool)
        requires
            old(self).svg_receiver_wf(),
        ensures
            final(self).svg_receiver_wf(),
            r == !old(self).svg_attributes().contains_key(attribute.spec_key()),
            final(self).svg_attributes().contains_key(attribute.spec_key()),
            opt_view(final(self).svg_attributes()[attribute.spec_key()]) == attribute.spec_value(),
            final(self).svg_attributes().remove(attribute.spec_key()) == old(self).svg_attributes().remove(attribute.spec_key()),
    ;

    /// Records that the key of `attribute` should go; returns whether it was
    /// present.
    fn remove_svg_attribute(&mut self, attribute: SVGAttributes) -> (r: bool)
        requires
            old(self).svg_receiver_wf(),
        ensures
            final(self).svg_receiver_wf(),
            r == old(self).svg_attributes().contains_key(attribute.spec_key()),
            final(self).svg_attributes() == old(self).svg_attributes().remove(attribute.spec_key()),
    ;
}
} // verus!
