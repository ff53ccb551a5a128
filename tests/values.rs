use yew_dom_attributes::aria_attributes::{AriaAttributes, AriaHasPopup, AriaRelevant};
use yew_dom_attributes::attribute::Attribute;
use yew_dom_attributes::button_attributes::{ButtonHtmlAttributes, ButtonType, ButtonValue};
use yew_dom_attributes::html_attributes::{AriaRole, HtmlAttributes, InputMode};
use yew_dom_attributes::svg_attributes::{ColorInterpolationFilters, CrossOrigin, NumberOrString, SVGAttributes};
use yew_dom_attributes::value::{convert_to_string, AttributeValue};

#[test]
fn integers_render_in_decimal() {
    assert_eq!(0u64.to_text(), "0");
    assert_eq!(1907u64.to_text(), "1907");
    assert_eq!(u64::MAX.to_text(), "18446744073709551615");
    assert_eq!((-42i64).to_text(), "-42");
    assert_eq!(i64::MIN.to_text(), "-9223372036854775808");
    assert_eq!(i64::MAX.to_text(), "9223372036854775807");
}

#[test]
fn booleans_and_options_render() {
    assert_eq!(true.to_text(), "true");
    assert_eq!(false.to_text(), "false");
    assert_eq!(convert_to_string(&Some(12i64)), Some("12".to_string()));
    assert_eq!(convert_to_string::<i64>(&None), None);
    assert_eq!(convert_to_string(&Some("s".to_string())), Some("s".to_string()));
}

#[test]
fn aria_keys_and_values() {
    let a = AriaAttributes::AriaActivedescendant("item-3".to_string());
    assert_eq!(a.get_key(), "aria-activedescendant");
    assert_eq!(a.get_val(), Some("item-3".to_string()));
    let b = AriaAttributes::AriaColcount(-1);
    assert_eq!(b.get_key(), "aria-colcount");
    assert_eq!(b.get_val(), Some("-1".to_string()));
    let c = AriaAttributes::AriaHaspopup(AriaHasPopup::Listbox);
    assert_eq!(c.get_key(), "aria-haspopup");
    assert_eq!(c.get_val(), Some("listbox".to_string()));
    let d = AriaAttributes::AriaRelevant(AriaRelevant::AdditionsText);
    assert_eq!(d.get_val(), Some("additions text".to_string()));
    assert_eq!(AriaAttributes::AriaBusy(true).get_val(), Some("true".to_string()));
}

#[test]
fn html_keys_and_values() {
    let t = HtmlAttributes::TabIndex(3);
    assert_eq!(t.get_key(), "tabindex");
    assert_eq!(t.get_val(), Some("3".to_string()));
    assert_eq!(HtmlAttributes::ItemID("i".to_string()).get_key(), "itemid");
    assert_eq!(HtmlAttributes::Role(AriaRole::AlertDialog).get_val(), Some("alertdialog".to_string()));
    assert_eq!(HtmlAttributes::Role(AriaRole::Custom("widget".to_string())).get_val(), Some("widget".to_string()));
    assert_eq!(HtmlAttributes::InputMode(InputMode::NoneKeyword).get_val(), Some("none".to_string()));
}

#[test]
fn button_keys_and_values() {
    assert_eq!(ButtonHtmlAttributes::AutoFocus.get_key(), "autoFocus");
    assert_eq!(ButtonHtmlAttributes::AutoFocus.get_val(), None);
    assert_eq!(ButtonHtmlAttributes::FormNoValidate.get_key(), "formNoValidate");
    assert_eq!(ButtonHtmlAttributes::Type(ButtonType::Submit).get_val(), Some("submit".to_string()));
    assert_eq!(ButtonHtmlAttributes::Value(ButtonValue::Number(3)).get_val(), Some("number".to_string()));
    assert_eq!(ButtonHtmlAttributes::Value(ButtonValue::StringVec(vec![])).get_val(), Some("string-vec".to_string()));
}

#[test]
fn svg_keys_and_values() {
    let w = SVGAttributes::StrokeWidth(NumberOrString::Number(2));
    assert_eq!(w.get_key(), "stroke-width");
    assert_eq!(w.get_val(), Some("2".to_string()));
    assert_eq!(SVGAttributes::ViewBox("0 0 1 1".to_string()).get_key(), "viewBox");
    assert_eq!(SVGAttributes::XlinkHref("#a".to_string()).get_key(), "xlink:href");
    assert_eq!(SVGAttributes::YChannelSelector("R".to_string()).get_key(), "yChannelSelector");
    assert_eq!(
        SVGAttributes::ColorInterpolationFilters(ColorInterpolationFilters::SRGB).get_val(),
        Some("sRGB".to_string())
    );
    assert_eq!(SVGAttributes::CrossOrigin(CrossOrigin::UseCredentials).get_val(), Some("use-credentials".to_string()));
    assert_eq!(SVGAttributes::Role(AriaRole::Custom("x".to_string())).get_val(), Some("custom".to_string()));
    assert_eq!(NumberOrString::String("auto".to_string()).to_text(), "auto");
}
