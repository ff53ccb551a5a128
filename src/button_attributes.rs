//! Attributes of the `<button>` element.

use vstd::prelude::*;
use crate::attribute::Attribute;
use crate::value::AttributeValue;

verus! {

/// Attributes of the `<button>` element.
#[derive(Debug, Clone)]
pub enum ButtonHtmlAttributes {
    AutoFocus,
    Disabled,
    Form(String),
    FormAction(String),
    FormEncType(String),
    FormMethod(String),
    FormNoValidate,
    FormTarget(String),
    Name(String),
    Type(ButtonType),
    Value(ButtonValue),
}

impl Attribute for ButtonHtmlAttributes {
    open spec fn spec_key(&self) -> Seq<char> {
        match self {
            ButtonHtmlAttributes::AutoFocus => "autoFocus"@,
            ButtonHtmlAttributes::Disabled => "disabled"@,
            ButtonHtmlAttributes::Form(..) => "form"@,
            ButtonHtmlAttributes::FormAction(..) => "formAction"@,
            ButtonHtmlAttributes::FormEncType(..) => "formEncType"@,
            ButtonHtmlAttributes::FormMethod(..) => "formMethod"@,
            ButtonHtmlAttributes::FormNoValidate => "formNoValidate"@,
            ButtonHtmlAttributes::FormTarget(..) => "formTarget"@,
            ButtonHtmlAttributes::Name(..) => "name"@,
            ButtonHtmlAttributes::Type(..) => "type"@,
            ButtonHtmlAttributes::Value(..) => "value"@,
        }
    }

    open spec fn spec_value(&self) -> Option<Seq<char>> {
        match self {
            ButtonHtmlAttributes::AutoFocus => None,
            ButtonHtmlAttributes::Disabled => None,
            ButtonHtmlAttributes::Form(v) => Some(v.spec_text()),
            ButtonHtmlAttributes::FormAction(v) => Some(v.spec_text()),
            ButtonHtmlAttributes::FormEncType(v) => Some(v.spec_text()),
            ButtonHtmlAttributes::FormMethod(v) => Some(v.spec_text()),
            ButtonHtmlAttributes::FormNoValidate => None,
            ButtonHtmlAttributes::FormTarget(v) => Some(v.spec_text()),
            ButtonHtmlAttributes::Name(v) => Some(v.spec_text()),
            ButtonHtmlAttributes::Type(v) => Some(v.spec_text()),
            ButtonHtmlAttributes::Value(v) => Some(v.spec_text()),
        }
    }

    fn get_key(&self) -> (r: String) {
        match self {
            ButtonHtmlAttributes::AutoFocus => String::from_str("autoFocus"),
            ButtonHtmlAttributes::Disabled => String::from_str("disabled"),
            ButtonHtmlAttributes::Form(..) => String::from_str("form"),
            ButtonHtmlAttributes::FormAction(..) => String::from_str("formAction"),
            ButtonHtmlAttributes::FormEncType(..) => String::from_str("formEncType"),
            ButtonHtmlAttributes::FormMethod(..) => String::from_str("formMethod"),
            ButtonHtmlAttributes::FormNoValidate => String::from_str("formNoValidate"),
            ButtonHtmlAttributes::FormTarget(..) => String::from_str("formTarget"),
            ButtonHtmlAttributes::Name(..) => String::from_str("name"),
            ButtonHtmlAttributes::Type(..) => String::from_str("type"),
            ButtonHtmlAttributes::Value(..) => String::from_str("value"),
        }
    }

    fn get_val(&self) -> (r: Option<String>) {
        match self {
            ButtonHtmlAttributes::AutoFocus => None,
            ButtonHtmlAttributes::Disabled => None,
            ButtonHtmlAttributes::Form(v) => Some(v.to_text()),
            ButtonHtmlAttributes::FormAction(v) => Some(v.to_text()),
            ButtonHtmlAttributes::FormEncType(v) => Some(v.to_text()),
            ButtonHtmlAttributes::FormMethod(v) => Some(v.to_text()),
            ButtonHtmlAttributes::FormNoValidate => None,
            ButtonHtmlAttributes::FormTarget(v) => Some(v.to_text()),
            ButtonHtmlAttributes::Name(v) => Some(v.to_text()),
            ButtonHtmlAttributes::Type(v) => Some(v.to_text()),
            ButtonHtmlAttributes::Value(v) => Some(v.to_text()),
        }
    }
}

/// Values of the `type` attribute of a button.
#[derive(Debug, Clone, Copy, PartialEq, Eq, Hash, Structural)]
pub enum ButtonType {
    Submit,
    Reset,
    Button,
}

impl AttributeValue for ButtonType {
    open spec fn spec_text(&self) -> Seq<char> {
        match self {
            ButtonType::Submit => "submit"@,
            ButtonType::Reset => "reset"@,
            ButtonType::Button => "button"@,
        }
    }

    fn to_text(&self) -> (r: String) {
        match self {
            ButtonType::Submit => String::from_str("submit"),
            ButtonType::Reset => String::from_str("reset"),
            ButtonType::Button => String::from_str("button"),
        }
    }
}

/// The `value` of a button; it renders as the tag of its variant.
#[derive(Debug, Clone, PartialEq, Eq, Hash)]
pub enum ButtonValue {
    String(String),
    StringVec(Vec<String>),
    Number(i64),
}

impl AttributeValue for ButtonValue {
    open spec fn spec_text(&self) -> Seq<char> {
        match self {
            ButtonValue::String(..) => "string"@,
            ButtonValue::StringVec(..) => "string-vec"@,
            ButtonValue::Number(..) => "number"@,
        }
    }

    fn to_text(&self) -> (r: String) {
        match self {
            ButtonValue::String(..) => String::from_str("string"),
            ButtonValue::StringVec(..) => String::from_str("string-vec"),
            ButtonValue::Number(..) => String::from_str("number"),
        }
    }
}

} // verus!
