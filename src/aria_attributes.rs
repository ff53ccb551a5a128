//! WAI-ARIA attributes.

use vstd::prelude::*;
use crate::attribute::{opt_view, Attribute};
use crate::value::AttributeValue;

verus! {

/// Values of `aria-autocomplete`.
#[derive(Debug, Clone, Copy, PartialEq, Eq, Hash, Structural)]
pub enum AriaAutocomplete {
    NoneKeyword,
    Inline,
    List,
    Both,
}

impl AttributeValue for AriaAutocomplete {
    open spec fn spec_text(&self) -> Seq<char> {
        match self {
            AriaAutocomplete::NoneKeyword => "none"@,
            AriaAutocomplete::Inline => "inline"@,
            AriaAutocomplete::List => "list"@,
            AriaAutocomplete::Both => "both"@,
        }
    }

    fn to_text(&self) -> (r: String) {
        match self {
            AriaAutocomplete::NoneKeyword => String::from_str("none"),
            AriaAutocomplete::Inline => String::from_str("inline"),
            AriaAutocomplete::List => String::from_str("list"),
            AriaAutocomplete::Both => String::from_str("both"),
        }
    }
}

/// Values of `aria-checked` and `aria-pressed`.
#[derive(Debug, Clone, Copy, PartialEq, Eq, Hash, Structural)]
pub enum AriaChecked {
    False,
    Mixed,
    True,
}

impl AttributeValue for AriaChecked {
    open spec fn spec_text(&self) -> Seq<char> {
        match self {
            AriaChecked::False => "false"@,
            AriaChecked::Mixed => "mixed"@,
            AriaChecked::True => "true"@,
        }
    }

    fn to_text(&self) -> (r: String) {
        match self {
            AriaChecked::False => String::from_str("false"),
            AriaChecked::Mixed => String::from_str("mixed"),
            AriaChecked::True => String::from_str("true"),
        }
    }
}

/// Values of `aria-current`.
#[derive(Debug, Clone, Copy, PartialEq, Eq, Hash, Structural)]
pub enum AriaCurrent {
    False,
    True,
    Page,
    Step,
    Location,
    Date,
    Time,
}

impl AttributeValue for AriaCurrent {
    open spec fn spec_text(&self) -> Seq<char> {
        match self {
            AriaCurrent::False => "false"@,
            AriaCurrent::True => "true"@,
            AriaCurrent::Page => "page"@,
            AriaCurrent::Step => "step"@,
            AriaCurrent::Location => "location"@,
            AriaCurrent::Date => "date"@,
            AriaCurrent::Time => "time"@,
        }
    }

    fn to_text(&self) -> (r: String) {
        match self {
            AriaCurrent::False => String::from_str("false"),
            AriaCurrent::True => String::from_str("true"),
            AriaCurrent::Page => String::from_str("page"),
            AriaCurrent::Step => String::from_str("step"),
            AriaCurrent::Location => String::from_str("location"),
            AriaCurrent::Date => String::from_str("date"),
            AriaCurrent::Time => String::from_str("time"),
        }
    }
}

/// Values of `aria-dropeffect`.
#[derive(Debug, Clone, Copy, PartialEq, Eq, Hash, Structural)]
pub enum AriaDropeffect {
    NoneKeyword,
    Copy,
    Execute,
    Link,
    Move,
    Popup,
}

impl AttributeValue for AriaDropeffect {
    open spec fn spec_text(&self) -> Seq<char> {
        match self {
            AriaDropeffect::NoneKeyword => "none"@,
            AriaDropeffect::Copy => "copy"@,
            AriaDropeffect::Execute => "execute"@,
            AriaDropeffect::Link => "link"@,
            AriaDropeffect::Move => "move"@,
            AriaDropeffect::Popup => "popup"@,
        }
    }

    fn to_text(&self) -> (r: String) {
        match self {
            AriaDropeffect::NoneKeyword => String::from_str("none"),
            AriaDropeffect::Copy => String::from_str("copy"),
            AriaDropeffect::Execute => String::from_str("execute"),
            AriaDropeffect::Link => String::from_str("link"),
            AriaDropeffect::Move => String::from_str("move"),
            AriaDropeffect::Popup => String::from_str("popup"),
        }
    }
}

/// Values of `aria-haspopup`.
#[derive(Debug, Clone, Copy, PartialEq, Eq, Hash, Structural)]
pub enum AriaHasPopup {
    False,
    True,
    Menu,
    Listbox,
    Tree,
    Grid,
    Dialog,
}

impl AttributeValue for AriaHasPopup {
    open spec fn spec_text(&self) -> Seq<char> {
        match self {
            AriaHasPopup::False => "false"@,
            AriaHasPopup::True => "true"@,
            AriaHasPopup::Menu => "menu"@,
            AriaHasPopup::Listbox => "listbox"@,
            AriaHasPopup::Tree => "tree"@,
            AriaHasPopup::Grid => "grid"@,
            AriaHasPopup::Dialog => "dialog"@,
        }
    }

    fn to_text(&self) -> (r: String) {
        match self {
            AriaHasPopup::False => String::from_str("false"),
            AriaHasPopup::True => String::from_str("true"),
            AriaHasPopup::Menu => String::from_str("menu"),
            AriaHasPopup::Listbox => String::from_str("listbox"),
            AriaHasPopup::Tree => String::from_str("tree"),
            AriaHasPopup::Grid => String::from_str("grid"),
            AriaHasPopup::Dialog => String::from_str("dialog"),
        }
    }
}

/// Values of `aria-invalid`.
#[derive(Debug, Clone, Copy, PartialEq, Eq, Hash, Structural)]
pub enum AriaInvalid {
    False,
    True,
    Grammar,
    Spelling,
}

impl AttributeValue for AriaInvalid {
    open spec fn spec_text(&self) -> Seq<char> {
        match self {
            AriaInvalid::False => "false"@,
            AriaInvalid::True => "true"@,
            AriaInvalid::Grammar => "grammar"@,
            AriaInvalid::Spelling => "spelling"@,
        }
    }

    fn to_text(&self) -> (r: String) {
        match self {
            AriaInvalid::False => String::from_str("false"),
            AriaInvalid::True => String::from_str("true"),
            AriaInvalid::Grammar => String::from_str("grammar"),
            AriaInvalid::Spelling => String::from_str("spelling"),
        }
    }
}

/// Values of `aria-live`.
#[derive(Debug, Clone, Copy, PartialEq, Eq, Hash, Structural)]
pub enum AriaLive {
    Off,
    Assertive,
    Polite,
}

impl AttributeValue for AriaLive {
    open spec fn spec_text(&self) -> Seq<char> {
        match self {
            AriaLive::Off => "off"@,
            AriaLive::Assertive => "assertive"@,
            AriaLive::Polite => "polite"@,
        }
    }

    fn to_text(&self) -> (r: String) {
        match self {
            AriaLive::Off => String::from_str("off"),
            AriaLive::Assertive => String::from_str("assertive"),
            AriaLive::Polite => String::from_str("polite"),
        }
    }
}

/// Values of `aria-orientation`.
#[derive(Debug, Clone, Copy, PartialEq, Eq, Hash, Structural)]
pub enum AriaOrientation {
    Horizontal,
    Vertical,
}

impl AttributeValue for AriaOrientation {
    open spec fn spec_text(&self) -> Seq<char> {
        match self {
            AriaOrientation::Horizontal => "horizontal"@,
            AriaOrientation::Vertical => "vertical"@,
        }
    }

    fn to_text(&self) -> (r: String) {
        match self {
            AriaOrientation::Horizontal => String::from_str("horizontal"),
            AriaOrientation::Vertical => String::from_str("vertical"),
        }
    }
}

/// Values of `aria-relevant`.
#[derive(Debug, Clone, Copy, PartialEq, Eq, Hash, Structural)]
pub enum AriaRelevant {
    Additions,
    AdditionsRemovals,
    AdditionsText,
    All,
    Removals,
    RemovalsAdditions,
    RemovalsText,
    Text,
    TextAdditions,
    TextRemovals,
}

impl AttributeValue for AriaRelevant {
    open spec fn spec_text(&self) -> Seq<char> {
        match self {
            AriaRelevant::Additions => "additions"@,
            AriaRelevant::AdditionsRemovals => "additions removals"@,
            AriaRelevant::AdditionsText => "additions text"@,
            AriaRelevant::All => "all"@,
            AriaRelevant::Removals => "removals"@,
            AriaRelevant::RemovalsAdditions => "removals additions"@,
            AriaRelevant::RemovalsText => "removals text"@,
            AriaRelevant::Text => "text"@,
            AriaRelevant::TextAdditions => "text additions"@,
            AriaRelevant::TextRemovals => "text removals"@,
        }
    }

    fn to_text(&self) -> (r: String) {
        match self {
            AriaRelevant::Additions => String::from_str("additions"),
            AriaRelevant::AdditionsRemovals => String::from_str("additions removals"),
            AriaRelevant::AdditionsText => String::from_str("additions text"),
            AriaRelevant::All => String::from_str("all"),
            AriaRelevant::Removals => String::from_str("removals"),
            AriaRelevant::RemovalsAdditions => String::from_str("removals additions"),
            AriaRelevant::RemovalsText => String::from_str("removals text"),
            AriaRelevant::Text => String::from_str("text"),
            AriaRelevant::TextAdditions => String::from_str("text additions"),
            AriaRelevant::TextRemovals => String::from_str("text removals"),
        }
    }
}

/// Values of `aria-sort`.
#[derive(Debug, Clone, Copy, PartialEq, Eq, Hash, Structural)]
pub enum AriaSort {
    NoneKeyword,
    Ascending,
    Descending,
    Other,
}

impl AttributeValue for AriaSort {
    open spec fn spec_text(&self) -> Seq<char> {
        match self {
            AriaSort::NoneKeyword => "none"@,
            AriaSort::Ascending => "ascending"@,
            AriaSort::Descending => "descending"@,
            AriaSort::Other => "other"@,
        }
    }

    fn to_text(&self) -> (r: String) {
        match self {
            AriaSort::NoneKeyword => String::from_str("none"),
            AriaSort::Ascending => String::from_str("ascending"),
            AriaSort::Descending => String::from_str("descending"),
            AriaSort::Other => String::from_str("other"),
        }
    }
}

/// The WAI-ARIA attributes, each with the type of its value.
#[derive(Debug, Clone)]
pub enum AriaAttributes {
    AriaActivedescendant(String),
    AriaAtomic(bool),
    AriaAutocomplete(AriaAutocomplete),
    AriaBusy(bool),
    AriaChecked(AriaChecked),
    AriaColcount(i64),
    AriaColindex(i64),
    AriaColspan(i64),
    AriaControls(String),
    AriaCurrent(AriaCurrent),
    AriaDescribedby(String),
    AriaDetails(String),
    AriaDisabled(bool),
    AriaDropeffect(AriaDropeffect),
    AriaErrormessage(String),
    AriaExpanded(bool),
    AriaFlowto(String),
    AriaGrabbed(bool),
    AriaHaspopup(AriaHasPopup),
    AriaHidden(bool),
    AriaInvalid(AriaInvalid),
    AriaKeyshortcuts(String),
    AriaLabel(String),
    AriaLabelledby(String),
    AriaLevel(i64),
    AriaLive(AriaLive),
    AriaModal(bool),
    AriaMultiline(bool),
    AriaMultiselectable(bool),
    AriaOrientation(AriaOrientation),
    AriaOwns(String),
    AriaPlaceholder(String),
    AriaPosinset(i64),
    AriaPressed(AriaChecked),
    AriaReadonly(bool),
    AriaRelevant(AriaRelevant),
    AriaRequired(bool),
    AriaRoledescription(String),
    AriaRowcount(i64),
    AriaRowindex(i64),
    AriaRowspan(i64),
    AriaSelected(bool),
    AriaSetsize(i64),
    AriaSort(AriaSort),
    AriaValuemax(i64),
    AriaValuemin(i64),
    AriaValuenow(i64),
    AriaValuetext(String),
}

impl Attribute for AriaAttributes {
    open spec fn spec_key(&self) -> Seq<char> {
        match self {
            AriaAttributes::AriaActivedescendant(..) => "aria-activedescendant"@,
            AriaAttributes::AriaAtomic(..) => "aria-atomic"@,
            AriaAttributes::AriaAutocomplete(..) => "aria-autocomplete"@,
            AriaAttributes::AriaBusy(..) => "aria-busy"@,
            AriaAttributes::AriaChecked(..) => "aria-checked"@,
            AriaAttributes::AriaColcount(..) => "aria-colcount"@,
            AriaAttributes::AriaColindex(..) => "aria-colindex"@,
            AriaAttributes::AriaColspan(..) => "aria-colspan"@,
            AriaAttributes::AriaControls(..) => "aria-controls"@,
            AriaAttributes::AriaCurrent(..) => "aria-current"@,
            AriaAttributes::AriaDescribedby(..) => "aria-describedby"@,
            AriaAttributes::AriaDetails(..) => "aria-details"@,
            AriaAttributes::AriaDisabled(..) => "aria-disabled"@,
            AriaAttributes::AriaDropeffect(..) => "aria-dropeffect"@,
            AriaAttributes::AriaErrormessage(..) => "aria-errormessage"@,
            AriaAttributes::AriaExpanded(..) => "aria-expanded"@,
            AriaAttributes::AriaFlowto(..) => "aria-flowto"@,
            AriaAttributes::AriaGrabbed(..) => "aria-grabbed"@,
            AriaAttributes::AriaHaspopup(..) => "aria-haspopup"@,
            AriaAttributes::AriaHidden(..) => "aria-hidden"@,
            AriaAttributes::AriaInvalid(..) => "aria-invalid"@,
            AriaAttributes::AriaKeyshortcuts(..) => "aria-keyshortcuts"@,
            AriaAttributes::AriaLabel(..) => "aria-label"@,
            AriaAttributes::AriaLabelledby(..) => "aria-labelledby"@,
            AriaAttributes::AriaLevel(..) => "aria-level"@,
            AriaAttributes::AriaLive(..) => "aria-live"@,
            AriaAttributes::AriaModal(..) => "aria-modal"@,
            AriaAttributes::AriaMultiline(..) => "aria-multiline"@,
            AriaAttributes::AriaMultiselectable(..) => "aria-multiselectable"@,
            AriaAttributes::AriaOrientation(..) => "aria-orientation"@,
            AriaAttributes::AriaOwns(..) => "aria-owns"@,
            AriaAttributes::AriaPlaceholder(..) => "aria-placeholder"@,
            AriaAttributes::AriaPosinset(..) => "aria-posinset"@,
            AriaAttributes::AriaPressed(..) => "aria-pressed"@,
            AriaAttributes::AriaReadonly(..) => "aria-readonly"@,
            AriaAttributes::AriaRelevant(..) => "aria-relevant"@,
            AriaAttributes::AriaRequired(..) => "aria-required"@,
            AriaAttributes::AriaRoledescription(..) => "aria-roledescription"@,
            AriaAttributes::AriaRowcount(..) => "aria-rowcount"@,
            AriaAttributes::AriaRowindex(..) => "aria-rowindex"@,
            AriaAttributes::AriaRowspan(..) => "aria-rowspan"@,
            AriaAttributes::AriaSelected(..) => "aria-selected"@,
            AriaAttributes::AriaSetsize(..) => "aria-setsize"@,
            AriaAttributes::AriaSort(..) => "aria-sort"@,
            AriaAttributes::AriaValuemax(..) => "aria-valuemax"@,
            AriaAttributes::AriaValuemin(..) => "aria-valuemin"@,
            AriaAttributes::AriaValuenow(..) => "aria-valuenow"@,
            AriaAttributes::AriaValuetext(..) => "aria-valuetext"@,
        }
    }

    open spec fn spec_value(&self) -> Option<Seq<char>> {
        match self {
            AriaAttributes::AriaActivedescendant(v) => Some(v.spec_text()),
            AriaAttributes::AriaAtomic(v) => Some(v.spec_text()),
            AriaAttributes::AriaAutocomplete(v) => Some(v.spec_text()),
            AriaAttributes::AriaBusy(v) => Some(v.spec_text()),
            AriaAttributes::AriaChecked(v) => Some(v.spec_text()),
            AriaAttributes::AriaColcount(v) => Some(v.spec_text()),
            AriaAttributes::AriaColindex(v) => Some(v.spec_text()),
            AriaAttributes::AriaColspan(v) => Some(v.spec_text()),
            AriaAttributes::AriaControls(v) => Some(v.spec_text()),
            AriaAttributes::AriaCurrent(v) => Some(v.spec_text()),
            AriaAttributes::AriaDescribedby(v) => Some(v.spec_text()),
            AriaAttributes::AriaDetails(v) => Some(v.spec_text()),
            AriaAttributes::AriaDisabled(v) => Some(v.spec_text()),
            AriaAttributes::AriaDropeffect(v) => Some(v.spec_text()),
            AriaAttributes::AriaErrormessage(v) => Some(v.spec_text()),
            AriaAttributes::AriaExpanded(v) => Some(v.spec_text()),
            AriaAttributes::AriaFlowto(v) => Some(v.spec_text()),
            AriaAttributes::AriaGrabbed(v) => Some(v.spec_text()),
            AriaAttributes::AriaHaspopup(v) => Some(v.spec_text()),
            AriaAttributes::AriaHidden(v) => Some(v.spec_text()),
            AriaAttributes::AriaInvalid(v) => Some(v.spec_text()),
            AriaAttributes::AriaKeyshortcuts(v) => Some(v.spec_text()),
            AriaAttributes::AriaLabel(v) => Some(v.spec_text()),
            AriaAttributes::AriaLabelledby(v) => Some(v.spec_text()),
            AriaAttributes::AriaLevel(v) => Some(v.spec_text()),
            AriaAttributes::AriaLive(v) => Some(v.spec_text()),
            AriaAttributes::AriaModal(v) => Some(v.spec_text()),
            AriaAttributes::AriaMultiline(v) => Some(v.spec_text()),
            AriaAttributes::AriaMultiselectable(v) => Some(v.spec_text()),
            AriaAttributes::AriaOrientation(v) => Some(v.spec_text()),
            AriaAttributes::AriaOwns(v) => Some(v.spec_text()),
            AriaAttributes::AriaPlaceholder(v) => Some(v.spec_text()),
            AriaAttributes::AriaPosinset(v) => Some(v.spec_text()),
            AriaAttributes::AriaPressed(v) => Some(v.spec_text()),
            AriaAttributes::AriaReadonly(v) => Some(v.spec_text()),
            AriaAttributes::AriaRelevant(v) => Some(v.spec_text()),
            AriaAttributes::AriaRequired(v) => Some(v.spec_text()),
            AriaAttributes::AriaRoledescription(v) => Some(v.spec_text()),
            AriaAttributes::AriaRowcount(v) => Some(v.spec_text()),
            AriaAttributes::AriaRowindex(v) => Some(v.spec_text()),
            AriaAttributes::AriaRowspan(v) => Some(v.spec_text()),
            AriaAttributes::AriaSelected(v) => Some(v.spec_text()),
            AriaAttributes::AriaSetsize(v) => Some(v.spec_text()),
            AriaAttributes::AriaSort(v) => Some(v.spec_text()),
            AriaAttributes::AriaValuemax(v) => Some(v.spec_text()),
            AriaAttributes::AriaValuemin(v) => Some(v.spec_text()),
            AriaAttributes::AriaValuenow(v) => Some(v.spec_text()),
            AriaAttributes::AriaValuetext(v) => Some(v.spec_text()),
        }
    }

    fn get_key(&self) -> (r: String) {
        match self {
            AriaAttributes::AriaActivedescendant(..) => String::from_str("aria-activedescendant"),
            AriaAttributes::AriaAtomic(..) => String::from_str("aria-atomic"),
            AriaAttributes::AriaAutocomplete(..) => String::from_str("aria-autocomplete"),
            AriaAttributes::AriaBusy(..) => String::from_str("aria-busy"),
            AriaAttributes::AriaChecked(..) => String::from_str("aria-checked"),
            AriaAttributes::AriaColcount(..) => String::from_str("aria-colcount"),
            AriaAttributes::AriaColindex(..) => String::from_str("aria-colindex"),
            AriaAttributes::AriaColspan(..) => String::from_str("aria-colspan"),
            AriaAttributes::AriaControls(..) => String::from_str("aria-controls"),
            AriaAttributes::AriaCurrent(..) => String::from_str("aria-current"),
            AriaAttributes::AriaDescribedby(..) => String::from_str("aria-describedby"),
            AriaAttributes::AriaDetails(..) => String::from_str("aria-details"),
            AriaAttributes::AriaDisabled(..) => String::from_str("aria-disabled"),
            AriaAttributes::AriaDropeffect(..) => String::from_str("aria-dropeffect"),
            AriaAttributes::AriaErrormessage(..) => String::from_str("aria-errormessage"),
            AriaAttributes::AriaExpanded(..) => String::from_str("aria-expanded"),
            AriaAttributes::AriaFlowto(..) => String::from_str("aria-flowto"),
            AriaAttributes::AriaGrabbed(..) => String::from_str("aria-grabbed"),
            AriaAttributes::AriaHaspopup(..) => String::from_str("aria-haspopup"),
            AriaAttributes::AriaHidden(..) => String::from_str("aria-hidden"),
            AriaAttributes::AriaInvalid(..) => String::from_str("aria-invalid"),
            AriaAttributes::AriaKeyshortcuts(..) => String::from_str("aria-keyshortcuts"),
            AriaAttributes::AriaLabel(..) => String::from_str("aria-label"),
            AriaAttributes::AriaLabelledby(..) => String::from_str("aria-labelledby"),
            AriaAttributes::AriaLevel(..) => String::from_str("aria-level"),
            AriaAttributes::AriaLive(..) => String::from_str("aria-live"),
            AriaAttributes::AriaModal(..) => String::from_str("aria-modal"),
            AriaAttributes::AriaMultiline(..) => String::from_str("aria-multiline"),
            AriaAttributes::AriaMultiselectable(..) => String::from_str("aria-multiselectable"),
            AriaAttributes::AriaOrientation(..) => String::from_str("aria-orientation"),
            AriaAttributes::AriaOwns(..) => String::from_str("aria-owns"),
            AriaAttributes::AriaPlaceholder(..) => String::from_str("aria-placeholder"),
            AriaAttributes::AriaPosinset(..) => String::from_str("aria-posinset"),
            AriaAttributes::AriaPressed(..) => String::from_str("aria-pressed"),
            AriaAttributes::AriaReadonly(..) => String::from_str("aria-readonly"),
            AriaAttributes::AriaRelevant(..) => String::from_str("aria-relevant"),
            AriaAttributes::AriaRequired(..) => String::from_str("aria-required"),
            AriaAttributes::AriaRoledescription(..) => String::from_str("aria-roledescription"),
            AriaAttributes::AriaRowcount(..) => String::from_str("aria-rowcount"),
            AriaAttributes::AriaRowindex(..) => String::from_str("aria-rowindex"),
            AriaAttributes::AriaRowspan(..) => String::from_str("aria-rowspan"),
            AriaAttributes::AriaSelected(..) => String::from_str("aria-selected"),
            AriaAttributes::AriaSetsize(..) => String::from_str("aria-setsize"),
            AriaAttributes::AriaSort(..) => String::from_str("aria-sort"),
            AriaAttributes::AriaValuemax(..) => String::from_str("aria-valuemax"),
            AriaAttributes::AriaValuemin(..) => String::from_str("aria-valuemin"),
            AriaAttributes::AriaValuenow(..) => String::from_str("aria-valuenow"),
            AriaAttributes::AriaValuetext(..) => String::from_str("aria-valuetext"),
        }
    }

    fn get_val(&self) -> (r: Option<String>) {
        match self {
            AriaAttributes::AriaActivedescendant(v) => Some(v.to_text()),
            AriaAttributes::AriaAtomic(v) => Some(v.to_text()),
            AriaAttributes::AriaAutocomplete(v) => Some(v.to_text()),
            AriaAttributes::AriaBusy(v) => Some(v.to_text()),
            AriaAttributes::AriaChecked(v) => Some(v.to_text()),
            AriaAttributes::AriaColcount(v) => Some(v.to_text()),
            AriaAttributes::AriaColindex(v) => Some(v.to_text()),
            AriaAttributes::AriaColspan(v) => Some(v.to_text()),
            AriaAttributes::AriaControls(v) => Some(v.to_text()),
            AriaAttributes::AriaCurrent(v) => Some(v.to_text()),
            AriaAttributes::AriaDescribedby(v) => Some(v.to_text()),
            AriaAttributes::AriaDetails(v) => Some(v.to_text()),
            AriaAttributes::AriaDisabled(v) => Some(v.to_text()),
            AriaAttributes::AriaDropeffect(v) => Some(v.to_text()),
            AriaAttributes::AriaErrormessage(v) => Some(v.to_text()),
            AriaAttributes::AriaExpanded(v) => Some(v.to_text()),
            AriaAttributes::AriaFlowto(v) => Some(v.to_text()),
            AriaAttributes::AriaGrabbed(v) => Some(v.to_text()),
            AriaAttributes::AriaHaspopup(v) => Some(v.to_text()),
            AriaAttributes::AriaHidden(v) => Some(v.to_text()),
            AriaAttributes::AriaInvalid(v) => Some(v.to_text()),
            AriaAttributes::AriaKeyshortcuts(v) => Some(v.to_text()),
            AriaAttributes::AriaLabel(v) => Some(v.to_text()),
            AriaAttributes::AriaLabelledby(v) => Some(v.to_text()),
            AriaAttributes::AriaLevel(v) => Some(v.to_text()),
            AriaAttributes::AriaLive(v) => Some(v.to_text()),
            AriaAttributes::AriaModal(v) => Some(v.to_text()),
            AriaAttributes::AriaMultiline(v) => Some(v.to_text()),
            AriaAttributes::AriaMultiselectable(v) => Some(v.to_text()),
            AriaAttributes::AriaOrientation(v) => Some(v.to_text()),
            AriaAttributes::AriaOwns(v) => Some(v.to_text()),
            AriaAttributes::AriaPlaceholder(v) => Some(v.to_text()),
            AriaAttributes::AriaPosinset(v) => Some(v.to_text()),
            AriaAttributes::AriaPressed(v) => Some(v.to_text()),
            AriaAttributes::AriaReadonly(v) => Some(v.to_text()),
            AriaAttributes::AriaRelevant(v) => Some(v.to_text()),
            AriaAttributes::AriaRequired(v) => Some(v.to_text()),
            AriaAttributes::AriaRoledescription(v) => Some(v.to_text()),
            AriaAttributes::AriaRowcount(v) => Some(v.to_text()),
            AriaAttributes::AriaRowindex(v) => Some(v.to_text()),
            AriaAttributes::AriaRowspan(v) => Some(v.to_text()),
            AriaAttributes::AriaSelected(v) => Some(v.to_text()),
            AriaAttributes::AriaSetsize(v) => Some(v.to_text()),
            AriaAttributes::AriaSort(v) => Some(v.to_text()),
            AriaAttributes::AriaValuemax(v) => Some(v.to_text()),
            AriaAttributes::AriaValuemin(v) => Some(v.to_text()),
            AriaAttributes::AriaValuenow(v) => Some(v.to_text()),
            AriaAttributes::AriaValuetext(v) => Some(v.to_text()),
        }
    }
}

/// A props type that takes ARIA attributes.
pub trait AriaAttributeReceiver {
    /// The holder's own well-formedness.
    spec fn aria_receiver_wf(&self) -> bool;

    /// The ARIA attributes considered present, pending operations included.
    spec fn aria_attributes(&self) -> Map<Seq<char>, Option<String>>;

    /// Records `attribute`; returns whether its key was absent before.
    fn add_aria_attribute(&mut self, attribute: AriaAttributes) -> (r: bool)
        requires
            old(self).aria_receiver_wf(),
        ensures
            final(self).aria_receiver_wf(),
            r == !old(self).aria_attributes().contains_key(attribute.spec_key()),
            final(self).aria_attributes().contains_key(attribute.spec_key()),
            opt_view(final(self).aria_attributes()[attribute.spec_key()]) == attribute.spec_value(),
            final(self).aria_attributes().remove(attribute.spec_key()) == old(self).aria_attributes().remove(attribute.spec_key()),
    ;

    /// Records that the key of `attribute` should go; returns whether it was
    /// present.
    fn remove_aria_attribute(&mut self, attribute: AriaAttributes) -> (r: bool)
        requires
            old(self).aria_receiver_wf(),
        ensures
            final(self).aria_receiver_wf(),
            r == old(self).aria_attributes().contains_key(attribute.spec_key()),
            final(self).aria_attributes() == old(self).aria_attributes().remove(attribute.spec_key()),
    ;
}
} // verus!
