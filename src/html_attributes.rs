//! Global HTML attributes.

use vstd::prelude::*;
use crate::attribute::{opt_view, Attribute};
use crate::value::AttributeValue;

verus! {

/// Global HTML attributes. The key is the lower-case attribute name.
#[derive(Debug, Clone)]
pub enum HtmlAttributes {
    AccessKey(String),
    ContentEditable(ContentEditable),
    ContextMenu(String),
    Dir(String),
    Draggable(bool),
    Hidden(bool),
    Id(String),
    Lang(String),
    Placeholder(String),
    Slot(String),
    SpellCheck(bool),
    TabIndex(u64),
    Title(String),
    Translate(Translate),
    Role(AriaRole),
    About(String),
    Datatype(String),
    Inlist(String),
    Prefix(String),
    Property(String),
    Resource(String),
    Typeof(String),
    Vocab(String),
    AutoCapitalize(String),
    AutoCorrect(String),
    AutoSave(String),
    Color(String),
    ItemProp(String),
    ItemScope(bool),
    ItemType(String),
    ItemID(String),
    ItemRef(String),
    Results(u64),
    Security(String),
    Unselectable(Unselectable),
    InputMode(InputMode),
    Is(String),
}

impl Attribute for HtmlAttributes {
    open spec fn spec_key(&self) -> Seq<char> {
        match self {
            HtmlAttributes::AccessKey(..) => "accesskey"@,
            HtmlAttributes::ContentEditable(..) => "contenteditable"@,
            HtmlAttributes::ContextMenu(..) => "contextmenu"@,
            HtmlAttributes::Dir(..) => "dir"@,
            HtmlAttributes::Draggable(..) => "draggable"@,
            HtmlAttributes::Hidden(..) => "hidden"@,
            HtmlAttributes::Id(..) => "id"@,
            HtmlAttributes::Lang(..) => "lang"@,
            HtmlAttributes::Placeholder(..) => "placeholder"@,
            HtmlAttributes::Slot(..) => "slot"@,
            HtmlAttributes::SpellCheck(..) => "spellcheck"@,
            HtmlAttributes::TabIndex(..) => "tabindex"@,
            HtmlAttributes::Title(..) => "title"@,
            HtmlAttributes::Translate(..) => "translate"@,
            HtmlAttributes::Role(..) => "role"@,
            HtmlAttributes::About(..) => "about"@,
            HtmlAttributes::Datatype(..) => "datatype"@,
            HtmlAttributes::Inlist(..) => "inlist"@,
            HtmlAttributes::Prefix(..) => "prefix"@,
            HtmlAttributes::Property(..) => "property"@,
            HtmlAttributes::Resource(..) => "resource"@,
            HtmlAttributes::Typeof(..) => "typeof"@,
            HtmlAttributes::Vocab(..) => "vocab"@,
            HtmlAttributes::AutoCapitalize(..) => "autocapitalize"@,
            HtmlAttributes::AutoCorrect(..) => "autocorrect"@,
            HtmlAttributes::AutoSave(..) => "autosave"@,
            HtmlAttributes::Color(..) => "color"@,
            HtmlAttributes::ItemProp(..) => "itemprop"@,
            HtmlAttributes::ItemScope(..) => "itemscope"@,
            HtmlAttributes::ItemType(..) => "itemtype"@,
            HtmlAttributes::ItemID(..) => "itemid"@,
            HtmlAttributes::ItemRef(..) => "itemref"@,
            HtmlAttributes::Results(..) => "results"@,
            HtmlAttributes::Security(..) => "security"@,
            HtmlAttributes::Unselectable(..) => "unselectable"@,
            HtmlAttributes::InputMode(..) => "inputmode"@,
            HtmlAttributes::Is(..) => "is"@,
        }
    }

    open spec fn spec_value(&self) -> Option<Seq<char>> {
        match self {
            HtmlAttributes::AccessKey(v) => Some(v.spec_text()),
            HtmlAttributes::ContentEditable(v) => Some(v.spec_text()),
            HtmlAttributes::ContextMenu(v) => Some(v.spec_text()),
            HtmlAttributes::Dir(v) => Some(v.spec_text()),
            HtmlAttributes::Draggable(v) => Some(v.spec_text()),
            HtmlAttributes::Hidden(v) => Some(v.spec_text()),
            HtmlAttributes::Id(v) => Some(v.spec_text()),
            HtmlAttributes::Lang(v) => Some(v.spec_text()),
            HtmlAttributes::Placeholder(v) => Some(v.spec_text()),
            HtmlAttributes::Slot(v) => Some(v.spec_text()),
            HtmlAttributes::SpellCheck(v) => Some(v.spec_text()),
            HtmlAttributes::TabIndex(v) => Some(v.spec_text()),
            HtmlAttributes::Title(v) => Some(v.spec_text()),
            HtmlAttributes::Translate(v) => Some(v.spec_text()),
            HtmlAttributes::Role(AriaRole::Custom(v)) => Some(v@),
            HtmlAttributes::Role(v) => Some(v.spec_text()),
            HtmlAttributes::About(v) => Some(v.spec_text()),
            HtmlAttributes::Datatype(v) => Some(v.spec_text()),
            HtmlAttributes::Inlist(v) => Some(v.spec_text()),
            HtmlAttributes::Prefix(v) => Some(v.spec_text()),
            HtmlAttributes::Property(v) => Some(v.spec_text()),
            HtmlAttributes::Resource(v) => Some(v.spec_text()),
            HtmlAttributes::Typeof(v) => Some(v.spec_text()),
            HtmlAttributes::Vocab(v) => Some(v.spec_text()),
            HtmlAttributes::AutoCapitalize(v) => Some(v.spec_text()),
            HtmlAttributes::AutoCorrect(v) => Some(v.spec_text()),
            HtmlAttributes::AutoSave(v) => Some(v.spec_text()),
            HtmlAttributes::Color(v) => Some(v.spec_text()),
            HtmlAttributes::ItemProp(v) => Some(v.spec_text()),
            HtmlAttributes::ItemScope(v) => Some(v.spec_text()),
            HtmlAttributes::ItemType(v) => Some(v.spec_text()),
            HtmlAttributes::ItemID(v) => Some(v.spec_text()),
            HtmlAttributes::ItemRef(v) => Some(v.spec_text()),
            HtmlAttributes::Results(v) => Some(v.spec_text()),
            HtmlAttributes::Security(v) => Some(v.spec_text()),
            HtmlAttributes::Unselectable(v) => Some(v.spec_text()),
            HtmlAttributes::InputMode(v) => Some(v.spec_text()),
            HtmlAttributes::Is(v) => Some(v.spec_text()),
        }
    }

    fn get_key(&self) -> (r: String) {
        match self {
            HtmlAttributes::AccessKey(..) => String::from_str("accesskey"),
            HtmlAttributes::ContentEditable(..) => String::from_str("contenteditable"),
            HtmlAttributes::ContextMenu(..) => String::from_str("contextmenu"),
            HtmlAttributes::Dir(..) => String::from_str("dir"),
            HtmlAttributes::Draggable(..) => String::from_str("draggable"),
            HtmlAttributes::Hidden(..) => String::from_str("hidden"),
            HtmlAttributes::Id(..) => String::from_str("id"),
            HtmlAttributes::Lang(..) => String::from_str("lang"),
            HtmlAttributes::Placeholder(..) => String::from_str("placeholder"),
            HtmlAttributes::Slot(..) => String::from_str("slot"),
            HtmlAttributes::SpellCheck(..) => String::from_str("spellcheck"),
            HtmlAttributes::TabIndex(..) => String::from_str("tabindex"),
            HtmlAttributes::Title(..) => String::from_str("title"),
            HtmlAttributes::Translate(..) => String::from_str("translate"),
            HtmlAttributes::Role(..) => String::from_str("role"),
            HtmlAttributes::About(..) => String::from_str("about"),
            HtmlAttributes::Datatype(..) => String::from_str("datatype"),
            HtmlAttributes::Inlist(..) => String::from_str("inlist"),
            HtmlAttributes::Prefix(..) => String::from_str("prefix"),
            HtmlAttributes::Property(..) => String::from_str("property"),
            HtmlAttributes::Resource(..) => String::from_str("resource"),
            HtmlAttributes::Typeof(..) => String::from_str("typeof"),
            HtmlAttributes::Vocab(..) => String::from_str("vocab"),
            HtmlAttributes::AutoCapitalize(..) => String::from_str("autocapitalize"),
            HtmlAttributes::AutoCorrect(..) => String::from_str("autocorrect"),
            HtmlAttributes::AutoSave(..) => String::from_str("autosave"),
            HtmlAttributes::Color(..) => String::from_str("color"),
            HtmlAttributes::ItemProp(..) => String::from_str("itemprop"),
            HtmlAttributes::ItemScope(..) => String::from_str("itemscope"),
            HtmlAttributes::ItemType(..) => String::from_str("itemtype"),
            HtmlAttributes::ItemID(..) => String::from_str("itemid"),
            HtmlAttributes::ItemRef(..) => String::from_str("itemref"),
            HtmlAttributes::Results(..) => String::from_str("results"),
            HtmlAttributes::Security(..) => String::from_str("security"),
            HtmlAttributes::Unselectable(..) => String::from_str("unselectable"),
            HtmlAttributes::InputMode(..) => String::from_str("inputmode"),
            HtmlAttributes::Is(..) => String::from_str("is"),
        }
    }

    fn get_val(&self) -> (r: Option<String>) {
        match self {
            HtmlAttributes::AccessKey(v) => Some(v.to_text()),
            HtmlAttributes::ContentEditable(v) => Some(v.to_text()),
            HtmlAttributes::ContextMenu(v) => Some(v.to_text()),
            HtmlAttributes::Dir(v) => Some(v.to_text()),
            HtmlAttributes::Draggable(v) => Some(v.to_text()),
            HtmlAttributes::Hidden(v) => Some(v.to_text()),
            HtmlAttributes::Id(v) => Some(v.to_text()),
            HtmlAttributes::Lang(v) => Some(v.to_text()),
            HtmlAttributes::Placeholder(v) => Some(v.to_text()),
            HtmlAttributes::Slot(v) => Some(v.to_text()),
            HtmlAttributes::SpellCheck(v) => Some(v.to_text()),
            HtmlAttributes::TabIndex(v) => Some(v.to_text()),
            HtmlAttributes::Title(v) => Some(v.to_text()),
            HtmlAttributes::Translate(v) => Some(v.to_text()),
            HtmlAttributes::Role(AriaRole::Custom(v)) => Some(v.clone()),
            HtmlAttributes::Role(v) => Some(v.to_text()),
            HtmlAttributes::About(v) => Some(v.to_text()),
            HtmlAttributes::Datatype(v) => Some(v.to_text()),
            HtmlAttributes::Inlist(v) => Some(v.to_text()),
            HtmlAttributes::Prefix(v) => Some(v.to_text()),
            HtmlAttributes::Property(v) => Some(v.to_text()),
            HtmlAttributes::Resource(v) => Some(v.to_text()),
            HtmlAttributes::Typeof(v) => Some(v.to_text()),
            HtmlAttributes::Vocab(v) => Some(v.to_text()),
            HtmlAttributes::AutoCapitalize(v) => Some(v.to_text()),
            HtmlAttributes::AutoCorrect(v) => Some(v.to_text()),
            HtmlAttributes::AutoSave(v) => Some(v.to_text()),
            HtmlAttributes::Color(v) => Some(v.to_text()),
            HtmlAttributes::ItemProp(v) => Some(v.to_text()),
            HtmlAttributes::ItemScope(v) => Some(v.to_text()),
            HtmlAttributes::ItemType(v) => Some(v.to_text()),
            HtmlAttributes::ItemID(v) => Some(v.to_text()),
            HtmlAttributes::ItemRef(v) => Some(v.to_text()),
            HtmlAttributes::Results(v) => Some(v.to_text()),
            HtmlAttributes::Security(v) => Some(v.to_text()),
            HtmlAttributes::Unselectable(v) => Some(v.to_text()),
            HtmlAttributes::InputMode(v) => Some(v.to_text()),
            HtmlAttributes::Is(v) => Some(v.to_text()),
        }
    }
}

/// Values of the `role` attribute; `Custom` carries a role of its own.
#[derive(Debug, Clone, PartialEq, Eq, Hash)]
pub enum AriaRole {
    Alert,
    AlertDialog,
    Application,
    Article,
    Banner,
    Button,
    Cell,
    Checkbox,
    ColumnHeader,
    Combobox,
    Complementary,
    ContentInfo,
    Definition,
    Dialog,
    Directory,
    Document,
    Feed,
    Figure,
    Form,
    Grid,
    GridCell,
    Group,
    Heading,
    Img,
    Link,
    List,
    ListBox,
    ListItem,
    Log,
    Main,
    Marquee,
    Math,
    Menu,
    Menubar,
    MenuItem,
    MenuItemCheckbox,
    MenuItemRadio,
    Navigation,
    NoneKeyword,
    Note,
    Option,
    Presentation,
    ProgressBar,
    Radio,
    RadioGroup,
    Region,
    Row,
    RowGroup,
    RowHeader,
    ScrollBar,
    Search,
    SearchBox,
    Separator,
    Slider,
    SpinButton,
    Status,
    Switch,
    Tab,
    Table,
    TabLList,
    TabPanel,
    Term,
    TextNox,
    Timer,
    Toolbar,
    Tooltip,
    Tree,
    TreeGrid,
    TreeItem,
    Custom(String),
}

impl AttributeValue for AriaRole {
    open spec fn spec_text(&self) -> Seq<char> {
        match self {
            AriaRole::Alert => "alert"@,
            AriaRole::AlertDialog => "alertdialog"@,
            AriaRole::Application => "application"@,
            AriaRole::Article => "article"@,
            AriaRole::Banner => "banner"@,
            AriaRole::Button => "button"@,
            AriaRole::Cell => "cell"@,
            AriaRole::Checkbox => "checkbox"@,
            AriaRole::ColumnHeader => "columnheader"@,
            AriaRole::Combobox => "combobox"@,
            AriaRole::Complementary => "complementary"@,
            AriaRole::ContentInfo => "contentinfo"@,
            AriaRole::Definition => "definition"@,
            AriaRole::Dialog => "dialog"@,
            AriaRole::Directory => "directory"@,
            AriaRole::Document => "document"@,
            AriaRole::Feed => "feed"@,
            AriaRole::Figure => "figure"@,
            AriaRole::Form => "form"@,
            AriaRole::Grid => "grid"@,
            AriaRole::GridCell => "gridcell"@,
            AriaRole::Group => "group"@,
            AriaRole::Heading => "heading"@,
            AriaRole::Img => "img"@,
            AriaRole::Link => "link"@,
            AriaRole::List => "list"@,
            AriaRole::ListBox => "listbox"@,
            AriaRole::ListItem => "listitem"@,
            AriaRole::Log => "log"@,
            AriaRole::Main => "main"@,
            AriaRole::Marquee => "marquee"@,
            AriaRole::Math => "math"@,
            AriaRole::Menu => "menu"@,
            AriaRole::Menubar => "menubar"@,
            AriaRole::MenuItem => "menuitem"@,
            AriaRole::MenuItemCheckbox => "menuitemcheckbox"@,
            AriaRole::MenuItemRadio => "menuitemradio"@,
            AriaRole::Navigation => "navigation"@,
            AriaRole::NoneKeyword => "none"@,
            AriaRole::Note => "note"@,
            AriaRole::Option => "option"@,
            AriaRole::Presentation => "presentation"@,
            AriaRole::ProgressBar => "progressbar"@,
            AriaRole::Radio => "radio"@,
            AriaRole::RadioGroup => "radiogroup"@,
            AriaRole::Region => "region"@,
            AriaRole::Row => "row"@,
            AriaRole::RowGroup => "rowgroup"@,
            AriaRole::RowHeader => "rowheader"@,
            AriaRole::ScrollBar => "scrollbar"@,
            AriaRole::Search => "search"@,
            AriaRole::SearchBox => "searchbox"@,
            AriaRole::Separator => "separator"@,
            AriaRole::Slider => "slider"@,
            AriaRole::SpinButton => "spinbutton"@,
            AriaRole::Status => "status"@,
            AriaRole::Switch => "switch"@,
            AriaRole::Tab => "tab"@,
            AriaRole::Table => "table"@,
            AriaRole::TabLList => "tabllist"@,
            AriaRole::TabPanel => "tabpanel"@,
            AriaRole::Term => "term"@,
            AriaRole::TextNox => "textnox"@,
            AriaRole::Timer => "timer"@,
            AriaRole::Toolbar => "toolbar"@,
            AriaRole::Tooltip => "tooltip"@,
            AriaRole::Tree => "tree"@,
            AriaRole::TreeGrid => "treegrid"@,
            AriaRole::TreeItem => "treeitem"@,
            AriaRole::Custom(..) => "custom"@,
        }
    }

    fn to_text(&self) -> (r: String) {
        match self {
            AriaRole::Alert => String::from_str("alert"),
            AriaRole::AlertDialog => String::from_str("alertdialog"),
            AriaRole::Application => String::from_str("application"),
            AriaRole::Article => String::from_str("article"),
            AriaRole::Banner => String::from_str("banner"),
            AriaRole::Button => String::from_str("button"),
            AriaRole::Cell => String::from_str("cell"),
            AriaRole::Checkbox => String::from_str("checkbox"),
            AriaRole::ColumnHeader => String::from_str("columnheader"),
            AriaRole::Combobox => String::from_str("combobox"),
            AriaRole::Complementary => String::from_str("complementary"),
            AriaRole::ContentInfo => String::from_str("contentinfo"),
            AriaRole::Definition => String::from_str("definition"),
            AriaRole::Dialog => String::from_str("dialog"),
            AriaRole::Directory => String::from_str("directory"),
            AriaRole::Document => String::from_str("document"),
            AriaRole::Feed => String::from_str("feed"),
            AriaRole::Figure => String::from_str("figure"),
            AriaRole::Form => String::from_str("form"),
            AriaRole::Grid => String::from_str("grid"),
            AriaRole::GridCell => String::from_str("gridcell"),
            AriaRole::Group => String::from_str("group"),
            AriaRole::Heading => String::from_str("heading"),
            AriaRole::Img => String::from_str("img"),
            AriaRole::Link => String::from_str("link"),
            AriaRole::List => String::from_str("list"),
            AriaRole::ListBox => String::from_str("listbox"),
            AriaRole::ListItem => String::from_str("listitem"),
            AriaRole::Log => String::from_str("log"),
            AriaRole::Main => String::from_str("main"),
            AriaRole::Marquee => String::from_str("marquee"),
            AriaRole::Math => String::from_str("math"),
            AriaRole::Menu => String::from_str("menu"),
            AriaRole::Menubar => String::from_str("menubar"),
            AriaRole::MenuItem => String::from_str("menuitem"),
            AriaRole::MenuItemCheckbox => String::from_str("menuitemcheckbox"),
            AriaRole::MenuItemRadio => String::from_str("menuitemradio"),
            AriaRole::Navigation => String::from_str("navigation"),
            AriaRole::NoneKeyword => String::from_str("none"),
            AriaRole::Note => String::from_str("note"),
            AriaRole::Option => String::from_str("option"),
            AriaRole::Presentation => String::from_str("presentation"),
            AriaRole::ProgressBar => String::from_str("progressbar"),
            AriaRole::Radio => String::from_str("radio"),
            AriaRole::RadioGroup => String::from_str("radiogroup"),
            AriaRole::Region => String::from_str("region"),
            AriaRole::Row => String::from_str("row"),
            AriaRole::RowGroup => String::from_str("rowgroup"),
            AriaRole::RowHeader => String::from_str("rowheader"),
            AriaRole::ScrollBar => String::from_str("scrollbar"),
            AriaRole::Search => String::from_str("search"),
            AriaRole::SearchBox => String::from_str("searchbox"),
            AriaRole::Separator => String::from_str("separator"),
            AriaRole::Slider => String::from_str("slider"),
            AriaRole::SpinButton => String::from_str("spinbutton"),
            AriaRole::Status => String::from_str("status"),
            AriaRole::Switch => String::from_str("switch"),
            AriaRole::Tab => String::from_str("tab"),
            AriaRole::Table => String::from_str("table"),
            AriaRole::TabLList => String::from_str("tabllist"),
            AriaRole::TabPanel => String::from_str("tabpanel"),
            AriaRole::Term => String::from_str("term"),
            AriaRole::TextNox => String::from_str("textnox"),
            AriaRole::Timer => String::from_str("timer"),
            AriaRole::Toolbar => String::from_str("toolbar"),
            AriaRole::Tooltip => String::from_str("tooltip"),
            AriaRole::Tree => String::from_str("tree"),
            AriaRole::TreeGrid => String::from_str("treegrid"),
            AriaRole::TreeItem => String::from_str("treeitem"),
            AriaRole::Custom(..) => String::from_str("custom"),
        }
    }
}

/// Values of `contenteditable`.
#[derive(Debug, Clone, Copy, PartialEq, Eq, Hash, Structural)]
pub enum ContentEditable {
    True,
    False,
    Inherit,
}

impl AttributeValue for ContentEditable {
    open spec fn spec_text(&self) -> Seq<char> {
        match self {
            ContentEditable::True => "true"@,
            ContentEditable::False => "false"@,
            ContentEditable::Inherit => "inherit"@,
        }
    }

    fn to_text(&self) -> (r: String) {
        match self {
            ContentEditable::True => String::from_str("true"),
            ContentEditable::False => String::from_str("false"),
            ContentEditable::Inherit => String::from_str("inherit"),
        }
    }
}

/// Values of `translate`.
#[derive(Debug, Clone, Copy, PartialEq, Eq, Hash, Structural)]
pub enum Translate {
    Yes,
    No,
}

impl AttributeValue for Translate {
    open spec fn spec_text(&self) -> Seq<char> {
        match self {
            Translate::Yes => "yes"@,
            Translate::No => "no"@,
        }
    }

    fn to_text(&self) -> (r: String) {
        match self {
            Translate::Yes => String::from_str("yes"),
            Translate::No => String::from_str("no"),
        }
    }
}

/// Values of `unselectable`.
#[derive(Debug, Clone, Copy, PartialEq, Eq, Hash, Structural)]
pub enum Unselectable {
    On,
    Off,
}

impl AttributeValue for Unselectable {
    open spec fn spec_text(&self) -> Seq<char> {
        match self {
            Unselectable::On => "on"@,
            Unselectable::Off => "off"@,
        }
    }

    fn to_text(&self) -> (r: String) {
        match self {
            Unselectable::On => String::from_str("on"),
            Unselectable::Off => String::from_str("off"),
        }
    }
}

/// Values of `inputmode`.
#[derive(Debug, Clone, Copy, PartialEq, Eq, Hash, Structural)]
pub enum InputMode {
    NoneKeyword,
    Text,
    Tel,
    Url,
    Email,
    Numeric,
    Decimal,
    Search,
}

impl AttributeValue for InputMode {
    open spec fn spec_text(&self) -> Seq<char> {
        match self {
            InputMode::NoneKeyword => "none"@,
            InputMode::Text => "text"@,
            InputMode::Tel => "tel"@,
            InputMode::Url => "url"@,
            InputMode::Email => "email"@,
            InputMode::Numeric => "numeric"@,
            InputMode::Decimal => "decimal"@,
            InputMode::Search => "search"@,
        }
    }

    fn to_text(&self) -> (r: String) {
        match self {
            InputMode::NoneKeyword => String::from_str("none"),
            InputMode::Text => String::from_str("text"),
            InputMode::Tel => String::from_str("tel"),
            InputMode::Url => String::from_str("url"),
            InputMode::Email => String::from_str("email"),
            InputMode::Numeric => String::from_str("numeric"),
            InputMode::Decimal => String::from_str("decimal"),
            InputMode::Search => String::from_str("search"),
        }
    }
}

/// A props type that takes HTML attributes.
pub trait HtmlAttributeReceiver {
    /// The holder's own well-formedness.
    spec fn html_receiver_wf(&self) -> bool;

    /// The HTML attributes considered present, pending operations included.
    spec fn html_attributes(&self) -> Map<Seq<char>, Option<String>>;

    /// Records `attribute`; returns whether its key was absent before.
    fn add_html_attribute(&mut self, attribute: HtmlAttributes) -> (r: bool)
        requires
            old(self).html_receiver_wf(),
        ensures
            final(self).html_receiver_wf(),
            r == !old(self).html_attributes().contains_key(attribute.spec_key()),
            final(self).html_attributes().contains_key(attribute.spec_key()),
            opt_view(final(self).html_attributes()[attribute.spec_key()]) == attribute.spec_value(),
            final(self).html_attributes().remove(attribute.spec_key()) == old(self).html_attributes().remove(attribute.spec_key()),
    ;

    /// Records that the key of `attribute` should go; returns whether it was
    /// present.
    fn remove_html_attribute(&mut self, attribute: HtmlAttributes) -> (r: bool)
        requires
            old(self).html_receiver_wf(),
        ensures
            final(self).html_receiver_wf(),
            r == old(self).html_attributes().contains_key(attribute.spec_key()),
            final(self).html_attributes() == old(self).html_attributes().remove(attribute.spec_key()),
    ;
}
} // verus!
