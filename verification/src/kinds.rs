//! The widget factory's registry: the closed set of concrete widget
//! kinds, the resolution of textual type tags against it, and the
//! capability set of each kind.
//!
//! A tag that resolves to no kind makes its node, and the node's whole
//! subtree, a no-op; this is the only node-level failure.

use crate::parse::str_eq;
use vstd::prelude::*;

verus! {

/// One concrete widget kind of the closed registry.
#[derive(Clone, Copy, Debug, PartialEq, Eq, Structural)]
pub enum WidgetKind {
    /// The `Column` kind.
    Column,
    /// The `Row` kind.
    Row,
    /// The `Button` kind.
    Button,
    /// The `CheckButton` kind.
    CheckButton,
    /// The `RadioButton` kind.
    RadioButton,
    /// The `ToggleButton` kind.
    ToggleButton,
    /// The `RadioRoundButton` kind.
    RadioRoundButton,
    /// The `ReturnButton` kind.
    ReturnButton,
    /// The `Frame` kind.
    Frame,
    /// The `Group` kind.
    Group,
    /// The `Pack` kind.
    Pack,
    /// The `Tile` kind.
    Tile,
    /// The `Tabs` kind.
    Tabs,
    /// The `Scroll` kind.
    Scroll,
    /// The `ColorChooser` kind.
    ColorChooser,
    /// The `TextDisplay` kind.
    TextDisplay,
    /// The `TextEditor` kind.
    TextEditor,
    /// The `Input` kind.
    Input,
    /// The `IntInput` kind.
    IntInput,
    /// The `FloatInput` kind.
    FloatInput,
    /// The `SecretInput` kind.
    SecretInput,
    /// The `FileInput` kind.
    FileInput,
    /// The `MultilineInput` kind.
    MultilineInput,
    /// The `Output` kind.
    Output,
    /// The `MultilineOutput` kind.
    MultilineOutput,
    /// The `MenuBar` kind.
    MenuBar,
    /// The `SysMenuBar` kind.
    SysMenuBar,
    /// The `Choice` kind.
    Choice,
    /// The `Slider` kind.
    Slider,
    /// The `NiceSlider` kind.
    NiceSlider,
    /// The `FillSlider` kind.
    FillSlider,
    /// The `ValueSlider` kind.
    ValueSlider,
    /// The `Dial` kind.
    Dial,
    /// The `LineDial` kind.
    LineDial,
    /// The `FillDial` kind.
    FillDial,
    /// The `Counter` kind.
    Counter,
    /// The `Scrollbar` kind.
    Scrollbar,
    /// The `Roller` kind.
    Roller,
    /// The `Adjuster` kind.
    Adjuster,
    /// The `ValueInput` kind.
    ValueInput,
    /// The `ValueOutput` kind.
    ValueOutput,
    /// The `HorSlider` kind.
    HorSlider,
    /// The `HorNiceSlider` kind.
    HorNiceSlider,
    /// The `HorFillSlider` kind.
    HorFillSlider,
    /// The `HorValueSlider` kind.
    HorValueSlider,
    /// The `Browser` kind.
    Browser,
    /// The `SelectBrowser` kind.
    SelectBrowser,
    /// The `HoldBrowser` kind.
    HoldBrowser,
    /// The `FileBrowser` kind.
    FileBrowser,
    /// The `CheckBrowser` kind.
    CheckBrowser,
    /// The `MultiBrowser` kind.
    MultiBrowser,
    /// The `Table` kind.
    Table,
    /// The `TableRow` kind.
    TableRow,
    /// The `Tree` kind.
    Tree,
    /// The `Spinner` kind.
    Spinner,
    /// The `Chart` kind.
    Chart,
    /// The `Progress` kind.
    Progress,
    /// The `InputChoice` kind.
    InputChoice,
    /// The `HelpView` kind.
    HelpView,
}

/// What the registry resolves a type tag to: a kind for the tags it
/// knows, nothing for every other string.
#[verifier::opaque]
pub open spec fn kind_of(s: Seq<char>) -> Option<WidgetKind> {
    if s == "Column"@ {
        Some(WidgetKind::Column)
    } else if s == "Row"@ {
        Some(WidgetKind::Row)
    } else if s == "Button"@ {
        Some(WidgetKind::Button)
    } else if s == "CheckButton"@ {
        Some(WidgetKind::CheckButton)
    } else if s == "RadioButton"@ {
        Some(WidgetKind::RadioButton)
    } else if s == "ToggleButton"@ {
        Some(WidgetKind::ToggleButton)
    } else if s == "RadioRoundButton"@ {
        Some(WidgetKind::RadioRoundButton)
    } else if s == "ReturnButton"@ {
        Some(WidgetKind::ReturnButton)
    } else if s == "Frame"@ {
        Some(WidgetKind::Frame)
    } else if s == "Group"@ {
        Some(WidgetKind::Group)
    } else if s == "Pack"@ {
        Some(WidgetKind::Pack)
    } else if s == "Tile"@ {
        Some(WidgetKind::Tile)
    } else if s == "Tabs"@ {
        Some(WidgetKind::Tabs)
    } else if s == "Scroll"@ {
        Some(WidgetKind::Scroll)
    } else if s == "ColorChooser"@ {
        Some(WidgetKind::ColorChooser)
    } else if s == "TextDisplay"@ {
        Some(WidgetKind::TextDisplay)
    } else if s == "TextEditor"@ {
        Some(WidgetKind::TextEditor)
    } else if s == "Input"@ {
        Some(WidgetKind::Input)
    } else if s == "IntInput"@ {
        Some(WidgetKind::IntInput)
    } else if s == "FloatInput"@ {
        Some(WidgetKind::FloatInput)
    } else if s == "SecretInput"@ {
        Some(WidgetKind::SecretInput)
    } else if s == "FileInput"@ {
        Some(WidgetKind::FileInput)
    } else if s == "MultilineInput"@ {
        Some(WidgetKind::MultilineInput)
    } else if s == "Output"@ {
        Some(WidgetKind::Output)
    } else if s == "MultilineOutput"@ {
        Some(WidgetKind::MultilineOutput)
    } else if s == "MenuBar"@ {
        Some(WidgetKind::MenuBar)
    } else if s == "SysMenuBar"@ {
        Some(WidgetKind::SysMenuBar)
    } else if s == "Choice"@ {
        Some(WidgetKind::Choice)
    } else if s == "Slider"@ {
        Some(WidgetKind::Slider)
    } else if s == "NiceSlider"@ {
        Some(WidgetKind::NiceSlider)
    } else if s == "FillSlider"@ {
        Some(WidgetKind::FillSlider)
    } else if s == "ValueSlider"@ {
        Some(WidgetKind::ValueSlider)
    } else if s == "Dial"@ {
        Some(WidgetKind::Dial)
    } else if s == "LineDial"@ {
        Some(WidgetKind::LineDial)
    } else if s == "FillDial"@ {
        Some(WidgetKind::FillDial)
    } else if s == "Counter"@ {
        Some(WidgetKind::Counter)
    } else if s == "Scrollbar"@ {
        Some(WidgetKind::Scrollbar)
    } else if s == "Roller"@ {
        Some(WidgetKind::Roller)
    } else if s == "Adjuster"@ {
        Some(WidgetKind::Adjuster)
    } else if s == "ValueInput"@ {
        Some(WidgetKind::ValueInput)
    } else if s == "ValueOutput"@ {
        Some(WidgetKind::ValueOutput)
    } else if s == "HorSlider"@ {
        Some(WidgetKind::HorSlider)
    } else if s == "HorNiceSlider"@ {
        Some(WidgetKind::HorNiceSlider)
    } else if s == "HorFillSlider"@ {
        Some(WidgetKind::HorFillSlider)
    } else if s == "HorValueSlider"@ {
        Some(WidgetKind::HorValueSlider)
    } else if s == "Browser"@ {
        Some(WidgetKind::Browser)
    } else if s == "SelectBrowser"@ {
        Some(WidgetKind::SelectBrowser)
    } else if s == "HoldBrowser"@ {
        Some(WidgetKind::HoldBrowser)
    } else if s == "FileBrowser"@ {
        Some(WidgetKind::FileBrowser)
    } else if s == "CheckBrowser"@ {
        Some(WidgetKind::CheckBrowser)
    } else if s == "MultiBrowser"@ {
        Some(WidgetKind::MultiBrowser)
    } else if s == "Table"@ {
        Some(WidgetKind::Table)
    } else if s == "TableRow"@ {
        Some(WidgetKind::TableRow)
    } else if s == "Tree"@ {
        Some(WidgetKind::Tree)
    } else if s == "Spinner"@ {
        Some(WidgetKind::Spinner)
    } else if s == "Chart"@ {
        Some(WidgetKind::Chart)
    } else if s == "Progress"@ {
        Some(WidgetKind::Progress)
    } else if s == "InputChoice"@ {
        Some(WidgetKind::InputChoice)
    } else if s == "HelpView"@ {
        Some(WidgetKind::HelpView)
    } else {
        None
    }
}

/// Resolves a type tag against the registry.
pub fn kind_of_tag(tag: &str) -> (r: Option<WidgetKind>)
    ensures
        r == kind_of(tag@),
{
    proof {
        reveal(crate::kinds::kind_of);
    }
    if str_eq(tag, "Column") {
        Some(WidgetKind::Column)
    } else if str_eq(tag, "Row") {
        Some(WidgetKind::Row)
    } else if str_eq(tag, "Button") {
        Some(WidgetKind::Button)
    } else if str_eq(tag, "CheckButton") {
        Some(WidgetKind::CheckButton)
    } else if str_eq(tag, "RadioButton") {
        Some(WidgetKind::RadioButton)
    } else if str_eq(tag, "ToggleButton") {
        Some(WidgetKind::ToggleButton)
    } else if str_eq(tag, "RadioRoundButton") {
        Some(WidgetKind::RadioRoundButton)
    } else if str_eq(tag, "ReturnButton") {
        Some(WidgetKind::ReturnButton)
    } else if str_eq(tag, "Frame") {
        Some(WidgetKind::Frame)
    } else if str_eq(tag, "Group") {
        Some(WidgetKind::Group)
    } else if str_eq(tag, "Pack") {
        Some(WidgetKind::Pack)
    } else if str_eq(tag, "Tile") {
        Some(WidgetKind::Tile)
    } else if str_eq(tag, "Tabs") {
        Some(WidgetKind::Tabs)
    } else if str_eq(tag, "Scroll") {
        Some(WidgetKind::Scroll)
    } else if str_eq(tag, "ColorChooser") {
        Some(WidgetKind::ColorChooser)
    } else if str_eq(tag, "TextDisplay") {
        Some(WidgetKind::TextDisplay)
    } else if str_eq(tag, "TextEditor") {
        Some(WidgetKind::TextEditor)
    } else if str_eq(tag, "Input") {
        Some(WidgetKind::Input)
    } else if str_eq(tag, "IntInput") {
        Some(WidgetKind::IntInput)
    } else if str_eq(tag, "FloatInput") {
        Some(WidgetKind::FloatInput)
    } else if str_eq(tag, "SecretInput") {
        Some(WidgetKind::SecretInput)
    } else if str_eq(tag, "FileInput") {
        Some(WidgetKind::FileInput)
    } else if str_eq(tag, "MultilineInput") {
        Some(WidgetKind::MultilineInput)
    } else if str_eq(tag, "Output") {
        Some(WidgetKind::Output)
    } else if str_eq(tag, "MultilineOutput") {
        Some(WidgetKind::MultilineOutput)
    } else if str_eq(tag, "MenuBar") {
        Some(WidgetKind::MenuBar)
    } else if str_eq(tag, "SysMenuBar") {
        Some(WidgetKind::SysMenuBar)
    } else if str_eq(tag, "Choice") {
        Some(WidgetKind::Choice)
    } else if str_eq(tag, "Slider") {
        Some(WidgetKind::Slider)
    } else if str_eq(tag, "NiceSlider") {
        Some(WidgetKind::NiceSlider)
    } else if str_eq(tag, "FillSlider") {
        Some(WidgetKind::FillSlider)
    } else if str_eq(tag, "ValueSlider") {
        Some(WidgetKind::ValueSlider)
    } else if str_eq(tag, "Dial") {
        Some(WidgetKind::Dial)
    } else if str_eq(tag, "LineDial") {
        Some(WidgetKind::LineDial)
    } else if str_eq(tag, "FillDial") {
        Some(WidgetKind::FillDial)
    } else if str_eq(tag, "Counter") {
        Some(WidgetKind::Counter)
    } else if str_eq(tag, "Scrollbar") {
        Some(WidgetKind::Scrollbar)
    } else if str_eq(tag, "Roller") {
        Some(WidgetKind::Roller)
    } else if str_eq(tag, "Adjuster") {
        Some(WidgetKind::Adjuster)
    } else if str_eq(tag, "ValueInput") {
        Some(WidgetKind::ValueInput)
    } else if str_eq(tag, "ValueOutput") {
        Some(WidgetKind::ValueOutput)
    } else if str_eq(tag, "HorSlider") {
        Some(WidgetKind::HorSlider)
    } else if str_eq(tag, "HorNiceSlider") {
        Some(WidgetKind::HorNiceSlider)
    } else if str_eq(tag, "HorFillSlider") {
        Some(WidgetKind::HorFillSlider)
    } else if str_eq(tag, "HorValueSlider") {
        Some(WidgetKind::HorValueSlider)
    } else if str_eq(tag, "Browser") {
        Some(WidgetKind::Browser)
    } else if str_eq(tag, "SelectBrowser") {
        Some(WidgetKind::SelectBrowser)
    } else if str_eq(tag, "HoldBrowser") {
        Some(WidgetKind::HoldBrowser)
    } else if str_eq(tag, "FileBrowser") {
        Some(WidgetKind::FileBrowser)
    } else if str_eq(tag, "CheckBrowser") {
        Some(WidgetKind::CheckBrowser)
    } else if str_eq(tag, "MultiBrowser") {
        Some(WidgetKind::MultiBrowser)
    } else if str_eq(tag, "Table") {
        Some(WidgetKind::Table)
    } else if str_eq(tag, "TableRow") {
        Some(WidgetKind::TableRow)
    } else if str_eq(tag, "Tree") {
        Some(WidgetKind::Tree)
    } else if str_eq(tag, "Spinner") {
        Some(WidgetKind::Spinner)
    } else if str_eq(tag, "Chart") {
        Some(WidgetKind::Chart)
    } else if str_eq(tag, "Progress") {
        Some(WidgetKind::Progress)
    } else if str_eq(tag, "InputChoice") {
        Some(WidgetKind::InputChoice)
    } else if str_eq(tag, "HelpView") {
        Some(WidgetKind::HelpView)
    } else {
        None
    }
}
/// The kinds that accumulate subsequently constructed widgets as children
/// until their scope is closed.
pub open spec fn is_container(k: WidgetKind) -> bool {
    ||| k is Column
    ||| k is Row
    ||| k is Group
    ||| k is Pack
    ||| k is Tile
    ||| k is Tabs
    ||| k is Scroll
    ||| k is ColorChooser
    ||| k is TextDisplay
    ||| k is TextEditor
    ||| k is Browser
    ||| k is SelectBrowser
    ||| k is HoldBrowser
    ||| k is FileBrowser
    ||| k is CheckBrowser
    ||| k is MultiBrowser
    ||| k is Table
    ||| k is TableRow
    ||| k is Tree
    ||| k is Spinner
    ||| k is InputChoice
    ||| k is HelpView
}

/// The directional flexible containers, which distribute space among
/// their children and honor per-child fixed sizes.
pub open spec fn is_flex(k: WidgetKind) -> bool {
    ||| k is Column
    ||| k is Row
}

/// The button kinds, which accept a pressed frame style and a shortcut
/// key on top of the common attributes.
pub open spec fn is_button(k: WidgetKind) -> bool {
    ||| k is Button
    ||| k is CheckButton
    ||| k is RadioButton
    ||| k is ToggleButton
    ||| k is RadioRoundButton
    ||| k is ReturnButton
}

/// The range controls with a minimum, maximum, step and slider-thumb
/// size.
pub open spec fn is_range(k: WidgetKind) -> bool {
    ||| k is Slider
    ||| k is NiceSlider
    ||| k is FillSlider
    ||| k is ValueSlider
    ||| k is Scrollbar
    ||| k is HorSlider
    ||| k is HorNiceSlider
    ||| k is HorFillSlider
    ||| k is HorValueSlider
}

/// The kinds that style text through a color, font and size.
pub open spec fn is_text(k: WidgetKind) -> bool {
    ||| k is TextDisplay
    ||| k is TextEditor
    ||| k is Input
    ||| k is IntInput
    ||| k is FloatInput
    ||| k is SecretInput
    ||| k is FileInput
    ||| k is MultilineInput
    ||| k is Output
    ||| k is MultilineOutput
    ||| k is MenuBar
    ||| k is SysMenuBar
    ||| k is Choice
    ||| k is ValueSlider
    ||| k is ValueInput
    ||| k is ValueOutput
    ||| k is HorValueSlider
    ||| k is CheckBrowser
    ||| k is Spinner
    ||| k is Chart
    ||| k is InputChoice
    ||| k is HelpView
}

/// The kinds that own an editable text buffer, created before their
/// text attributes are applied.
pub open spec fn has_buffer(k: WidgetKind) -> bool {
    ||| k is TextDisplay
    ||| k is TextEditor
}

/// The capability set of a concrete widget kind: which optional
/// attribute groups apply to it.
#[derive(Clone, Copy, Debug, PartialEq, Eq, Structural)]
pub struct Caps {
    /// Accumulates children until its scope is closed.
    pub container: bool,
    /// Directional flexible container.
    pub flex: bool,
    /// Accepts a pressed frame style and a shortcut key.
    pub button: bool,
    /// Range control.
    pub range: bool,
    /// Styles text.
    pub text: bool,
    /// Owns an editable text buffer.
    pub buffer: bool,
}

/// The capability set that the registry assigns to a kind.
pub fn caps_of(k: WidgetKind) -> (c: Caps)
    ensures
        c.container == is_container(k),
        c.flex == is_flex(k),
        c.button == is_button(k),
        c.range == is_range(k),
        c.text == is_text(k),
        c.buffer == has_buffer(k),
{
    Caps {
        container: matches!(k, WidgetKind::Column | WidgetKind::Row | WidgetKind::Group | WidgetKind::Pack | WidgetKind::Tile | WidgetKind::Tabs | WidgetKind::Scroll | WidgetKind::ColorChooser | WidgetKind::TextDisplay | WidgetKind::TextEditor | WidgetKind::Browser | WidgetKind::SelectBrowser | WidgetKind::HoldBrowser | WidgetKind::FileBrowser | WidgetKind::CheckBrowser | WidgetKind::MultiBrowser | WidgetKind::Table | WidgetKind::TableRow | WidgetKind::Tree | WidgetKind::Spinner | WidgetKind::InputChoice | WidgetKind::HelpView),
        flex: matches!(k, WidgetKind::Column | WidgetKind::Row),
        button: matches!(k, WidgetKind::Button | WidgetKind::CheckButton | WidgetKind::RadioButton | WidgetKind::ToggleButton | WidgetKind::RadioRoundButton | WidgetKind::ReturnButton),
        range: matches!(k, WidgetKind::Slider | WidgetKind::NiceSlider | WidgetKind::FillSlider | WidgetKind::ValueSlider | WidgetKind::Scrollbar | WidgetKind::HorSlider | WidgetKind::HorNiceSlider | WidgetKind::HorFillSlider | WidgetKind::HorValueSlider),
        text: matches!(k, WidgetKind::TextDisplay | WidgetKind::TextEditor | WidgetKind::Input | WidgetKind::IntInput | WidgetKind::FloatInput | WidgetKind::SecretInput | WidgetKind::FileInput | WidgetKind::MultilineInput | WidgetKind::Output | WidgetKind::MultilineOutput | WidgetKind::MenuBar | WidgetKind::SysMenuBar | WidgetKind::Choice | WidgetKind::ValueSlider | WidgetKind::ValueInput | WidgetKind::ValueOutput | WidgetKind::HorValueSlider | WidgetKind::CheckBrowser | WidgetKind::Spinner | WidgetKind::Chart | WidgetKind::InputChoice | WidgetKind::HelpView),
        buffer: matches!(k, WidgetKind::TextDisplay | WidgetKind::TextEditor),
    }
}

} // verus!
