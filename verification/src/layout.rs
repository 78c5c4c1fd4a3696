//! The pause menu's layout: the texts, sizes, colors, alignments and
//! offsets its widgets are built from, and the order they stack in. The
//! engine turns these plain values into widgets; the values themselves,
//! and what makes them renderable, live here.

use vstd::prelude::*;

use crate::menu::BUTTON_HOVERED_WIDTH_PX;
use crate::menu::BUTTON_WIDTH_PX;

verus! {

/// The axis a container stacks its children along.
#[derive(Clone, Copy, PartialEq, Eq, Structural, Debug)]
pub enum FlowDirection {
    /// Children sit side by side.
    Row,
    /// Children stack top to bottom.
    Column,
}

/// Where content sits along an axis of its container.
#[derive(Clone, Copy, PartialEq, Eq, Structural, Debug)]
pub enum Alignment {
    Start,
    Center,
    End,
}

/// A color, one byte per channel.
#[derive(Clone, Copy, PartialEq, Eq, Structural, Debug)]
pub struct Rgb {
    pub r: u8,
    pub g: u8,
    pub b: u8,
}

/// The color the title's text is drawn in.
pub open spec fn white() -> Rgb {
    Rgb { r: 255, g: 255, b: 255 }
}

/// The color behind the title.
pub open spec fn red() -> Rgb {
    Rgb { r: 255, g: 0, b: 0 }
}

/// The color of the button's border and of its label.
pub open spec fn black() -> Rgb {
    Rgb { r: 0, g: 0, b: 0 }
}

/// The widgets the pause menu shows inside its root node.
#[derive(Clone, Copy, PartialEq, Eq, Structural, Debug)]
pub enum MenuEntry {
    /// The game's title.
    Title,
    /// The button that quits the game.
    QuitButton,
}

/// Everything the pause menu is built from: a full-screen column holding
/// a title and a quit button, each at an offset from the top, with the
/// texts drawn in one font.
pub struct MenuLayout {
    /// Asset path of the font both texts are drawn in.
    pub font_path: String,
    /// The axis the root node stacks the widgets along.
    pub root_direction: FlowDirection,
    /// Where the root node puts the widgets across that axis.
    pub root_align_items: Alignment,
    /// Width of the menu's root node, as a percentage of the window.
    pub root_width_percent: u64,
    /// Height of the menu's root node, as a percentage of the window.
    pub root_height_percent: u64,
    /// The widgets inside the root node, topmost first.
    pub children_top_down: Vec<MenuEntry>,
    /// The title's text.
    pub title_text: String,
    /// The title's font size, in pixels.
    pub title_font_px: u64,
    /// The color the title's text is drawn in.
    pub title_color: Rgb,
    /// The color behind the title's text.
    pub title_background: Rgb,
    /// How the title's text is justified within its node.
    pub title_justify: Alignment,
    /// The title's offset from the top, as a percentage of the window.
    pub title_top_percent: u64,
    /// The quit button's label.
    pub button_label: String,
    /// The label's font size, in pixels.
    pub button_font_px: u64,
    /// The color the label is drawn in.
    pub button_label_color: Rgb,
    /// The button's offset from the top, as a percentage of the window.
    pub button_top_percent: u64,
    /// The button's resting width, in pixels.
    pub button_width_px: u64,
    /// The button's width while hovered, in pixels.
    pub button_hovered_width_px: u64,
    /// The button's height, in pixels.
    pub button_height_px: u64,
    /// The width of the button's border, in pixels.
    pub button_border_px: u64,
    /// The color of the button's border.
    pub button_border_color: Rgb,
    /// Where the button puts its label along the main axis.
    pub button_justify_content: Alignment,
    /// Where the button puts its label across the main axis.
    pub button_align_items: Alignment,
}

impl MenuLayout {
    /// A layout the menu can render: the root fills the window, it shows
    /// the title and the quit button each exactly once, the texts are
    /// legible, hovering widens the button, and the button's border
    /// leaves room for its label.
    pub open spec fn wf(self) -> bool {
        &&& self.root_width_percent == 100
        &&& self.root_height_percent == 100
        &&& self.children_top_down@.len() == 2
        &&& self.children_top_down@.contains(MenuEntry::Title)
        &&& self.children_top_down@.contains(MenuEntry::QuitButton)
        &&& self.title_top_percent <= 100
        &&& self.button_top_percent <= 100
        &&& 0 < self.title_font_px
        &&& 0 < self.button_font_px
        &&& 0 < self.button_width_px < self.button_hovered_width_px
        &&& 0 < self.button_height_px
        &&& 2 * self.button_border_px < self.button_width_px
        &&& 2 * self.button_border_px < self.button_height_px
    }
}

/// The layout the game's pause menu is built from: the title, white on
/// red, over a centered black-bordered quit button whose widths are the
/// ones `button_response` switches between.
pub fn pause_menu_layout() -> (m: MenuLayout)
    ensures
        m.wf(),
        m.font_path@ == "fonts/RobotoSlab.ttf"@,
        m.root_direction == FlowDirection::Column,
        m.root_align_items == Alignment::Center,
        m.root_width_percent == 100,
        m.root_height_percent == 100,
        m.children_top_down@ == seq![MenuEntry::Title, MenuEntry::QuitButton],
        m.title_text@ == "House Build Game"@,
        m.title_font_px == 64,
        m.title_color == white(),
        m.title_background == red(),
        m.title_justify == Alignment::Center,
        m.title_top_percent == 20,
        m.button_label@ == "Quit"@,
        m.button_font_px == 48,
        m.button_label_color == black(),
        m.button_top_percent == 30,
        m.button_width_px == BUTTON_WIDTH_PX,
        m.button_hovered_width_px == BUTTON_HOVERED_WIDTH_PX,
        m.button_height_px == 65,
        m.button_border_px == 5,
        m.button_border_color == black(),
        m.button_justify_content == Alignment::Center,
        m.button_align_items == Alignment::Center,
{
    let mut children: Vec<MenuEntry> = Vec::new();
    children.push(MenuEntry::Title);
    children.push(MenuEntry::QuitButton);
    proof {
        assert(children@ =~= seq![MenuEntry::Title, MenuEntry::QuitButton]);
        assert(children@[0] == MenuEntry::Title);
        assert(children@[1] == MenuEntry::QuitButton);
    }
    MenuLayout {
        font_path: "fonts/RobotoSlab.ttf".to_owned(),
        root_direction: FlowDirection::Column,
        root_align_items: Alignment::Center,
        root_width_percent: 100,
        root_height_percent: 100,
        children_top_down: children,
        title_text: "House Build Game".to_owned(),
        title_font_px: 64,
        title_color: Rgb { r: 255, g: 255, b: 255 },
        title_background: Rgb { r: 255, g: 0, b: 0 },
        title_justify: Alignment::Center,
        title_top_percent: 20,
        button_label: "Quit".to_owned(),
        button_font_px: 48,
        button_label_color: Rgb { r: 0, g: 0, b: 0 },
        button_top_percent: 30,
        button_width_px: BUTTON_WIDTH_PX,
        button_hovered_width_px: BUTTON_HOVERED_WIDTH_PX,
        button_height_px: 65,
        button_border_px: 5,
        button_border_color: Rgb { r: 0, g: 0, b: 0 },
        button_justify_content: Alignment::Center,
        button_align_items: Alignment::Center,
    }
}

} // verus!
