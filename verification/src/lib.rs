//! Core logic of a small house-building game: the pause state machine,
//! the pause-menu button behaviour, and the menu layout data.
//!
//! The host game engine drives input, rendering and entity storage; this
//! crate holds the decisions the game makes, each with a proved contract.


mod layout;
mod menu;
mod state;

pub use layout::Alignment;
pub use layout::FlowDirection;
pub use layout::MenuEntry;
pub use layout::MenuLayout;
pub use layout::Rgb;
pub use layout::black;
pub use layout::pause_menu_layout;
pub use layout::red;
pub use layout::white;
pub use menu::BUTTON_HOVERED_WIDTH_PX;
pub use menu::BUTTON_WIDTH_PX;
pub use menu::ButtonAction;
pub use menu::ButtonInteraction;
pub use menu::MenuCommand;
pub use menu::apply_menu_command;
pub use menu::button_response;
pub use menu::button_response_spec;
pub use menu::lemma_menu_tracks_state;
pub use menu::lemma_quit_only_on_press;
pub use menu::menu_command;
pub use menu::menu_command_spec;
pub use menu::menu_visible_in;
pub use state::GameState;
pub use state::lemma_toggled_changes;
pub use state::lemma_toggled_involutive;
pub use state::next_state;
pub use state::toggle;
pub use state::toggled;
