//! An immediate-mode GUI toolkit on an integer pixel grid.
//!
//! Every frame the application declares its windows and widgets again; the
//! toolkit places them, tests them against the pointer, records draw commands
//! and keeps the little state that has to survive between frames under the
//! identifier the caller gave. Each operation carries a contract over the
//! view of the [`Ui`](ui::Ui) context.

pub mod draw_command;
pub mod style;
pub mod types;
pub mod ui;
pub mod widgets;

pub use draw_command::{Alignment, CommandsList, DrawCommand, TextMetrics};
pub use style::Style;
pub use types::{Color, Id, Rect, Vec2};
pub use ui::cursor::{Cursor, Layout};
pub use ui::input::{Input, InputCharacter, Key, KeyCode};
pub use ui::storage::Storage;
pub use ui::window_state::WindowState;
pub use ui::Ui;
pub use widgets::button::Button;
pub use widgets::tabbar::Tabbar;
pub use widgets::texture::Texture;
pub use widgets::tree_node::{TreeNode, TreeNodeToken};
pub use widgets::window::{Window, WindowToken};
