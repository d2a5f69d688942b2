//! The widgets. Each is a value that is configured by chained calls and
//! then declared once with `ui`, inside a window.

pub mod button;
pub mod tabbar;
pub mod texture;
pub mod tree_node;
pub mod window;
