pub mod handler;
pub mod keybinds;
