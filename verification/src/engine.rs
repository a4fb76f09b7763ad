pub mod panel_manager;
pub mod project;
pub mod session_manager;
