pub mod event;
pub mod store;
