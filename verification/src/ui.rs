pub mod hit_test;
pub mod left_panel;
pub mod viewport;
