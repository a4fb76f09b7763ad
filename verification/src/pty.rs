pub mod ansi;
pub mod supervisor;
