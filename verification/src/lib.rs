pub mod conversion;
pub mod grammar;
pub mod path;
pub mod path_selection;
pub mod session;
pub mod text;
