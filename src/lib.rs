pub mod command;
pub mod elicit;
pub mod session;
pub mod text;
