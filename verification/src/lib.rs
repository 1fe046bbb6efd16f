pub mod buffer;
pub mod command;
pub mod editor;
pub mod event;
pub mod term;
pub mod text;
pub mod view;
