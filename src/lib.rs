pub mod cli;
pub mod filter;
pub mod popup;
pub mod restart;
pub mod session;
pub mod text;
pub mod theme;
pub mod words;
