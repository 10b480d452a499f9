//! QuickBlog: accounts, bearer tokens and article summaries, with the
//! decisions of the API server and of the browser client.
pub mod text;
pub mod errors;
pub mod account;
pub mod token;
pub mod summary;
pub mod history;
pub mod display;
pub mod client;
pub mod config;
