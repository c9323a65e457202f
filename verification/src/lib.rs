//! Verified core of the DeepSeek Harness desktop shell.
pub mod text;
pub mod civil;
pub mod timestamp;
pub mod base64;
pub mod version;
pub mod paths;
pub mod bootstrap;
pub mod runner;
pub mod discovery;
pub mod output;
pub mod i18n;
pub mod ui;
pub mod prompt;
pub mod logs;
pub mod json;
pub mod pages;
pub mod titlebar;
