pub mod text;
pub mod cli;
pub mod config;
pub mod hotkey;
pub mod terminal;
pub mod conn;
pub mod db;
pub mod filter;
pub mod tui;
pub mod watcher;
pub mod daemon;
pub mod clipboard;
pub mod service;
