//! Core logic of an AI dictionary desktop tool: recognising English text on
//! the clipboard, the double Ctrl+C gesture, clipboard monitor settings, and
//! the outcomes of data export and import.
pub mod text;
pub mod monitor;
pub mod listener;
pub mod capture;
pub mod transfer;
pub mod window;
