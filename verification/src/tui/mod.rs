//! The TUI view model: chrome strings, display widths, the option-row widgets' layout and text
//! fitting, and the screen-level decisions. Drawing is the host's part.
pub mod bios_combo;
pub mod bios_textbox;
pub mod embedded;
pub mod padded_button;
pub mod panels;
pub mod progress_bar;
pub mod screens;
pub mod scrollable_tree;
pub mod strings;
pub mod text_marquee;
pub mod text_wrap;
pub mod width;
