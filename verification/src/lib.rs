//! Viewing and tracking Litematica material lists.
//!
//! A material list names every block a build needs and how many are still
//! missing. This library keeps the loaded list, the user's progress on each
//! row, the rows hidden automatically (unobtainable blocks and the items the
//! user chose to hide), and decides what each page shows and what the
//! application does in reaction to every message. Files, dialogs, downloads
//! and drawing are left to the program around it.
pub mod application;
pub mod config;
pub mod material_list;
pub mod pages;
pub mod text;
pub mod widgets;
