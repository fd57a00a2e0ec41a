//! The pages of the application and what they show.
pub mod list_loaded;
pub mod page_list_loaded;
pub mod page_preload;
pub mod preload;
