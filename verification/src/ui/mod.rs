//! Models that the rendering layer reads.

pub mod details;
pub mod input;
pub mod log_view;
pub mod task_list;

pub use details::format_duration;
pub use input::TextInput;
pub use task_list::truncate_string;
