pub mod event;
pub mod foreach;
pub mod layout;
pub mod layout_diff;
pub mod text_measurement;
pub mod viewport;
