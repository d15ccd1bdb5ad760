pub mod codec;
pub mod read_history;
pub mod save_data;

pub use read_history::ReadHistory;
pub use save_data::SaveData;
