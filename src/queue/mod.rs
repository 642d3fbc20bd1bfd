pub mod manager;
pub mod task;
