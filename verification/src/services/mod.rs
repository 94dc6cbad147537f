pub mod directory;
pub mod task;
pub mod user;
