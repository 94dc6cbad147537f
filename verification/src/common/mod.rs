pub mod api;
pub mod clock;
pub mod errors;
pub mod jwt;
pub mod payload;
pub mod utils;
