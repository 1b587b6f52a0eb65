pub mod database;
pub mod feed;
