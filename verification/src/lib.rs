pub mod db;
pub mod handlers;
