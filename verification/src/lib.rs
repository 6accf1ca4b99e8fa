//! Verified core of the LibreTube sync server.

pub mod database;
pub mod dto;
pub mod handlers;
pub mod models;
pub mod util;
pub mod youtube;
