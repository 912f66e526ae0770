//! Skill-rating core for a competitive-matchmaking statistics service.

pub mod cdf;
pub mod chars;
pub mod common;
pub mod history;
pub mod laws;
pub mod models;
pub mod player;
pub mod rating;
pub mod search;
pub mod service;
pub mod sqrt;
pub mod stats;
pub mod sync;
pub mod top;
