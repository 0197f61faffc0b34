//! Decision logic of an offer and auction service: accounts, sessions,
//! offers, purchases and bids. Every request handler is a pure step
//! function here; the program around the library performs the database
//! work and the network exchange that the steps ask for.

pub mod status;
pub mod price;
pub mod text;
pub mod model;
pub mod credentials;
pub mod auth;
pub mod listing;
pub mod buying;
pub mod posting;
pub mod managing;
pub mod viewing;
pub mod endpoints;
pub mod session;
