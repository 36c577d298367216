//! Verified core of a room-based image and comment board: identifiers and
//! their text forms, storage keys, access tokens, request guards and the
//! decisions taken by the request handlers.

pub mod crypto;
pub mod engine;
pub mod guards;
pub mod ids;
pub mod keys;
pub mod repository;
pub mod token;
pub mod ws;
