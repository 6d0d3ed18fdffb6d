//! FuraChat server core: the rules of a self-hosted chat service
//! (permission resolution, presence and room tracking, WebSocket session
//! protocol, invitations, uploads, profile updates), each stated in a
//! contract and proved with Verus.
pub mod permissions;
pub mod hub;
pub mod text;
pub mod error;
pub mod channel;
pub mod message;
pub mod upload;
pub mod session;
pub mod invite;
pub mod user;
pub mod password;
pub mod auth;
pub mod config;
pub mod server;
pub mod archive;
