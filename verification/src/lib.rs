//! The logic of a desktop front end that drives a media download tool as a
//! subprocess: supervising that one process, splitting and decoding what it
//! prints, checking the helper tools it needs and answering the small local
//! bridge through which a browser hands over URLs.

pub mod bridge;
pub mod command;
pub mod decode;
pub mod download;
pub mod events;
pub mod files;
pub mod launch;
pub mod lines;
pub mod platform;
pub mod settings;
pub mod supervisor;
pub mod table;
pub mod text;
pub mod verify;
