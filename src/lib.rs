//! Discovery, transport decisions and selection extraction for an editor
//! bridge that exposes live editor state to an assistant process.
pub mod connection;
pub mod editor;
pub mod json;
pub mod lifecycle;
pub mod lockfile;
pub mod mcp;
pub mod ports;
pub mod selection;
pub mod text;
pub mod tools;
