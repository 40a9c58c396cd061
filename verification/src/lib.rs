//! Backend of a feed reader.
//!
//! [`supervisor`] keeps the external worker process of the application running: it decides
//! how the worker is launched, when its port is known, and when it is restarted or given up.
//! [`rss`], [`db`], [`translate`] and [`commands`] hold the rules by which feeds become
//! articles, articles are stored and listed, and texts are translated. The library itself
//! reads no file, opens no connection and starts no process: it is handed what was read, and
//! says what to do next.

pub mod commands;
pub mod db;
pub mod json;
pub mod rss;
pub mod supervisor;
pub mod system;
pub mod text;
pub mod translate;
