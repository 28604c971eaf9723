//! Verified core of a desktop speech-to-text tool.
//!
//! The crate holds the decisions of the tool and none of its input or output:
//! which model file a name stands for, how decoded audio becomes the mono
//! buffer that the recognition engine takes, what the transcription and
//! download workers do after each outside step, and how the controller turns
//! the workers' messages into the status that a front end shows.

pub mod audio;
pub mod controller;
pub mod download;
pub mod mailbox;
pub mod messages;
pub mod models;
pub mod text;
pub mod worker;
