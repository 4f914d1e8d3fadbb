//! The command mode of an image browser: the textual commands a user types
//! while browsing, and what each of them does to the session.
//!
//! A session is an ordered list of image paths, the selected position in it,
//! the cap on how many images are shown at once, and the folder that kept
//! images go to. Every command either changes the session as its contract
//! states, or leaves it as it was and reports why.

pub mod text;

pub mod error;

pub mod command;

pub mod path;

pub mod globber;

pub mod session;

pub mod reader;

pub mod program;

pub mod laws;
