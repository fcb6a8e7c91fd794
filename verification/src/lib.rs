//! Suggestion aggregation and action dispatch for a desktop launcher.
//!
//! From the text that the user has typed, the engine in [`suggestions`]
//! computes an ordered list of candidates: the entries of the application
//! catalog whose title contains the text, followed by what the providers of
//! [`providers`] make of it (folders, calculator, base64, unit conversion,
//! web search, command line). Running a candidate yields the effect that the
//! host has to carry out.
//!
//! The library touches neither the file system nor any service. What it needs
//! to know of the machine is handed to it as plain values, and what is to
//! happen on the machine is handed back in the same way.

pub mod conversionutil;
pub mod laws;
pub mod mathutils;
pub mod providers;
pub mod sessionmgr;
pub mod suggestions;
pub mod sysaction;
pub mod sysinfo;
pub mod text;
