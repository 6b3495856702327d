//! Verified core of a downloader for serialized web novels: chapter HTML is
//! turned into Markdown, novel metadata is decoded from a JSON payload, and
//! the chapter range and retry decisions are made by verified functions.
//! Network and file I/O live outside the library and only hand plain values
//! in and out.

pub mod cli;
pub mod data;
pub mod extract;
pub mod fetch;
pub mod html;
pub mod json;
pub mod text;
pub mod urls;
