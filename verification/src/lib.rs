//! Bookmarks of web pages as Markdown files.
//!
//! Given a URL, the library decides how the page becomes a bookmark: which
//! record is kept of it ([`record`]), what its file is called ([`filename`]),
//! and in which order the store is asked to make the folder, to look the file
//! up and to create it ([`persist`]). Given a document, it finds the links
//! ([`scan`]) and bookmarks them one after the other ([`batch`]); given a
//! selection or a clipboard, it bookmarks the one URL found there
//! ([`extract`]).
//!
//! The library does no input or output. What is to be read, fetched or
//! written it hands to its host as a request, and the host comes back with
//! what happened ([`host`]). Every step is a function from the state of a
//! protocol and the host's report to the next state and the next request, and
//! each such function is proved to do what its mathematical description says.
//! What whole runs of the protocols come to is proved in [`runs`], for every
//! host, and in [`store`], for a store that never fails.
//!
//! Four engines are taken from other crates as they are: the pattern engine
//! that cleans titles, the URL parser, the markup parser and the link finder.
//! They stand behind the functions of [`adapters`], which are believed, not
//! proved.

pub mod adapters;
pub mod batch;
pub mod capture;
pub mod commands;
pub mod errors;
pub mod extract;
pub mod filename;
pub mod host;
pub mod persist;
pub mod record;
pub mod runs;
pub mod scan;
pub mod settings;
pub mod store;
pub mod text;
