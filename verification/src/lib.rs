//! Mirrors the content tree of an ILIAS installation onto a local directory
//! tree.
//!
//! The library holds what is decided and computed on the way: it classifies
//! hyperlinks as content nodes, reads listings, forum tables, thread pages
//! and player pages, chooses the destination of every node, steps the
//! content handlers from one request to the next, and keeps the count of
//! the tasks that wait and of those at work. It fetches nothing and writes
//! nothing: who uses it performs the requests that the handlers make.
//!
//! - [`text`], [`util`]: strings by their characters; file-name sanitising.
//! - [`address`], [`reference`], [`object`]: addresses, reference
//!   descriptors, content nodes and the link classifier.
//! - [`page`], [`pattern`]: markup, regular expressions and JSON, read by
//!   `scraper`, `regex` and `serde_json`.
//! - [`gather`], [`listing`], [`course`], [`video`], [`forum`], [`posts`],
//!   [`login`]: what each kind of page holds.
//! - [`task`], [`scheduler`], [`process`]: crawl tasks, the scheduler and
//!   the handlers.

pub mod address;
pub mod course;
pub mod error;
pub mod forum;
pub mod gather;
pub mod listing;
pub mod login;
pub mod object;
pub mod page;
pub mod pattern;
pub mod posts;
pub mod process;
pub mod reference;
pub mod scheduler;
pub mod task;
pub mod text;
pub mod util;
pub mod video;
