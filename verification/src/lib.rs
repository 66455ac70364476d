//! The indexing and synchronisation core of a personal search engine for
//! Markdown notes.
//!
//! The engine watches directories that the user names, keeps a table of
//! the Markdown files in them and a full-text index of their contents,
//! and brings both in line with the disk: at once when a file changes,
//! and as a whole when a watch is added or the program starts.
//!
//! This crate holds what the engine decides and computes. It reads no
//! database and writes no index: each of its parts takes what the outside
//! world has answered as plain values and says what follows from it.
//! Where an answer is needed in the middle of a computation and can be had
//! by a plain call, the call is made here; such calls are the only code in
//! the crate whose contracts are taken on trust, and each of them says so.
//!
//! The parts, from the leaves up:
//!
//! - `text`, `paths`, `path_string_normalization`: characters, paths as
//!   component lists, and the keys under which paths are stored.
//! - `package_dir`, `document_gatekeeper`: which files are indexed.
//! - `frontmatter`, `markdown`, `language`, `search_document`, `schema`:
//!   what the index holds of one document.
//! - `query`, `search_results`: what is asked of the index and what
//!   comes back.
//! - `document_db_command_processor`, `index_writer`: the single writers
//!   of the two stores.
//! - `document_service`: the order in which a change touches the stores.
//! - `file_watcher`, `watch_event_handler`: from a change on disk to a
//!   change in the stores.
//! - `jobs`, `job_queue`, `job_manager`, `job_steps`, `tasks`,
//!   `scan_watch_job`, `sync_watch_job`, `delete_watch_job`: the
//!   background work and its order.
//! - `watches`, `watch_repository`, `watch_service`, `watch_state_sync`:
//!   the watches and the picture of them that is published.
//! - `store_model`, `convergence`, `count_accuracy`: the two stores as
//!   mathematical values, and what the operations above keep true of
//!   them.

pub mod assets;
pub mod by_time;
pub mod convergence;
pub mod count_accuracy;
pub mod delete_watch_job;
pub mod disk;
pub mod document_db_command_processor;
pub mod document_events;
pub mod document_gatekeeper;
pub mod document_service;
pub mod documents;
pub mod file_watcher;
pub mod frontmatter;
pub mod index_writer;
pub mod japanese_character_normalizer;
pub mod job_manager;
pub mod job_queue;
pub mod job_steps;
pub mod jobs;
pub mod language;
pub mod markdown;
pub mod package_dir;
pub mod path_recommendation;
pub mod path_string_normalization;
pub mod paths;
pub mod query;
pub mod scan_watch_job;
pub mod schema;
pub mod search_document;
pub mod search_results;
pub mod stopwords;
pub mod store_model;
pub mod sync_watch_job;
pub mod tasks;
pub mod text;
pub mod time;
pub mod watch_event_handler;
pub mod watch_repository;
pub mod watch_service;
pub mod watch_state_sync;
pub mod watches;
