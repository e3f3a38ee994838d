//! Decisions of a background downloader that turns a backlog of comics, chapters
//! and pages into image files: control signals, the chapter walk, page batches
//! drained by a pool of workers, image inspection and output paths.

pub mod batch;
pub mod cache_key;
pub mod control;
pub mod media;
pub mod pages;
pub mod paths;
pub mod schedule;
