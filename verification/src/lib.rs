//! The decision-making core of a distributed audio transcoding worker.

pub mod bucket_allocator;
pub mod bucket_id;
pub mod db;
pub mod path;
pub mod queue;
pub mod sync_update;
pub mod temp_allocator;
pub mod text;
pub mod time;
pub mod transcoder;
pub mod worker;
