//! Keeps a media-transcoding binary available on the host and plans the jobs
//! that are run with it: lexical path normalisation, the acquisition state
//! machine, staging-file names, and the argument vectors and outcomes of
//! remux, transcode and trim jobs.

pub mod acquisition;
pub mod error;
pub mod jobs;
pub mod path;
pub mod platform;
pub mod source;
pub mod staging;
pub mod text;
