//! Rotation of RGBA images by 90 degrees clockwise, and the bookkeeping of a
//! batch of such rotations: the tasks of a directory, the progress of a run
//! and its final report.
//!
//! The pixel buffers are those of the `image` crate. Reading and writing
//! files, and the worker threads, are left to the program that uses this
//! library.

pub mod buffer;
pub mod error;
pub mod grid;
pub mod progress;
pub mod report;
pub mod rotate;
pub mod task;

pub use buffer::Raster;
pub use error::ErrorKind;
pub use grid::{Grid, Pixel};
pub use progress::{status_line, ProgressEvent, ProgressState};
pub use report::{exit_status, summarize, BatchReport, Failure, TaskRecord};
pub use rotate::rotate_clockwise_90;
pub use task::{
    after_decode, after_encode, begin_run, plan_tasks, worker_count, Entry, EntryKind, FileTask,
    NextStep,
};
