//! The unit of work: one file to rotate, and the decisions a worker takes on
//! it between the decoding and the encoding.

use crate::buffer::Raster;
use crate::error::ErrorKind;
use crate::report::{RecordView, TaskRecord};
use crate::rotate::rotate_clockwise_90;
use vstd::prelude::*;

verus! {

/// What an entry of the input directory turned out to be.
#[derive(Clone, Copy, Debug, PartialEq, Eq, Hash, Structural)]
pub enum EntryKind {
    /// A regular file.
    File,
    /// A directory.
    Directory,
    /// Anything else, a symbolic link among them.
    Other,
    /// The kind of the entry could not be read.
    Unreadable,
}

/// One entry of the input directory: its path, its base name and its kind.
#[derive(Debug, PartialEq, Eq)]
pub struct Entry {
    pub path: String,
    pub name: String,
    pub kind: EntryKind,
}

/// One file to rotate: the path it is read from, and the base name under
/// which the result is written in the output directory.
#[derive(Debug, PartialEq, Eq)]
pub struct FileTask {
    pub input: String,
    pub name: String,
}

/// A task as contracts see it.
pub struct TaskView {
    pub input: Seq<char>,
    pub name: Seq<char>,
}

impl View for FileTask {
    type V = TaskView;

    open spec fn view(&self) -> TaskView {
        TaskView { input: self.input@, name: self.name@ }
    }
}

impl Entry {
    /// The entry is a regular file, and so becomes a task.
    pub open spec fn retained(self) -> bool {
        self.kind == EntryKind::File
    }
}

/// The tasks of a directory: one for each regular file among its entries,
/// in the order of the entries, under the file's own base name.
pub open spec fn planned(entries: Seq<Entry>) -> Seq<TaskView>
    decreases entries.len(),
{
    if entries.len() == 0 {
        Seq::empty()
    } else if entries.last().retained() {
        planned(entries.drop_last()).push(
            TaskView { input: entries.last().path@, name: entries.last().name@ },
        )
    } else {
        planned(entries.drop_last())
    }
}

/// The tasks as contracts see them.
pub open spec fn task_views(tasks: Seq<FileTask>) -> Seq<TaskView> {
    tasks.map_values(|task: FileTask| task@)
}

/// Builds the tasks of a run from the entries of the input directory.
/// Regular files become tasks; directories, other entries and entries whose
/// kind could not be read are passed over.
pub fn plan_tasks(entries: &Vec<Entry>) -> (tasks: Vec<FileTask>)
    ensures
        task_views(tasks@) == planned(entries@),
{
    let mut tasks: Vec<FileTask> = Vec::new();
    for i in 0..entries.len()
        invariant
            task_views(tasks@) == planned(entries@.take(i as int)),
    {
        proof {
            assert(entries@.take(i + 1).drop_last() == entries@.take(i as int));
            assert(entries@.take(i + 1).last() == entries@[i as int]);
        }
        let entry = &entries[i];
        match entry.kind {
            EntryKind::File => {
                let ghost before = tasks@;
                let task = FileTask { input: entry.path.clone(), name: entry.name.clone() };
                tasks.push(task);
                proof {
                    assert(task_views(tasks@) == task_views(before).push(task@));
                }
            },
            _ => {},
        }
    }
    proof {
        assert(entries@.take(entries.len() as int) == entries@);
    }
    tasks
}

/// Opens a run. The output directory is seen to first: where it could not be
/// made ready the run ends with `OutputDirError`. Where the input directory
/// could not be listed the run ends with `DirectoryAccessError`. Otherwise
/// the run has the tasks of the listing, which may be none.
pub fn begin_run(output_ready: bool, listing: Option<Vec<Entry>>) -> (begun: Result<
    Vec<FileTask>,
    ErrorKind,
>)
    ensures
        match begun {
            Ok(tasks) => {
                &&& output_ready
                &&& listing matches Some(entries)
                &&& task_views(tasks@) == planned(entries@)
            },
            Err(kind) => if !output_ready {
                kind == ErrorKind::OutputDirError
            } else {
                listing is None && kind == ErrorKind::DirectoryAccessError
            },
        },
{
    if !output_ready {
        return Err(ErrorKind::OutputDirError);
    }
    match listing {
        None => Err(ErrorKind::DirectoryAccessError),
        Some(entries) => Ok(plan_tasks(&entries)),
    }
}

/// The size of the worker pool: the size asked for, if one was asked for
/// and it is not zero, and else the parallelism that the machine offers;
/// one worker at the least.
pub fn worker_count(requested: Option<usize>, available: usize) -> (workers: usize)
    ensures
        workers >= 1,
        match requested {
            Some(size) if size >= 1 => workers == size,
            _ => workers == if available >= 1 {
                available
            } else {
                1
            },
        },
{
    match requested {
        Some(size) if size >= 1 => size,
        _ => if available >= 1 {
            available
        } else {
            1
        },
    }
}

/// What a worker does with a file once its bytes have been decoded, or
/// have failed to decode.
pub enum NextStep {
    /// Encode this raster, the rotated image, under the task's name.
    Encode(Raster),
    /// Write nothing, and record the file as failed.
    Fail(ErrorKind),
}

/// Decides the step after decoding. A file that did not decode fails with
/// `DecodeError`; a decoded raster without pixels fails with
/// `InvalidDimensions`; any other raster is rotated and goes on to be
/// encoded.
pub fn after_decode(decoded: Option<Raster>) -> (next: NextStep)
    ensures
        match decoded {
            None => next matches NextStep::Fail(kind) && kind == ErrorKind::DecodeError,
            Some(raster) => if raster@.width == 0 || raster@.height == 0 {
                next matches NextStep::Fail(kind) && kind == ErrorKind::InvalidDimensions
            } else {
                next matches NextStep::Encode(turned) && turned@ == raster@.rotated()
                    && turned.packed()
            },
        },
{
    match decoded {
        None => NextStep::Fail(ErrorKind::DecodeError),
        Some(raster) => match rotate_clockwise_90(&raster) {
            Ok(turned) => NextStep::Encode(turned),
            Err(kind) => NextStep::Fail(kind),
        },
    }
}

/// The record of a file that went as far as encoding: succeeded if the
/// result was written, failed with `EncodeError` if it was not.
pub fn after_encode(path: String, written: bool) -> (record: TaskRecord)
    ensures
        record@ == (RecordView {
            path: path@,
            failure: if written {
                None
            } else {
                Some(ErrorKind::EncodeError)
            },
        }),
{
    if written {
        TaskRecord { path, failure: None }
    } else {
        TaskRecord { path, failure: Some(ErrorKind::EncodeError) }
    }
}

} // verus!
