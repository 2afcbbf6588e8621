use batch_rotate::buffer::Raster;
use batch_rotate::error::ErrorKind;
use batch_rotate::report::TaskRecord;
use batch_rotate::task::{
    after_decode, after_encode, begin_run, plan_tasks, worker_count, Entry, EntryKind, FileTask,
    NextStep,
};

fn entry(name: &str, kind: EntryKind) -> Entry {
    Entry { path: format!("in/{}", name), name: name.to_string(), kind }
}

fn task(name: &str) -> FileTask {
    FileTask { input: format!("in/{}", name), name: name.to_string() }
}

#[test]
fn only_regular_files_become_tasks() {
    let entries = vec![
        entry("a.png", EntryKind::File),
        entry("sub", EntryKind::Directory),
        entry("b.jpg", EntryKind::File),
        entry("link", EntryKind::Other),
        entry("locked", EntryKind::Unreadable),
        entry("c.bmp", EntryKind::File),
    ];
    assert_eq!(plan_tasks(&entries), vec![task("a.png"), task("b.jpg"), task("c.bmp")]);
}

#[test]
fn empty_directory_has_no_tasks() {
    assert_eq!(plan_tasks(&Vec::new()), Vec::new());
}

#[test]
fn directory_without_files_has_no_tasks() {
    let entries = vec![entry("sub", EntryKind::Directory), entry("link", EntryKind::Other)];
    assert_eq!(plan_tasks(&entries), Vec::new());
}

#[test]
fn task_keeps_the_base_name_of_its_file() {
    let entries = vec![Entry {
        path: "some/where/photo.png".to_string(),
        name: "photo.png".to_string(),
        kind: EntryKind::File,
    }];
    let tasks = plan_tasks(&entries);
    assert_eq!(tasks.len(), 1);
    assert_eq!(tasks[0].input, "some/where/photo.png");
    assert_eq!(tasks[0].name, "photo.png");
}

#[test]
fn run_begins_with_the_tasks_of_the_listing() {
    let listing = vec![entry("a.png", EntryKind::File), entry("sub", EntryKind::Directory)];
    assert_eq!(begin_run(true, Some(listing)), Ok(vec![task("a.png")]));
}

#[test]
fn run_over_an_empty_directory_begins_without_tasks() {
    assert_eq!(begin_run(true, Some(Vec::new())), Ok(Vec::new()));
}

#[test]
fn unusable_output_directory_ends_the_run() {
    let listing = vec![entry("a.png", EntryKind::File)];
    assert_eq!(begin_run(false, Some(listing)), Err(ErrorKind::OutputDirError));
    assert_eq!(begin_run(false, None), Err(ErrorKind::OutputDirError));
}

#[test]
fn unreadable_input_directory_ends_the_run() {
    assert_eq!(begin_run(true, None), Err(ErrorKind::DirectoryAccessError));
}

#[test]
fn pool_has_the_size_asked_for() {
    assert_eq!(worker_count(Some(1), 8), 1);
    assert_eq!(worker_count(Some(2), 8), 2);
    assert_eq!(worker_count(Some(64), 8), 64);
}

#[test]
fn pool_defaults_to_the_machine() {
    assert_eq!(worker_count(None, 8), 8);
    assert_eq!(worker_count(Some(0), 8), 8);
    assert_eq!(worker_count(None, 0), 1);
    assert_eq!(worker_count(Some(0), 0), 1);
}

#[test]
fn undecoded_file_fails_with_decode_error() {
    match after_decode(None) {
        NextStep::Fail(kind) => assert_eq!(kind, ErrorKind::DecodeError),
        NextStep::Encode(_) => panic!("nothing to encode"),
    }
}

#[test]
fn raster_without_pixels_fails_with_invalid_dimensions() {
    let raster = Raster::from_samples(0, 4, Vec::new()).unwrap();
    match after_decode(Some(raster)) {
        NextStep::Fail(kind) => assert_eq!(kind, ErrorKind::InvalidDimensions),
        NextStep::Encode(_) => panic!("nothing to encode"),
    }
}

#[test]
fn decoded_raster_goes_on_rotated() {
    let samples: Vec<u8> = (0u8..8).collect();
    let raster = Raster::from_samples(1, 2, samples).unwrap();
    match after_decode(Some(raster)) {
        NextStep::Encode(turned) => {
            assert_eq!(turned.width(), 2);
            assert_eq!(turned.height(), 1);
            assert_eq!(turned.into_samples(), vec![4, 5, 6, 7, 0, 1, 2, 3]);
        }
        NextStep::Fail(kind) => panic!("failed: {:?}", kind),
    }
}

#[test]
fn written_file_is_recorded_as_succeeded() {
    assert_eq!(
        after_encode("in/a.png".to_string(), true),
        TaskRecord { path: "in/a.png".to_string(), failure: None }
    );
}

#[test]
fn unwritten_file_is_recorded_with_encode_error() {
    assert_eq!(
        after_encode("in/a.png".to_string(), false),
        TaskRecord { path: "in/a.png".to_string(), failure: Some(ErrorKind::EncodeError) }
    );
}
