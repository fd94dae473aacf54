use engine_supervisor::download::{
    models_dir, progress_event, DownloadAction, DownloadError, DownloadEvent, DownloadPhase, DownloadProgress,
    DownloadTask,
};

const URL: &str = "http://host/model.bin";
const DEST: &str = "models/model.bin";

fn begin() -> (DownloadTask, DownloadAction) {
    DownloadTask::begin(URL.to_string(), DEST.to_string())
}

/// A task that has been told that its destination is not there.
fn requesting() -> DownloadTask {
    let (mut task, _) = begin();
    task.step(DownloadEvent::DestinationReady { exists: false }).unwrap();
    task
}

/// A task that waits for its first chunk, the server having declared
/// `total` bytes.
fn reading(total: u64) -> DownloadTask {
    let mut task = requesting();
    task.step(DownloadEvent::ResponseStarted { content_length: Some(total) }).unwrap();
    task.step(DownloadEvent::FileCreated).unwrap();
    task
}

fn progress(downloaded: u64, total: u64) -> DownloadAction {
    DownloadAction::EmitProgress(DownloadProgress { downloaded, total })
}

fn failed(error: DownloadError) -> Result<DownloadAction, DownloadEvent> {
    Ok(DownloadAction::Finish(Err(error)))
}

#[test]
fn begin_looks_at_the_destination_first() {
    let (task, action) = begin();
    assert_eq!(action, DownloadAction::PrepareDestination(DEST.to_string()));
    assert_eq!(task.phase(), DownloadPhase::Preparing);
    assert_eq!(task.url(), URL);
    assert_eq!(task.destination(), DEST);
    assert_eq!(task.total(), None);
    assert_eq!(task.downloaded(), 0);
}

#[test]
fn three_chunks_of_a_thousand_bytes() {
    let (mut task, _) = begin();
    assert_eq!(
        task.step(DownloadEvent::DestinationReady { exists: false }),
        Ok(DownloadAction::SendRequest(URL.to_string()))
    );
    assert_eq!(
        task.step(DownloadEvent::ResponseStarted { content_length: Some(1000) }),
        Ok(DownloadAction::CreateFile(DEST.to_string()))
    );
    assert_eq!(task.total(), Some(1000));
    assert_eq!(task.step(DownloadEvent::FileCreated), Ok(DownloadAction::ReadChunk));

    let mut reported = Vec::new();
    let mut written: u64 = 0;
    for len in [400u64, 400, 200] {
        assert_eq!(task.step(DownloadEvent::ChunkRead { len }), Ok(DownloadAction::WriteChunk));
        written += len;
        match task.step(DownloadEvent::ChunkWritten) {
            Ok(DownloadAction::EmitProgress(p)) => reported.push((p.downloaded, p.total)),
            other => panic!("expected a progress notification, got {:?}", other),
        }
        assert_eq!(
            task.step(DownloadEvent::ProgressEmitted { delivered: true }),
            Ok(DownloadAction::ReadChunk)
        );
    }
    assert_eq!(reported, vec![(400, 1000), (800, 1000), (1000, 1000)]);
    assert_eq!(
        task.step(DownloadEvent::StreamEnded),
        Ok(DownloadAction::Finish(Ok(DEST.to_string())))
    );
    assert_eq!(task.phase(), DownloadPhase::Finished);
    assert_eq!(task.downloaded(), 1000);
    assert_eq!(written, 1000);
    assert_eq!(task.total(), Some(1000));
}

#[test]
fn existing_destination_is_returned_without_a_request() {
    let (mut task, first) = begin();
    assert!(!matches!(first, DownloadAction::SendRequest(_)));
    assert_eq!(
        task.step(DownloadEvent::DestinationReady { exists: true }),
        Ok(DownloadAction::Finish(Ok(DEST.to_string())))
    );
    assert_eq!(task.phase(), DownloadPhase::Finished);
    assert_eq!(task.downloaded(), 0);
}

#[test]
fn second_download_to_the_same_destination_sends_nothing() {
    // The first download creates the file; the second finds it.
    let mut exists = false;
    let mut requests = 0;
    for _ in 0..2 {
        let (mut task, mut action) = begin();
        loop {
            let event = match &action {
                DownloadAction::PrepareDestination(_) => DownloadEvent::DestinationReady { exists },
                DownloadAction::SendRequest(_) => {
                    requests += 1;
                    DownloadEvent::ResponseStarted { content_length: Some(3) }
                }
                DownloadAction::CreateFile(_) => {
                    exists = true;
                    DownloadEvent::FileCreated
                }
                DownloadAction::ReadChunk => {
                    if task.downloaded() == 0 {
                        DownloadEvent::ChunkRead { len: 3 }
                    } else {
                        DownloadEvent::StreamEnded
                    }
                }
                DownloadAction::WriteChunk => DownloadEvent::ChunkWritten,
                DownloadAction::EmitProgress(_) => DownloadEvent::ProgressEmitted { delivered: true },
                DownloadAction::Finish(result) => {
                    assert_eq!(result, &Ok(DEST.to_string()));
                    break;
                }
            };
            action = task.step(event).unwrap();
        }
    }
    assert_eq!(requests, 1);
}

#[test]
fn progress_never_goes_down() {
    let mut task = reading(10);
    let mut last = 0;
    for len in [0u64, 5, 0, 1, 4, 7] {
        task.step(DownloadEvent::ChunkRead { len }).unwrap();
        match task.step(DownloadEvent::ChunkWritten) {
            Ok(DownloadAction::EmitProgress(p)) => {
                assert!(p.downloaded >= last);
                assert_eq!(p.downloaded, last + len);
                assert_eq!(p.total, 10);
                last = p.downloaded;
            }
            other => panic!("expected a progress notification, got {:?}", other),
        }
        task.step(DownloadEvent::ProgressEmitted { delivered: false }).unwrap();
    }
    assert_eq!(task.downloaded(), 17);
    assert_eq!(last, 17);
}

#[test]
fn empty_stream_reports_nothing() {
    let mut task = reading(0);
    assert_eq!(
        task.step(DownloadEvent::StreamEnded),
        Ok(DownloadAction::Finish(Ok(DEST.to_string())))
    );
    assert_eq!(task.downloaded(), 0);
}

#[test]
fn undelivered_progress_does_not_stop_the_download() {
    let mut heard = reading(8);
    let mut unheard = reading(8);
    for task in [&mut heard, &mut unheard] {
        task.step(DownloadEvent::ChunkRead { len: 8 }).unwrap();
        assert_eq!(task.step(DownloadEvent::ChunkWritten), Ok(progress(8, 8)));
    }
    assert_eq!(
        heard.step(DownloadEvent::ProgressEmitted { delivered: true }),
        Ok(DownloadAction::ReadChunk)
    );
    assert_eq!(
        unheard.step(DownloadEvent::ProgressEmitted { delivered: false }),
        Ok(DownloadAction::ReadChunk)
    );
    assert_eq!(heard.phase(), unheard.phase());
    assert_eq!(heard.downloaded(), unheard.downloaded());
}

#[test]
fn directory_failure_is_an_io_error_with_the_raw_text() {
    let (mut task, _) = begin();
    assert_eq!(
        task.step(DownloadEvent::DirectoryFailed("permission denied".to_string())),
        failed(DownloadError::Io("permission denied".to_string()))
    );
    assert_eq!(task.phase(), DownloadPhase::Finished);
}

#[test]
fn request_failure_is_a_transfer_init_error() {
    let mut task = requesting();
    assert_eq!(
        task.step(DownloadEvent::RequestFailed("dns error".to_string())),
        failed(DownloadError::TransferInit("Failed to request model: dns error".to_string()))
    );
    assert_eq!(task.phase(), DownloadPhase::Finished);
}

#[test]
fn missing_content_length_is_a_transfer_init_error() {
    let mut task = requesting();
    assert_eq!(
        task.step(DownloadEvent::ResponseStarted { content_length: None }),
        failed(DownloadError::TransferInit(
            "Failed to get content length from response".to_string()
        ))
    );
    assert_eq!(task.total(), None);
}

#[test]
fn file_creation_failure_is_an_io_error() {
    let mut task = requesting();
    task.step(DownloadEvent::ResponseStarted { content_length: Some(5) }).unwrap();
    assert_eq!(task.phase(), DownloadPhase::Creating);
    assert_eq!(
        task.step(DownloadEvent::FileCreateFailed("read-only file system".to_string())),
        failed(DownloadError::Io("Failed to create file: read-only file system".to_string()))
    );
}

#[test]
fn read_failure_is_a_transfer_error() {
    let mut task = reading(5);
    assert_eq!(
        task.step(DownloadEvent::ReadFailed("connection reset".to_string())),
        failed(DownloadError::Transfer("Error reading chunk: connection reset".to_string()))
    );
}

#[test]
fn write_failure_is_an_io_error_and_keeps_the_count() {
    let mut task = reading(10);
    task.step(DownloadEvent::ChunkRead { len: 4 }).unwrap();
    task.step(DownloadEvent::ChunkWritten).unwrap();
    task.step(DownloadEvent::ProgressEmitted { delivered: true }).unwrap();
    task.step(DownloadEvent::ChunkRead { len: 6 }).unwrap();
    assert_eq!(task.phase(), DownloadPhase::Writing);
    assert_eq!(
        task.step(DownloadEvent::WriteFailed("disk full".to_string())),
        failed(DownloadError::Io("Error writing chunk to file: disk full".to_string()))
    );
    assert_eq!(task.downloaded(), 4);
    assert_eq!(task.total(), Some(10));
}

#[test]
fn error_message_is_the_text_it_holds() {
    assert_eq!(DownloadError::TransferInit("a".to_string()).message(), "a");
    assert_eq!(DownloadError::Transfer("b".to_string()).message(), "b");
    assert_eq!(DownloadError::Io("c".to_string()).message(), "c");
}

#[test]
fn download_event_out_of_turn_is_handed_back() {
    let (mut task, _) = begin();
    assert_eq!(task.step(DownloadEvent::ChunkWritten), Err(DownloadEvent::ChunkWritten));
    assert_eq!(
        task.step(DownloadEvent::ChunkRead { len: 5 }),
        Err(DownloadEvent::ChunkRead { len: 5 })
    );
    assert_eq!(task.step(DownloadEvent::StreamEnded), Err(DownloadEvent::StreamEnded));
    assert_eq!(
        task.step(DownloadEvent::RequestFailed("x".to_string())),
        Err(DownloadEvent::RequestFailed("x".to_string()))
    );
    assert_eq!(task.phase(), DownloadPhase::Preparing);
    assert_eq!(task.downloaded(), 0);

    let mut task = reading(5);
    assert_eq!(task.step(DownloadEvent::FileCreated), Err(DownloadEvent::FileCreated));
    assert_eq!(
        task.step(DownloadEvent::DestinationReady { exists: true }),
        Err(DownloadEvent::DestinationReady { exists: true })
    );
    assert_eq!(task.phase(), DownloadPhase::Reading);
}

#[test]
fn finished_download_takes_no_event() {
    let (mut task, _) = begin();
    task.step(DownloadEvent::DestinationReady { exists: true }).unwrap();
    assert_eq!(
        task.step(DownloadEvent::DestinationReady { exists: false }),
        Err(DownloadEvent::DestinationReady { exists: false })
    );
    assert_eq!(task.step(DownloadEvent::StreamEnded), Err(DownloadEvent::StreamEnded));
    assert_eq!(task.phase(), DownloadPhase::Finished);
}

#[test]
fn chunk_must_fit_the_byte_count() {
    let mut task = reading(u64::MAX);
    assert!(task.fits(&DownloadEvent::ChunkRead { len: u64::MAX }));
    task.step(DownloadEvent::ChunkRead { len: u64::MAX - 1 }).unwrap();
    assert_eq!(task.step(DownloadEvent::ChunkWritten), Ok(progress(u64::MAX - 1, u64::MAX)));
    task.step(DownloadEvent::ProgressEmitted { delivered: true }).unwrap();
    assert!(task.fits(&DownloadEvent::ChunkRead { len: 0 }));
    assert!(task.fits(&DownloadEvent::ChunkRead { len: 1 }));
    assert!(!task.fits(&DownloadEvent::ChunkRead { len: 2 }));
    assert!(task.fits(&DownloadEvent::StreamEnded));
    task.step(DownloadEvent::ChunkRead { len: 1 }).unwrap();
    assert_eq!(task.step(DownloadEvent::ChunkWritten), Ok(progress(u64::MAX, u64::MAX)));
}

#[test]
fn any_chunk_fits_where_none_is_awaited() {
    let (task, _) = begin();
    assert!(task.fits(&DownloadEvent::ChunkRead { len: u64::MAX }));
}

#[test]
fn progress_notification_name() {
    assert_eq!(progress_event(), "download-progress");
}

#[test]
fn artifacts_go_to_the_models_directory() {
    assert_eq!(models_dir(), "models");
}
