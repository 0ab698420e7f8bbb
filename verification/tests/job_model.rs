use transcoder::conversion::CancellationToken;
use transcoder::conversion::ConfigError;
use transcoder::conversion::ConversionInstructions;
use transcoder::conversion::FileOutcome;
use transcoder::conversion::FilePlan;
use transcoder::conversion::JobModel;
use transcoder::conversion::JobState;
use transcoder::conversion::TargetFormat;
use transcoder::conversion::file_event;
use transcoder::conversion::plan_file;
use transcoder::conversion::validate_instructions;
use transcoder::mp3::Mp3Bitrate;
use transcoder::mp3::Mp3Config;
use transcoder::mp3::Mp3Quality;
use transcoder::progress::EventKind;

fn instructions(copy: bool) -> ConversionInstructions {
    ConversionInstructions {
        copy_unrecognised_files: copy,
        src_path: String::from("/in"),
        dest_path: String::from("/out"),
        no_of_threads: 1,
        target_format: TargetFormat::Mp3,
        mp3_config: Mp3Config { quality: Mp3Quality::Best, bitrate: Mp3Bitrate::Kbps128 },
    }
}

#[test]
fn only_the_implemented_format_dispatches() {
    assert!(validate_instructions(&instructions(true)).is_ok());
    let mut bad = instructions(true);
    bad.target_format = TargetFormat::Opus;
    assert_eq!(validate_instructions(&bad), Err(ConfigError::UnsupportedTargetFormat));
}

#[test]
fn plans_cover_convert_copy_and_skip() {
    let instr = instructions(true);
    match plan_file(&instr, &String::from("/a.flac")) {
        FilePlan::ConvertFile { source, target, target_dir } => {
            assert_eq!(source, String::from("/in/a.flac"));
            assert_eq!(target, String::from("/out/a.mp3"));
            assert_eq!(target_dir, String::from("/out"));
        },
        _ => panic!("a flac file must be planned for conversion"),
    }
    match plan_file(&instr, &String::from("/s/b.txt")) {
        FilePlan::CopyFile { source, target, target_dir } => {
            assert_eq!(source, String::from("/in/s/b.txt"));
            assert_eq!(target, String::from("/out/s/b.txt"));
            assert_eq!(target_dir, String::from("/out/s"));
        },
        _ => panic!("an unrecognised file must be planned for copying"),
    }
    let no_copy = instructions(false);
    assert!(matches!(plan_file(&no_copy, &String::from("/s/b.txt")), FilePlan::Skip));
    assert!(matches!(plan_file(&no_copy, &String::from("/a.flac")), FilePlan::ConvertFile { .. }));
}

#[test]
fn skipped_files_emit_no_event() {
    let r = file_event(false, &String::from("/out"), &String::from("/b.txt"), 1, FileOutcome::Done);
    assert!(r.is_none());
}

#[test]
fn copy_events_carry_the_copy_messages() {
    let ok = file_event(true, &String::from("/out"), &String::from("/b.txt"), 2, FileOutcome::Done)
        .unwrap();
    assert_eq!(ok.kind, EventKind::Success);
    assert_eq!(ok.handling_thread, 2);
    assert_eq!(ok.msg, String::from("Copied /b.txt to /out/b.txt"));
    let bad = file_event(
        true,
        &String::from("/out"),
        &String::from("/b.txt"),
        2,
        FileOutcome::CopyFailed,
    )
    .unwrap();
    assert_eq!(bad.kind, EventKind::Fail);
    assert_eq!(bad.msg, String::from("Failed to copy /b.txt to /out/b.txt"));
}

#[test]
fn convert_events_carry_the_convert_messages() {
    let ok = file_event(false, &String::from("/out"), &String::from("/a.flac"), 1, FileOutcome::Done)
        .unwrap();
    assert_eq!(ok.kind, EventKind::Success);
    assert_eq!(ok.msg, String::from("Converted /a.flac to target format"));
    let dec = file_event(
        false,
        &String::from("/out"),
        &String::from("/a.flac"),
        1,
        FileOutcome::DecodeFailed,
    )
    .unwrap();
    assert_eq!(dec.kind, EventKind::Fail);
    assert_eq!(dec.msg, String::from("Failed to decode file at /a.flac. Skipping this file."));
    let enc = file_event(
        false,
        &String::from("/out"),
        &String::from("/a.flac"),
        1,
        FileOutcome::EncodeFailed,
    )
    .unwrap();
    assert_eq!(enc.msg, String::from("Failed to encode file at /a.flac. Skipping this file."));
}

#[test]
fn single_worker_tree_yields_the_expected_event_order() {
    // Tree {a.flac, b.txt}, copying enabled, one worker: one Success per
    // file, then the worker's finish, then the job's finish.
    let files = vec![String::from("/a.flac"), String::from("/b.txt")];
    let mut m = JobModel::new(instructions(true), files, 1);

    assert!(!m.worker_check(0));
    let (p1, e1) = m.worker_pop(0);
    assert_eq!(p1, Some(String::from("/b.txt")));
    assert!(e1.is_none());
    let ev1 = m.worker_finish_file(0, FileOutcome::Done).unwrap();
    assert_eq!(ev1.kind, EventKind::Success);
    assert_eq!(ev1.msg, String::from("Copied /b.txt to /out/b.txt"));

    assert!(!m.worker_check(0));
    let (p2, e2) = m.worker_pop(0);
    assert_eq!(p2, Some(String::from("/a.flac")));
    assert!(e2.is_none());
    let ev2 = m.worker_finish_file(0, FileOutcome::Done).unwrap();
    assert_eq!(ev2.kind, EventKind::Success);
    assert_eq!(ev2.msg, String::from("Converted /a.flac to target format"));

    assert!(!m.worker_check(0));
    let (p3, e3) = m.worker_pop(0);
    assert!(p3.is_none());
    let fin = e3.unwrap();
    assert_eq!(fin.kind, EventKind::WorkerFinished);
    assert_eq!(fin.handling_thread, 1);
    assert_eq!(fin.msg, String::from("No more files to convert"));

    let done = m.job_finish();
    assert_eq!(done.kind, EventKind::JobFinished);
    assert_eq!(done.handling_thread, 0);
    assert_eq!(done.msg, String::from("Conversion Finished"));

    let kinds: Vec<EventKind> = m.events.iter().map(|e| e.kind).collect();
    assert_eq!(
        kinds,
        vec![
            EventKind::Success,
            EventKind::Success,
            EventKind::WorkerFinished,
            EventKind::JobFinished
        ]
    );
}

#[test]
fn a_decode_failure_does_not_stop_the_worker() {
    // The corrupt file is popped first, yields exactly one Fail event
    // naming it, and the next queued file is still processed.
    let files = vec![String::from("/y.flac"), String::from("/corrupt.flac")];
    let mut m = JobModel::new(instructions(false), files, 1);

    assert!(!m.worker_check(0));
    let (p1, _) = m.worker_pop(0);
    assert_eq!(p1, Some(String::from("/corrupt.flac")));
    let fail = m.worker_finish_file(0, FileOutcome::DecodeFailed).unwrap();
    assert_eq!(fail.kind, EventKind::Fail);
    assert_eq!(
        fail.msg,
        String::from("Failed to decode file at /corrupt.flac. Skipping this file.")
    );

    assert!(!m.worker_check(0));
    let (p2, _) = m.worker_pop(0);
    assert_eq!(p2, Some(String::from("/y.flac")));
    let ok = m.worker_finish_file(0, FileOutcome::Done).unwrap();
    assert_eq!(ok.kind, EventKind::Success);

    let fails = m.events.iter().filter(|e| e.kind == EventKind::Fail).count();
    assert_eq!(fails, 1);
    assert_eq!(m.processed[0].len(), 2);
}

#[test]
fn event_count_matches_the_emitting_files() {
    // Three files, copying disabled: only the flac emits a per-file event.
    let files = vec![String::from("/a.flac"), String::from("/b.txt"), String::from("/c.txt")];
    let mut m = JobModel::new(instructions(false), files, 2);

    let mut per_file = 0;
    loop {
        let mut any = false;
        for w in 0..2 {
            if matches!(m.workers[w], transcoder::conversion::WorkerPhase::Ready) {
                if m.worker_check(w) {
                    continue;
                }
                let (p, _) = m.worker_pop(w);
                if p.is_some() {
                    if m.worker_finish_file(w, FileOutcome::Done).is_some() {
                        per_file += 1;
                    }
                    any = true;
                }
            }
        }
        if !any {
            break;
        }
    }
    assert_eq!(per_file, 1);
    let emitted = m
        .events
        .iter()
        .filter(|e| e.kind == EventKind::Success || e.kind == EventKind::Fail)
        .count();
    assert_eq!(emitted, 1);
    let total: usize = m.processed.iter().map(|c| c.len()).sum();
    assert_eq!(total, 3);
}

#[test]
fn each_file_is_processed_by_exactly_one_worker() {
    let files: Vec<String> = (0..6).map(|i| format!("/f{}.flac", i)).collect();
    let mut m = JobModel::new(instructions(true), files.clone(), 2);

    // Alternate the two workers over the queue.
    for _round in 0..3 {
        for w in 0..2 {
            assert!(!m.worker_check(w));
            let (p, _) = m.worker_pop(w);
            assert!(p.is_some());
            m.worker_finish_file(w, FileOutcome::Done);
        }
    }
    let mut seen: Vec<String> = Vec::new();
    for col in &m.processed {
        for p in col {
            assert!(!seen.contains(p), "a path was handed to two workers");
            seen.push(p.clone());
        }
    }
    assert_eq!(seen.len(), files.len());
    for f in &files {
        assert!(seen.contains(f));
    }
    assert_eq!(m.processed[0].len() + m.processed[1].len(), 6);
}

#[test]
fn cancellation_lets_at_most_worker_count_files_begin() {
    // Both workers pass the token check, cancellation arrives, and each
    // can still begin at most one file; begun files complete and emit.
    let files: Vec<String> = (0..5).map(|i| format!("/f{}.flac", i)).collect();
    let mut m = JobModel::new(instructions(true), files, 2);

    assert!(!m.worker_check(0));
    assert!(!m.worker_check(1));
    m.cancel();

    let (p0, _) = m.worker_pop(0);
    assert!(p0.is_some());
    let (p1, _) = m.worker_pop(1);
    assert!(p1.is_some());
    assert!(m.worker_finish_file(0, FileOutcome::Done).is_some());
    assert!(m.worker_finish_file(1, FileOutcome::Done).is_some());

    // At the next boundary both workers observe the cancellation.
    assert!(m.worker_check(0));
    assert!(m.worker_check(1));

    let begun: usize = m.processed.iter().map(|c| c.len()).sum();
    assert_eq!(begun, 2);
    assert!(begun <= 2);
    assert_eq!(m.queue.len(), 3);
    let emitted = m
        .events
        .iter()
        .filter(|e| e.kind == EventKind::Success || e.kind == EventKind::Fail)
        .count();
    assert_eq!(emitted, begun);
}

#[test]
fn the_token_walks_its_three_states() {
    let mut token = CancellationToken::new();
    assert_eq!(token.state, JobState::Idle);
    assert!(!token.is_running());
    token.start();
    assert!(token.is_running());
    token.cancel();
    assert_eq!(token.state, JobState::CancellingToIdle);
    assert!(!token.is_running());
    token.settle();
    assert_eq!(token.state, JobState::Idle);
    token.cancel();
    assert_eq!(token.state, JobState::Idle);
}

#[test]
fn an_empty_tree_finishes_without_file_events() {
    let mut m = JobModel::new(instructions(true), Vec::new(), 1);
    assert!(!m.worker_check(0));
    let (p, e) = m.worker_pop(0);
    assert!(p.is_none());
    assert_eq!(e.unwrap().kind, EventKind::WorkerFinished);
    let done = m.job_finish();
    assert_eq!(done.kind, EventKind::JobFinished);
    let per_file = m
        .events
        .iter()
        .filter(|ev| ev.kind == EventKind::Success || ev.kind == EventKind::Fail)
        .count();
    assert_eq!(per_file, 0);
}

#[test]
fn a_job_with_no_workers_still_finishes() {
    let mut m = JobModel::new(instructions(true), vec![String::from("/a.flac")], 0);
    let done = m.job_finish();
    assert_eq!(done.kind, EventKind::JobFinished);
    assert_eq!(m.queue.len(), 1);
}
