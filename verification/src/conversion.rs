//! The conversion job: its instructions, its shared work queue, its
//! cancellation token, and the worker-pool state machine.
//!
//! The pool's behaviour is modelled as an explicit machine, [`JobModel`]:
//! each worker repeatedly checks the token, atomically pops one path off
//! the shared queue, and reports the outcome of processing it; the
//! machine decides which progress event that outcome yields.  Every
//! interleaving of workers is a sequence of these steps, so the laws
//! proved about the machine — event accounting, exactly-once processing,
//! the cancellation bound — hold for every schedule.

use vstd::prelude::*;
use vstd::multiset::Multiset;
use vstd::string::StringExecFns;
use crate::mp3::Mp3Config;
use crate::paths::FileAction;
use crate::paths::converted_file_path;
use crate::paths::decide_file_action;
use crate::paths::get_target_directory;
use crate::paths::is_flac_path;
use crate::paths::parent_directory;
use crate::paths::with_mp3_extension;
use crate::progress::EventKind;
use crate::progress::ProgressEvent;

verus! {

broadcast use {vstd::seq_lib::group_to_multiset_ensures, vstd::multiset::group_multiset_axioms};

/// The target compressed format.  Only MP3 is implemented; the second
/// variant is reserved and any job naming it is refused at dispatch.
#[derive(Clone, Copy, Debug, PartialEq, Eq, Structural)]
pub enum TargetFormat {
    Mp3,
    Opus,
}

/// A job request names a format this build does not implement.
#[derive(Clone, Copy, Debug, PartialEq, Eq, Structural)]
pub enum ConfigError {
    UnsupportedTargetFormat,
}

/// Everything a conversion job needs; immutable once the job starts.
#[derive(Clone, Debug)]
pub struct ConversionInstructions {
    pub copy_unrecognised_files: bool,
    pub src_path: String,
    pub dest_path: String,
    pub no_of_threads: i32,
    pub target_format: TargetFormat,
    pub mp3_config: Mp3Config,
}

/// A job may only be dispatched for the implemented target format.
pub fn validate_instructions(instr: &ConversionInstructions) -> (r: Result<(), ConfigError>)
    ensures
        r is Ok <==> instr.target_format == TargetFormat::Mp3,
        r is Err ==> r == Err::<(), ConfigError>(ConfigError::UnsupportedTargetFormat),
{
    match instr.target_format {
        TargetFormat::Mp3 => Ok(()),
        TargetFormat::Opus => Err(ConfigError::UnsupportedTargetFormat),
    }
}

/// The job-state flag shared by every worker: idle, running, or cancel
/// requested and waiting for the pool to quiesce.
#[derive(Clone, Copy, Debug, PartialEq, Eq, Structural)]
pub enum JobState {
    Idle,
    Running,
    CancellingToIdle,
}

/// Shared tri-state cancellation flag.  A cancel request moves a running
/// job towards idle; every worker reads the flag once before each pop
/// and stops as soon as it is no longer running.
#[derive(Clone, Copy, Debug)]
pub struct CancellationToken {
    pub state: JobState,
}

impl CancellationToken {
    pub fn new() -> (t: CancellationToken)
        ensures
            t.state == JobState::Idle,
    {
        CancellationToken { state: JobState::Idle }
    }

    /// Mark the job running; done once when the job starts.
    pub fn start(&mut self)
        ensures
            final(self).state == JobState::Running,
    {
        self.state = JobState::Running;
    }

    /// A cancel request: a running job starts cancelling; otherwise the
    /// token falls back to idle.
    pub fn cancel(&mut self)
        ensures
            old(self).state == JobState::Running ==> final(self).state
                == JobState::CancellingToIdle,
            old(self).state != JobState::Running ==> final(self).state == JobState::Idle,
            final(self).state != JobState::Running,
    {
        if self.state == JobState::Running {
            self.state = JobState::CancellingToIdle;
        } else {
            self.state = JobState::Idle;
        }
    }

    /// The pool has quiesced; the token settles at idle.
    pub fn settle(&mut self)
        ensures
            final(self).state == JobState::Idle,
    {
        self.state = JobState::Idle;
    }

    /// What every worker reads before popping another path.
    pub fn is_running(&self) -> (b: bool)
        ensures
            b <==> self.state == JobState::Running,
    {
        self.state == JobState::Running
    }
}

/// What the app reports after carrying out one file's plan.
#[derive(Clone, Copy, Debug, PartialEq, Eq, Structural)]
pub enum FileOutcome {
    /// The copy or the decode-encode-write chain succeeded.
    Done,
    /// The byte-for-byte copy failed.
    CopyFailed,
    /// The file could not be decoded.
    DecodeFailed,
    /// The decoded audio could not be encoded.
    EncodeFailed,
    /// The encoded stream could not be written out.
    WriteFailed,
}

/// The outcome an app may report for a path: copy failures belong to
/// copied files, decode/encode/write failures to converted ones.
pub open spec fn outcome_fits(path: Seq<char>, outcome: FileOutcome) -> bool {
    if is_flac_path(path) {
        outcome != FileOutcome::CopyFailed
    } else {
        outcome == FileOutcome::Done || outcome == FileOutcome::CopyFailed
    }
}

/// Whether handling this path emits a per-file event: converted files
/// always do; copied files only when copying is enabled — a file skipped
/// by a disabled copy flag emits nothing.
pub open spec fn emits(copy_flag: bool, path: Seq<char>) -> bool {
    is_flac_path(path) || copy_flag
}

/// The message of the per-file event for `path` and `outcome`.
pub open spec fn spec_event_msg(dest: Seq<char>, path: Seq<char>, outcome: FileOutcome) -> Seq<
    char,
> {
    if is_flac_path(path) {
        match outcome {
            FileOutcome::Done => "Converted "@ + path + " to target format"@,
            FileOutcome::DecodeFailed => "Failed to decode file at "@ + path
                + ". Skipping this file."@,
            FileOutcome::EncodeFailed => "Failed to encode file at "@ + path
                + ". Skipping this file."@,
            _ => "Failed to write "@ + path + ". Skipping this file."@,
        }
    } else {
        match outcome {
            FileOutcome::Done => "Copied "@ + path + " to "@ + dest + path,
            _ => "Failed to copy "@ + path + " to "@ + dest + path,
        }
    }
}

/// What the per-file event for one handled path must look like: none for
/// a skipped file, otherwise one Success or Fail event for the handling
/// worker with the exact message of its outcome.
pub open spec fn file_event_matches(
    copy_flag: bool,
    dest: Seq<char>,
    path: Seq<char>,
    worker: int,
    outcome: FileOutcome,
    r: Option<ProgressEvent>,
) -> bool {
    if emits(copy_flag, path) {
        &&& r is Some
        &&& r.unwrap().handling_thread == worker
        &&& r.unwrap().kind == (if outcome == FileOutcome::Done {
            EventKind::Success
        } else {
            EventKind::Fail
        })
        &&& r.unwrap().msg@ == spec_event_msg(dest, path, outcome)
    } else {
        r is None
    }
}

/// The progress event one handled file yields: `None` exactly for a
/// copy-classified file with copying disabled; otherwise Success on a
/// successful outcome and Fail on any failure, with the original's
/// message for that case.
pub fn file_event(
    copy_flag: bool,
    dest_path: &String,
    file_path: &String,
    worker: i32,
    outcome: FileOutcome,
) -> (r: Option<ProgressEvent>)
    ensures
        file_event_matches(copy_flag, dest_path@, file_path@, worker as int, outcome, r),
{
    let action = decide_file_action(file_path);
    let is_convert = match action {
        FileAction::Convert => true,
        FileAction::Copy => false,
    };
    if !is_convert && !copy_flag {
        return None;
    }
    let kind = if outcome == FileOutcome::Done {
        EventKind::Success
    } else {
        EventKind::Fail
    };
    let msg: String = if is_convert {
        match outcome {
            FileOutcome::Done => String::from_str("Converted ")
                .concat(file_path.as_str())
                .concat(" to target format"),
            FileOutcome::DecodeFailed => String::from_str("Failed to decode file at ")
                .concat(file_path.as_str())
                .concat(". Skipping this file."),
            FileOutcome::EncodeFailed => String::from_str("Failed to encode file at ")
                .concat(file_path.as_str())
                .concat(". Skipping this file."),
            _ => String::from_str("Failed to write ")
                .concat(file_path.as_str())
                .concat(". Skipping this file."),
        }
    } else {
        match outcome {
            FileOutcome::Done => String::from_str("Copied ")
                .concat(file_path.as_str())
                .concat(" to ")
                .concat(dest_path.as_str())
                .concat(file_path.as_str()),
            _ => String::from_str("Failed to copy ")
                .concat(file_path.as_str())
                .concat(" to ")
                .concat(dest_path.as_str())
                .concat(file_path.as_str()),
        }
    };
    Some(ProgressEvent { handling_thread: worker, msg, kind })
}

/// What a worker does with one popped path, with every destination path
/// already computed: skip it, copy it, or convert it.
pub enum FilePlan {
    Skip,
    CopyFile { source: String, target: String, target_dir: String },
    ConvertFile { source: String, target: String, target_dir: String },
}

/// Plan one file: a convert-classified file is decoded and re-encoded to
/// the extension-rewritten destination, a copy-classified file is copied
/// byte-for-byte when copying is enabled and skipped silently otherwise.
/// The target directory is the one to create before writing.
pub fn plan_file(instr: &ConversionInstructions, file_path: &String) -> (plan: FilePlan)
    ensures
        plan is Skip <==> !emits(instr.copy_unrecognised_files, file_path@),
        plan matches FilePlan::ConvertFile { source, target, target_dir } ==> {
            &&& is_flac_path(file_path@)
            &&& source@ == instr.src_path@ + file_path@
            &&& target@ == with_mp3_extension(instr.dest_path@ + file_path@)
            &&& target_dir@ == parent_directory(instr.dest_path@ + file_path@)
        },
        plan matches FilePlan::CopyFile { source, target, target_dir } ==> {
            &&& !is_flac_path(file_path@)
            &&& source@ == instr.src_path@ + file_path@
            &&& target@ == instr.dest_path@ + file_path@
            &&& target_dir@ == parent_directory(instr.dest_path@ + file_path@)
        },
        is_flac_path(file_path@) ==> plan is ConvertFile,
{
    let action = decide_file_action(file_path);
    match action {
        FileAction::Convert => {
            let source = instr.src_path.clone().concat(file_path.as_str());
            let target = converted_file_path(&instr.dest_path, file_path);
            let target_dir = get_target_directory(instr.dest_path.clone(), file_path);
            FilePlan::ConvertFile { source, target, target_dir }
        },
        FileAction::Copy => {
            if !instr.copy_unrecognised_files {
                return FilePlan::Skip;
            }
            let source = instr.src_path.clone().concat(file_path.as_str());
            let target = instr.dest_path.clone().concat(file_path.as_str());
            let target_dir = get_target_directory(instr.dest_path.clone(), file_path);
            FilePlan::CopyFile { source, target, target_dir }
        },
    }
}

/// Where one worker stands: about to check the token, past the check and
/// about to pop, busy with one popped path, finished because the queue
/// was empty, or stopped by cancellation.
#[derive(Clone, Debug)]
pub enum WorkerPhase {
    Ready,
    Armed,
    Busy(String),
    Finished,
    Stopped,
}

/// Count of per-file (Success or Fail) events in a sequence.
pub open spec fn file_event_count(events: Seq<ProgressEvent>) -> int
    decreases events.len(),
{
    if events.len() == 0 {
        0
    } else {
        file_event_count(events.drop_last()) + (if events.last().kind == EventKind::Success
            || events.last().kind == EventKind::Fail {
            1int
        } else {
            0int
        })
    }
}

/// How many of these paths emit a per-file event when handled.
pub open spec fn count_emitting(copy_flag: bool, paths: Seq<String>) -> int
    decreases paths.len(),
{
    if paths.len() == 0 {
        0
    } else {
        count_emitting(copy_flag, paths.drop_last()) + (if emits(copy_flag, paths.last()@) {
            1int
        } else {
            0int
        })
    }
}

/// The in-flight path of one worker, as a multiset contribution.
pub open spec fn phase_ms(w: WorkerPhase) -> Multiset<String> {
    match w {
        WorkerPhase::Busy(p) => Multiset::singleton(p),
        _ => Multiset::empty(),
    }
}

/// All paths currently in flight across the pool.
pub open spec fn busy_ms(ws: Seq<WorkerPhase>) -> Multiset<String>
    decreases ws.len(),
{
    if ws.len() == 0 {
        Multiset::empty()
    } else {
        busy_ms(ws.drop_last()).add(phase_ms(ws.last()))
    }
}

/// How many in-flight paths will emit a per-file event.
pub open spec fn busy_emitting(copy_flag: bool, ws: Seq<WorkerPhase>) -> int
    decreases ws.len(),
{
    if ws.len() == 0 {
        0
    } else {
        busy_emitting(copy_flag, ws.drop_last()) + (match ws.last() {
            WorkerPhase::Busy(p) => if emits(copy_flag, p@) {
                1int
            } else {
                0int
            },
            _ => 0int,
        })
    }
}

/// Workers past the token check and about to pop.
pub open spec fn armed_count(ws: Seq<WorkerPhase>) -> int
    decreases ws.len(),
{
    if ws.len() == 0 {
        0
    } else {
        armed_count(ws.drop_last()) + (if ws.last() is Armed {
            1int
        } else {
            0int
        })
    }
}

/// Every path any worker has fully processed, across the pool.
pub open spec fn processed_ms(ps: Seq<Vec<String>>) -> Multiset<String>
    decreases ps.len(),
{
    if ps.len() == 0 {
        Multiset::empty()
    } else {
        processed_ms(ps.drop_last()).add(ps.last()@.to_multiset())
    }
}

/// Sum of the per-worker processed counts.
pub open spec fn processed_total(ps: Seq<Vec<String>>) -> int
    decreases ps.len(),
{
    if ps.len() == 0 {
        0
    } else {
        processed_total(ps.drop_last()) + ps.last()@.len()
    }
}

proof fn lemma_armed_count_bounds(ws: Seq<WorkerPhase>)
    ensures
        0 <= armed_count(ws) <= ws.len(),
    decreases ws.len(),
{
    if ws.len() > 0 {
        lemma_armed_count_bounds(ws.drop_last());
    }
}

proof fn ms_add_empty(m: Multiset<String>)
    ensures
        m.add(Multiset::<String>::empty()) == m,
{
    assert(m.add(Multiset::<String>::empty()) =~= m);
}

proof fn ms_exchange(a: Multiset<String>, b: Multiset<String>, c: Multiset<String>)
    ensures
        a.add(b).add(c) == a.add(c).add(b),
{
    assert(a.add(b).add(c) =~= a.add(c).add(b));
}

/// Exchanging one worker's phase exchanges exactly its own contribution
/// in each pool-wide account.
proof fn lemma_worker_update(ws: Seq<WorkerPhase>, i: int, v: WorkerPhase, copy_flag: bool)
    requires
        0 <= i < ws.len(),
    ensures
        armed_count(ws.update(i, v)) == armed_count(ws) - (if ws[i] is Armed {
            1int
        } else {
            0int
        }) + (if v is Armed {
            1int
        } else {
            0int
        }),
        busy_ms(ws.update(i, v)).add(phase_ms(ws[i])) =~= busy_ms(ws).add(phase_ms(v)),
        busy_emitting(copy_flag, ws.update(i, v)) == busy_emitting(copy_flag, ws) - (match ws[i] {
            WorkerPhase::Busy(p) => if emits(copy_flag, p@) {
                1int
            } else {
                0int
            },
            _ => 0int,
        }) + (match v {
            WorkerPhase::Busy(p) => if emits(copy_flag, p@) {
                1int
            } else {
                0int
            },
            _ => 0int,
        }),
    decreases ws.len(),
{
    let upd = ws.update(i, v);
    if i == ws.len() - 1 {
        assert(upd.drop_last() =~= ws.drop_last());
        assert(upd.last() == v);
        assert(busy_ms(upd) == busy_ms(ws.drop_last()).add(phase_ms(v)));
        assert(busy_ms(ws) == busy_ms(ws.drop_last()).add(phase_ms(ws[i])));
        ms_exchange(busy_ms(ws.drop_last()), phase_ms(v), phase_ms(ws[i]));
    } else {
        assert(upd.drop_last() =~= ws.drop_last().update(i, v));
        assert(upd.last() == ws.last());
        lemma_worker_update(ws.drop_last(), i, v, copy_flag);
        assert(ws.drop_last()[i] == ws[i]);
        let bu = busy_ms(upd.drop_last());
        let bw = busy_ms(ws.drop_last());
        assert(busy_ms(upd) == bu.add(phase_ms(ws.last())));
        assert(busy_ms(ws) == bw.add(phase_ms(ws.last())));
        assert(bu.add(phase_ms(ws[i])) == bw.add(phase_ms(v)));
        ms_exchange(bu, phase_ms(ws.last()), phase_ms(ws[i]));
        ms_exchange(bw, phase_ms(v), phase_ms(ws.last()));
        assert(busy_ms(upd).add(phase_ms(ws[i])) == bu.add(phase_ms(ws[i])).add(
            phase_ms(ws.last()),
        ));
    }
}

/// Appending one processed path grows exactly that worker's account.
proof fn lemma_processed_update(ps: Seq<Vec<String>>, i: int, col: Vec<String>)
    requires
        0 <= i < ps.len(),
    ensures
        processed_ms(ps.update(i, col)).add(ps[i]@.to_multiset()) =~= processed_ms(ps).add(
            col@.to_multiset(),
        ),
        processed_total(ps.update(i, col)) == processed_total(ps) - ps[i]@.len() + col@.len(),
    decreases ps.len(),
{
    let upd = ps.update(i, col);
    if i == ps.len() - 1 {
        assert(upd.drop_last() =~= ps.drop_last());
        assert(upd.last() == col);
        assert(processed_ms(upd) == processed_ms(ps.drop_last()).add(col@.to_multiset()));
        assert(processed_ms(ps) == processed_ms(ps.drop_last()).add(ps[i]@.to_multiset()));
        ms_exchange(processed_ms(ps.drop_last()), col@.to_multiset(), ps[i]@.to_multiset());
    } else {
        assert(upd.drop_last() =~= ps.drop_last().update(i, col));
        assert(upd.last() == ps.last());
        lemma_processed_update(ps.drop_last(), i, col);
        assert(ps.drop_last()[i] == ps[i]);
        let pu = processed_ms(upd.drop_last());
        let pw = processed_ms(ps.drop_last());
        assert(processed_ms(upd) == pu.add(ps.last()@.to_multiset()));
        assert(processed_ms(ps) == pw.add(ps.last()@.to_multiset()));
        assert(pu.add(ps[i]@.to_multiset()) == pw.add(col@.to_multiset()));
        ms_exchange(pu, ps.last()@.to_multiset(), ps[i]@.to_multiset());
        ms_exchange(pw, col@.to_multiset(), ps.last()@.to_multiset());
        assert(processed_ms(upd).add(ps[i]@.to_multiset()) == pu.add(ps[i]@.to_multiset()).add(
            ps.last()@.to_multiset(),
        ));
    }
}

proof fn lemma_busy_ms_empty(ws: Seq<WorkerPhase>, flag: bool)
    requires
        forall|k: int| 0 <= k < ws.len() ==> !((#[trigger] ws[k]) is Busy),
    ensures
        busy_ms(ws) =~= Multiset::empty(),
        busy_emitting(flag, ws) == 0,
    decreases ws.len(),
{
    if ws.len() > 0 {
        assert(forall|k: int| 0 <= k < ws.drop_last().len()
            ==> !((#[trigger] ws.drop_last()[k]) is Busy));
        lemma_busy_ms_empty(ws.drop_last(), flag);
        assert(!(ws.last() is Busy));
    }
}

proof fn lemma_processed_total_is_ms_len(ps: Seq<Vec<String>>)
    ensures
        processed_total(ps) == processed_ms(ps).len(),
    decreases ps.len(),
{
    if ps.len() > 0 {
        lemma_processed_total_is_ms_len(ps.drop_last());
        ps.last()@.to_multiset_ensures();
    }
}

/// The worker-pool machine: the shared queue, every worker's phase, the
/// token, the per-worker record of processed paths, and every event
/// appended so far.  The ghost fields carry the job's accounting: the
/// file list the queue was filled with, and — once cancellation is
/// signalled — how many workers were past the token check and how many
/// files have begun since.
pub struct JobModel {
    pub instr: ConversionInstructions,
    pub queue: Vec<String>,
    pub workers: Vec<WorkerPhase>,
    pub token: CancellationToken,
    pub events: Vec<ProgressEvent>,
    pub processed: Vec<Vec<String>>,
    pub initial_files: Ghost<Seq<String>>,
    pub begun_after_cancel: Ghost<int>,
}

impl JobModel {
    /// The machine's invariant, preserved by every step.
    pub open spec fn inv(self) -> bool {
        &&& self.workers@.len() == self.processed@.len()
        &&& self.workers@.len() < 0x7fff_ffff
        &&& self.queue@.to_multiset().add(busy_ms(self.workers@)).add(
            processed_ms(self.processed@),
        ) == self.initial_files@.to_multiset()
        &&& file_event_count(self.events@) + count_emitting(
            self.instr.copy_unrecognised_files,
            self.queue@,
        ) + busy_emitting(self.instr.copy_unrecognised_files, self.workers@) == count_emitting(
            self.instr.copy_unrecognised_files,
            self.initial_files@,
        )
        &&& self.token.state != JobState::Running ==> self.begun_after_cancel@ + armed_count(
            self.workers@,
        ) <= self.workers@.len()
        &&& self.begun_after_cancel@ >= 0
    }

    /// A fresh machine: the queue holds the discovered files, every
    /// worker is ready, nothing is processed, no event is buffered, and
    /// the token runs.
    pub fn new(instr: ConversionInstructions, files: Vec<String>, worker_count: usize) -> (m:
        JobModel)
        requires
            worker_count < 0x7fff_ffff,
        ensures
            m.inv(),
            m.instr == instr,
            m.queue@ == files@,
            m.initial_files@ == files@,
            m.workers@.len() == worker_count,
            forall|k: int| 0 <= k < worker_count ==> (#[trigger] m.workers@[k]) is Ready,
            m.events@ == Seq::<ProgressEvent>::empty(),
            m.token.state == JobState::Running,
            processed_total(m.processed@) == 0,
    {
        let ghost initial = files@;
        let mut workers: Vec<WorkerPhase> = Vec::new();
        let mut processed: Vec<Vec<String>> = Vec::new();
        let mut k: usize = 0;
        while k < worker_count
            invariant
                k <= worker_count,
                workers@.len() == k,
                processed@.len() == k,
                forall|a: int| 0 <= a < k ==> (#[trigger] workers@[a]) is Ready,
                forall|a: int| 0 <= a < k ==> (#[trigger] processed@[a])@.len() == 0,
                busy_ms(workers@) =~= Multiset::<String>::empty(),
                processed_ms(processed@) =~= Multiset::<String>::empty(),
                processed_total(processed@) == 0,
                busy_emitting(instr.copy_unrecognised_files, workers@) == 0,
                armed_count(workers@) == 0,
            decreases worker_count - k,
        {
            let ghost old_workers = workers@;
            let ghost old_processed = processed@;
            workers.push(WorkerPhase::Ready);
            processed.push(Vec::new());
            proof {
                assert(workers@.drop_last() =~= old_workers);
                assert(processed@.drop_last() =~= old_processed);
            }
            k = k + 1;
        }
        let mut token = CancellationToken::new();
        token.start();
        let m = JobModel {
            instr,
            queue: files,
            workers,
            token,
            events: Vec::new(),
            processed,
            initial_files: Ghost(initial),
            begun_after_cancel: Ghost(0),
        };
        proof {
            assert(m.queue@.to_multiset().add(busy_ms(m.workers@)).add(processed_ms(m.processed@))
                =~= m.initial_files@.to_multiset());
        }
        m
    }

    /// A ready worker reads the token.  When the job is no longer
    /// running it stops on the spot, without popping and without an
    /// event; otherwise it is armed to pop.
    pub fn worker_check(&mut self, w: usize) -> (stop: bool)
        requires
            old(self).inv(),
            w < old(self).workers@.len(),
            old(self).workers@[w as int] is Ready,
        ensures
            final(self).inv(),
            stop <==> old(self).token.state != JobState::Running,
            final(self).workers@ == old(self).workers@.update(
                w as int,
                if stop {
                    WorkerPhase::Stopped
                } else {
                    WorkerPhase::Armed
                },
            ),
            final(self).queue == old(self).queue,
            final(self).events == old(self).events,
            final(self).processed == old(self).processed,
            final(self).token == old(self).token,
            final(self).instr == old(self).instr,
            final(self).initial_files == old(self).initial_files,
            final(self).begun_after_cancel == old(self).begun_after_cancel,
    {
        let ghost ws0 = self.workers@;
        let running = self.token.is_running();
        let next = if running {
            WorkerPhase::Armed
        } else {
            WorkerPhase::Stopped
        };
        let ghost nv = if running { WorkerPhase::Armed } else { WorkerPhase::Stopped };
        self.workers.remove(w);
        self.workers.insert(w, next);
        proof {
            assert(self.workers@ =~= ws0.update(w as int, nv));
            lemma_worker_update(ws0, w as int, nv, self.instr.copy_unrecognised_files);
            assert(busy_ms(self.workers@).add(phase_ms(ws0[w as int])) =~= busy_ms(ws0).add(
                phase_ms(nv),
            ));
            assert(phase_ms(ws0[w as int]) == Multiset::<String>::empty());
            assert(phase_ms(nv) == Multiset::<String>::empty());
            ms_add_empty(busy_ms(self.workers@));
            ms_add_empty(busy_ms(ws0));
            assert(busy_ms(self.workers@) == busy_ms(ws0));
            if self.token.state != JobState::Running {
                lemma_armed_count_bounds(ws0);
            }
        }
        !running
    }

    /// An armed worker pops.  An empty queue finishes the worker with a
    /// worker-finished event; otherwise the newest queued path is handed
    /// to it atomically — no other worker can receive the same path —
    /// and it becomes busy.  A pop after cancellation counts against the
    /// cancellation bound.
    pub fn worker_pop(&mut self, w: usize) -> (r: (Option<String>, Option<ProgressEvent>))
        requires
            old(self).inv(),
            w < old(self).workers@.len(),
            old(self).workers@[w as int] is Armed,
        ensures
            final(self).inv(),
            old(self).queue@.len() == 0 ==> {
                &&& r.0 is None
                &&& r.1 is Some
                &&& r.1.unwrap().kind == EventKind::WorkerFinished
                &&& r.1.unwrap().handling_thread == w + 1
                &&& r.1.unwrap().msg@ == "No more files to convert"@
                &&& final(self).workers@ == old(self).workers@.update(
                    w as int,
                    WorkerPhase::Finished,
                )
                &&& final(self).queue@ == old(self).queue@
                &&& final(self).events@.len() == old(self).events@.len() + 1
                &&& final(self).events@.take(old(self).events@.len() as int) == old(self).events@
                &&& final(self).events@.last().kind == EventKind::WorkerFinished
                &&& final(self).events@.last().handling_thread == w + 1
                &&& final(self).events@.last().msg@ == "No more files to convert"@
            },
            old(self).queue@.len() > 0 ==> {
                &&& r.0 == Some(old(self).queue@.last())
                &&& r.1 is None
                &&& final(self).workers@ == old(self).workers@.update(
                    w as int,
                    WorkerPhase::Busy(old(self).queue@.last()),
                )
                &&& final(self).queue@ == old(self).queue@.drop_last()
                &&& final(self).events == old(self).events
            },
            final(self).processed == old(self).processed,
            final(self).token == old(self).token,
            final(self).instr == old(self).instr,
            final(self).initial_files == old(self).initial_files,
    {
        let ghost ws0 = self.workers@;
        let ghost q0 = self.queue@;
        let path_option = self.queue.pop();
        match path_option {
            Some(path) => {
                let handed = path.clone();
                let ghost nv = WorkerPhase::Busy(path);
                self.workers.remove(w);
                self.workers.insert(w, WorkerPhase::Busy(path));
                if !self.token.is_running() {
                    proof {
                        self.begun_after_cancel@ = self.begun_after_cancel@ + 1;
                    }
                }
                proof {
                    let p = q0.last();
                    assert(self.workers@ =~= ws0.update(w as int, nv));
                    lemma_worker_update(ws0, w as int, nv, self.instr.copy_unrecognised_files);
                    assert(busy_ms(self.workers@).add(phase_ms(ws0[w as int])) =~= busy_ms(
                        ws0,
                    ).add(phase_ms(nv)));
                    assert(phase_ms(ws0[w as int]) == Multiset::<String>::empty());
                    assert(phase_ms(nv) == Multiset::singleton(p));
                    ms_add_empty(busy_ms(self.workers@));
                    assert(busy_ms(self.workers@) == busy_ms(ws0).add(Multiset::singleton(p)));
                    assert(q0.drop_last() =~= q0.take(q0.len() - 1));
                    assert(self.queue@ == q0.drop_last());
                    assert(q0 =~= q0.drop_last().push(p));
                    assert(q0.drop_last().push(p).to_multiset() =~= q0.drop_last().to_multiset(
                    ).insert(p));
                    assert(q0.to_multiset() == q0.drop_last().to_multiset().add(
                        Multiset::singleton(p),
                    ));
                    assert forall|x: String|
                        self.queue@.to_multiset().add(busy_ms(self.workers@)).add(
                            processed_ms(self.processed@),
                        ).count(x) == self.initial_files@.to_multiset().count(x) by {
                        assert(q0.to_multiset().add(busy_ms(ws0)).add(
                            processed_ms(self.processed@),
                        ).count(x) == self.initial_files@.to_multiset().count(x));
                    }
                    assert(self.queue@.to_multiset().add(busy_ms(self.workers@)).add(
                        processed_ms(self.processed@),
                    ) =~= self.initial_files@.to_multiset());
                }
                (Some(handed), None)
            },
            None => {
                let ghost nv = WorkerPhase::Finished;
                self.workers.remove(w);
                self.workers.insert(w, WorkerPhase::Finished);
                let thread_no: i32 = (w as i32) + 1;
                let msg = String::from_str("No more files to convert");
                let msg2 = msg.clone();
                self.events.push(ProgressEvent {
                    handling_thread: thread_no,
                    msg,
                    kind: EventKind::WorkerFinished,
                });
                proof {
                    assert(self.workers@ =~= ws0.update(w as int, nv));
                    lemma_worker_update(ws0, w as int, nv, self.instr.copy_unrecognised_files);
                    assert(busy_ms(self.workers@).add(phase_ms(ws0[w as int])) =~= busy_ms(
                        ws0,
                    ).add(phase_ms(nv)));
                    assert(phase_ms(ws0[w as int]) == Multiset::<String>::empty());
                    assert(phase_ms(nv) == Multiset::<String>::empty());
                    ms_add_empty(busy_ms(self.workers@));
                    ms_add_empty(busy_ms(ws0));
                    assert(busy_ms(self.workers@) == busy_ms(ws0));
                    assert(self.events@.drop_last() =~= old(self).events@);
                    assert(self.events@.take(old(self).events@.len() as int)
                        =~= old(self).events@);
                    if self.token.state != JobState::Running {
                        lemma_armed_count_bounds(ws0);
                    }
                }
                (
                    None,
                    Some(
                        ProgressEvent {
                            handling_thread: thread_no,
                            msg: msg2,
                            kind: EventKind::WorkerFinished,
                        },
                    ),
                )
            },
        }
    }

    /// A busy worker reports its file's outcome.  The file it began is
    /// recorded as processed by this worker and, unless the file was a
    /// skipped copy, exactly one Success or Fail event is appended; the
    /// worker returns to the token check.  A started file always runs to
    /// completion — cancellation never interrupts this step.
    pub fn worker_finish_file(&mut self, w: usize, outcome: FileOutcome) -> (ev: Option<
        ProgressEvent,
    >)
        requires
            old(self).inv(),
            w < old(self).workers@.len(),
            old(self).workers@[w as int] is Busy,
            outcome_fits(old(self).workers@[w as int]->Busy_0@, outcome),
        ensures
            final(self).inv(),
            file_event_matches(
                old(self).instr.copy_unrecognised_files,
                old(self).instr.dest_path@,
                old(self).workers@[w as int]->Busy_0@,
                w + 1,
                outcome,
                ev,
            ),
            final(self).workers@ == old(self).workers@.update(w as int, WorkerPhase::Ready),
            final(self).processed@.len() == old(self).processed@.len(),
            final(self).processed@[w as int]@ == old(self).processed@[w as int]@.push(
                old(self).workers@[w as int]->Busy_0,
            ),
            forall|k: int| 0 <= k < old(self).processed@.len() && k != w
                ==> final(self).processed@[k] == old(self).processed@[k],
            ev is Some ==> {
                &&& final(self).events@.len() == old(self).events@.len() + 1
                &&& final(self).events@.take(old(self).events@.len() as int)
                    == old(self).events@
                &&& final(self).events@.last().kind == ev.unwrap().kind
                &&& final(self).events@.last().handling_thread == w + 1
                &&& final(self).events@.last().msg@ == ev.unwrap().msg@
            },
            ev is None ==> final(self).events == old(self).events,
            final(self).queue == old(self).queue,
            final(self).token == old(self).token,
            final(self).instr == old(self).instr,
            final(self).initial_files == old(self).initial_files,
            final(self).begun_after_cancel == old(self).begun_after_cancel,
    {
        let ghost ws0 = self.workers@;
        let ghost ps0 = self.processed@;
        let phase = self.workers.remove(w);
        let path = match phase {
            WorkerPhase::Busy(p) => p,
            _ => {
                proof {
                    assert(false);
                }
                String::new()
            },
        };
        self.workers.insert(w, WorkerPhase::Ready);

        let mut col = self.processed.remove(w);
        col.push(path.clone());
        self.processed.insert(w, col);

        let thread_no: i32 = (w as i32) + 1;
        let ev = file_event(
            self.instr.copy_unrecognised_files,
            &self.instr.dest_path,
            &path,
            thread_no,
            outcome,
        );
        let ret = match &ev {
            Some(e) => {
                let msg2 = e.msg.clone();
                let kind2 = e.kind;
                self.events.push(ProgressEvent {
                    handling_thread: thread_no,
                    msg: msg2,
                    kind: kind2,
                });
                ev
            },
            None => None,
        };
        proof {
            let p = ws0[w as int]->Busy_0;
            assert(self.workers@ =~= ws0.update(w as int, WorkerPhase::Ready));
            lemma_worker_update(ws0, w as int, WorkerPhase::Ready,
                self.instr.copy_unrecognised_files);
            assert(busy_ms(self.workers@).add(phase_ms(ws0[w as int])) =~= busy_ms(ws0).add(
                phase_ms(WorkerPhase::Ready),
            ));
            assert(phase_ms(ws0[w as int]) == Multiset::singleton(p));
            assert(phase_ms(WorkerPhase::Ready) == Multiset::<String>::empty());
            ms_add_empty(busy_ms(ws0));
            assert(busy_ms(self.workers@).add(Multiset::singleton(p)) == busy_ms(ws0));

            let new_col = self.processed@[w as int];
            assert(self.processed@ =~= ps0.update(w as int, new_col));
            assert(new_col@ =~= ps0[w as int]@.push(p));
            lemma_processed_update(ps0, w as int, new_col);
            assert(processed_ms(self.processed@).add(ps0[w as int]@.to_multiset())
                =~= processed_ms(ps0).add(new_col@.to_multiset()));
            assert(new_col@.to_multiset() =~= ps0[w as int]@.to_multiset().insert(p));
            assert forall|x: String|
                processed_ms(self.processed@).count(x) == processed_ms(ps0).add(
                    Multiset::singleton(p),
                ).count(x) by {
                assert(processed_ms(self.processed@).add(ps0[w as int]@.to_multiset()).count(x)
                    == processed_ms(ps0).add(new_col@.to_multiset()).count(x));
                assert(new_col@.to_multiset().count(x) == ps0[w as int]@.to_multiset().count(x)
                    + Multiset::singleton(p).count(x));
            }
            assert(processed_ms(self.processed@) =~= processed_ms(ps0).add(
                Multiset::singleton(p),
            ));
            assert forall|x: String|
                self.queue@.to_multiset().add(busy_ms(self.workers@)).add(
                    processed_ms(self.processed@),
                ).count(x) == self.initial_files@.to_multiset().count(x) by {
                assert(self.queue@.to_multiset().add(busy_ms(ws0)).add(processed_ms(ps0)).count(
                    x,
                ) == self.initial_files@.to_multiset().count(x));
                assert(busy_ms(self.workers@).count(x) + Multiset::singleton(p).count(x)
                    == busy_ms(ws0).count(x));
            }
            assert(self.queue@.to_multiset().add(busy_ms(self.workers@)).add(
                processed_ms(self.processed@),
            ) =~= self.initial_files@.to_multiset());

            if ret is Some {
                assert(self.events@.drop_last() =~= old(self).events@);
                assert(self.events@.take(old(self).events@.len() as int) =~= old(self).events@);
                assert(file_event_count(self.events@) == file_event_count(old(self).events@)
                    + 1);
            }
            if self.token.state != JobState::Running {
                lemma_armed_count_bounds(ws0);
            }
        }
        ret
    }

    /// A cancel request: the token leaves the running state, so every
    /// worker stops at its next token check.  From this point the
    /// machine counts how many further files begin.
    pub fn cancel(&mut self)
        requires
            old(self).inv(),
        ensures
            final(self).inv(),
            final(self).token.state != JobState::Running,
            final(self).begun_after_cancel@ == 0,
            final(self).workers == old(self).workers,
            final(self).queue == old(self).queue,
            final(self).events == old(self).events,
            final(self).processed == old(self).processed,
            final(self).instr == old(self).instr,
            final(self).initial_files == old(self).initial_files,
    {
        self.token.cancel();
        proof {
            self.begun_after_cancel@ = 0;
            lemma_armed_count_bounds(self.workers@);
        }
    }

    /// After every worker has stopped or finished, the supervisor emits
    /// the single job-finished event.
    pub fn job_finish(&mut self) -> (ev: ProgressEvent)
        requires
            old(self).inv(),
            forall|k: int| 0 <= k < old(self).workers@.len()
                ==> (#[trigger] old(self).workers@[k]) is Finished || old(
                    self,
                ).workers@[k] is Stopped,
        ensures
            final(self).inv(),
            ev.kind == EventKind::JobFinished,
            ev.handling_thread == 0,
            ev.msg@ == "Conversion Finished"@,
            final(self).events@.len() == old(self).events@.len() + 1,
            final(self).events@.take(old(self).events@.len() as int) == old(self).events@,
            final(self).events@.last().kind == EventKind::JobFinished,
            final(self).workers == old(self).workers,
            final(self).queue == old(self).queue,
            final(self).processed == old(self).processed,
            final(self).token == old(self).token,
            final(self).instr == old(self).instr,
            final(self).initial_files == old(self).initial_files,
            final(self).begun_after_cancel == old(self).begun_after_cancel,
    {
        let msg = String::from_str("Conversion Finished");
        let msg2 = msg.clone();
        self.events.push(ProgressEvent {
            handling_thread: 0,
            msg,
            kind: EventKind::JobFinished,
        });
        proof {
            assert(self.events@.drop_last() =~= old(self).events@);
            assert(self.events@.take(old(self).events@.len() as int) =~= old(self).events@);
        }
        ProgressEvent { handling_thread: 0, msg: msg2, kind: EventKind::JobFinished }
    }

    /// Once the queue is drained and no file is in flight, the number of
    /// per-file Success and Fail events appended equals the number of
    /// discovered files classified for conversion plus, when copying is
    /// enabled, the number classified for copying; files skipped by a
    /// disabled copy flag emitted nothing.
    pub proof fn lemma_event_accounting(self)
        requires
            self.inv(),
            self.queue@.len() == 0,
            forall|k: int| 0 <= k < self.workers@.len() ==> !((#[trigger] self.workers@[k]) is Busy),
        ensures
            file_event_count(self.events@) == count_emitting(
                self.instr.copy_unrecognised_files,
                self.initial_files@,
            ),
    {
        lemma_busy_ms_empty(self.workers@, self.instr.copy_unrecognised_files);
    }

    /// Once the queue is drained and no file is in flight, every
    /// discovered path has been processed by exactly one worker: the
    /// multiset of all per-worker records equals the discovered files,
    /// and the per-worker counts sum to their number.
    pub proof fn lemma_exactly_once(self)
        requires
            self.inv(),
            self.queue@.len() == 0,
            forall|k: int| 0 <= k < self.workers@.len() ==> !((#[trigger] self.workers@[k]) is Busy),
        ensures
            processed_ms(self.processed@) =~= self.initial_files@.to_multiset(),
            processed_total(self.processed@) == self.initial_files@.len(),
    {
        lemma_busy_ms_empty(self.workers@, self.instr.copy_unrecognised_files);
        self.queue@.to_multiset_ensures();
        assert(self.queue@.to_multiset().len() == 0);
        assert(self.queue@.to_multiset() =~= Multiset::empty());
        lemma_processed_total_is_ms_len(self.processed@);
        self.initial_files@.to_multiset_ensures();
    }

    /// After cancellation is signalled, no more files begin than there
    /// are workers: each worker can slip at most one more pop past the
    /// token check it had already passed.  Files already begun still run
    /// to completion and report their event — `worker_finish_file` is
    /// never blocked by the token.
    pub proof fn lemma_cancellation_bound(self)
        requires
            self.inv(),
            self.token.state != JobState::Running,
        ensures
            self.begun_after_cancel@ <= self.workers@.len(),
    {
        lemma_armed_count_bounds(self.workers@);
    }
}

} // verus!
