use vstd::prelude::*;
use crate::bits::{mode_text, BitsMode};
use crate::log::{LogLine, Severity};
use crate::paths::{opt_view, ConversionJob};
use crate::preprocess::{directive_line, has_directive, insert_bits};
use crate::text::{joined, join_lines};

verus! {

/// A log line seen as its severity and its message.
pub type LineView = (Severity, Seq<char>);

/// How a run of one external tool ended.
pub enum ToolResult {
    /// The tool could not be started.
    LaunchFailed,
    /// The tool ran and reported failure; its standard-error text.
    Failed(String),
    /// The tool ran and exited with success.
    Succeeded,
}

/// What happened when the last requested action was carried out.
pub enum Event {
    /// The source file was read (its text), or could not be (the reason).
    SourceRead(Result<String, String>),
    /// The prefixed source was written back, or could not be (the reason).
    SourceWritten(Result<(), String>),
    AssemblerFinished(ToolResult),
    ConverterFinished(ToolResult),
    /// The lines of the hex output, or `None` when it could not be read.
    OutputRead(Option<Vec<String>>),
}

/// What the current job waits for.
#[derive(Clone, Copy, Debug, PartialEq, Eq, Structural)]
pub enum Stage {
    ReadSource,
    WriteSource,
    Assemble,
    Convert,
    ReadOutput,
    Finished,
}

/// The outside work the driver has to do next.
pub enum Action {
    /// Read the whole text of this source file.
    ReadSource(String),
    /// Overwrite this source file with this text.
    WriteSource(String, String),
    /// Assemble this source into this flat binary.
    RunAssembler(String, String),
    /// Convert this binary into this Intel HEX file.
    RunConverter(String, String),
    /// Read the lines of this hex file.
    ReadOutput(String),
    /// Nothing: the batch is over.
    Idle,
}

/// What a batch shows to its observers.
pub struct BatchState {
    /// One segment of lines per job attempted in the current batch.
    pub log: Vec<Vec<LogLine>>,
    /// Jobs completed, with success or failure.
    pub done: usize,
    /// Jobs in the current batch.
    pub total: usize,
    /// Every job of the batch has been attempted: progress is full.
    pub finished: bool,
    /// The hex file of the last job that succeeded.
    pub latest_output: Option<String>,
    /// The content of the latest hex file, lines joined by newlines.
    pub preview: String,
}

pub open spec fn log_view(log: Seq<Vec<LogLine>>) -> Seq<Seq<LineView>> {
    log.map_values(|seg: Vec<LogLine>| seg@.map_values(|l: LogLine| l@))
}

/// The log with one more line at the end of its last segment.
pub open spec fn with_line(log: Seq<Seq<LineView>>, l: LineView) -> Seq<Seq<LineView>> {
    log.update(log.len() - 1, log.last().push(l))
}

pub open spec fn str_processing() -> Seq<char> {
    seq!['p', 'r', 'o', 'c', 'e', 's', 's', 'i', 'n', 'g', ' ']
}

pub open spec fn str_sep() -> Seq<char> {
    seq![':', ' ']
}

pub open spec fn str_not_read() -> Seq<char> {
    seq!['c', 'o', 'u', 'l', 'd', ' ', 'n', 'o', 't', ' ', 'r', 'e', 'a', 'd', ' ']
}

pub open spec fn str_not_inserted() -> Seq<char> {
    seq!['c', 'o', 'u', 'l', 'd', ' ', 'n', 'o', 't', ' ', 'i', 'n', 's', 'e', 'r', 't', ' ']
}

pub open spec fn str_inserted() -> Seq<char> {
    seq!['i', 'n', 's', 'e', 'r', 't', 'e', 'd', ' ']
}

pub open spec fn str_into() -> Seq<char> {
    seq![' ', 'i', 'n', 't', 'o', ' ']
}

pub open spec fn str_no_assembler() -> Seq<char> {
    seq![
        'c', 'o', 'u', 'l', 'd', ' ', 'n', 'o', 't', ' ', 'r', 'u', 'n', ' ',
        'a', 's', 's', 'e', 'm', 'b', 'l', 'e', 'r',
    ]
}

pub open spec fn str_assembler_failed() -> Seq<char> {
    seq!['a', 's', 's', 'e', 'm', 'b', 'l', 'e', 'r', ' ', 'f', 'a', 'i', 'l', 'e', 'd', ':', ' ']
}

pub open spec fn str_no_converter() -> Seq<char> {
    seq![
        'c', 'o', 'u', 'l', 'd', ' ', 'n', 'o', 't', ' ', 'r', 'u', 'n', ' ',
        'c', 'o', 'n', 'v', 'e', 'r', 't', 'e', 'r',
    ]
}

pub open spec fn str_converter_failed() -> Seq<char> {
    seq![
        'c', 'o', 'n', 'v', 'e', 'r', 't', 'e', 'r', ' ', 'f', 'a', 'i', 'l', 'e', 'd', ':', ' ',
    ]
}

pub open spec fn str_saved() -> Seq<char> {
    seq!['h', 'e', 'x', ' ', 's', 'a', 'v', 'e', 'd', ' ', 'a', 't', ' ']
}

/// The directive as named in messages: `[bits N]` without the newline.
pub open spec fn directive_name(m: BitsMode) -> Seq<char> {
    directive_line(m).drop_last()
}

/// The line that opens the log of a job.
pub open spec fn processing_line(source: Seq<char>) -> LineView {
    (Severity::Info, str_processing() + source)
}

pub open spec fn not_read_line(source: Seq<char>, why: Seq<char>) -> LineView {
    (Severity::Warning, str_not_read() + source + str_sep() + why)
}

pub open spec fn not_inserted_line(m: BitsMode, why: Seq<char>) -> LineView {
    (Severity::Warning, str_not_inserted() + directive_name(m) + str_sep() + why)
}

pub open spec fn inserted_line(m: BitsMode, source: Seq<char>) -> LineView {
    (Severity::Info, str_inserted() + directive_name(m) + str_into() + source)
}

pub open spec fn tool_line(r: ToolResult, no_launch: Seq<char>, failed: Seq<char>) -> LineView {
    match r {
        ToolResult::Failed(err) => (Severity::Error, failed + err@),
        _ => (Severity::Error, no_launch),
    }
}

pub open spec fn saved_line(hex: Seq<char>) -> LineView {
    (Severity::Success, str_saved() + hex)
}

/// The stage a job starts in.
pub open spec fn first_stage(auto_insert: bool) -> Stage {
    if auto_insert {
        Stage::ReadSource
    } else {
        Stage::Assemble
    }
}

/// How many stages are left in the current job once it is in `st`.
pub open spec fn stage_rank(st: Stage) -> nat {
    match st {
        Stage::ReadSource => 4,
        Stage::WriteSource => 3,
        Stage::Assemble => 2,
        Stage::Convert => 1,
        _ => 0,
    }
}

/// Whether an event answers the action a stage asked for.
pub open spec fn answers(st: Stage, ev: Event) -> bool {
    match ev {
        Event::SourceRead(_) => st == Stage::ReadSource,
        Event::SourceWritten(_) => st == Stage::WriteSource,
        Event::AssemblerFinished(_) => st == Stage::Assemble,
        Event::ConverterFinished(_) => st == Stage::Convert,
        Event::OutputRead(_) => st == Stage::ReadOutput,
    }
}

/// A sequential run of conversion jobs.
pub struct Batch {
    pub jobs: Vec<ConversionJob>,
    pub mode: BitsMode,
    pub auto_insert: bool,
    pub stage: Stage,
    /// The new source text while `stage` is `WriteSource`.
    pub pending: String,
}

impl BatchState {
    /// The log as segments of line views.
    pub open spec fn log_lines(&self) -> Seq<Seq<LineView>> {
        log_view(self.log@)
    }

    /// Nothing logged, no progress, no output yet.
    pub fn new() -> (r: BatchState)
        ensures
            r.log_lines() == Seq::<Seq<LineView>>::empty(),
            r.done == 0,
            r.total == 0,
            !r.finished,
            r.latest_output is None,
            r.preview@ == Seq::<char>::empty(),
    {
        let r = BatchState {
            log: Vec::new(),
            done: 0,
            total: 0,
            finished: false,
            latest_output: None,
            preview: String::new(),
        };
        assert(r.log_lines() =~= Seq::<Seq<LineView>>::empty());
        r
    }

    /// Empties the log and keeps everything else.
    pub fn clear_log(&mut self)
        ensures
            final(self).log_lines() == Seq::<Seq<LineView>>::empty(),
            final(self).done == old(self).done,
            final(self).total == old(self).total,
            final(self).finished == old(self).finished,
            final(self).latest_output == old(self).latest_output,
            final(self).preview == old(self).preview,
    {
        self.log = Vec::new();
        assert(self.log_lines() =~= Seq::<Seq<LineView>>::empty());
    }

    /// Appends a line to the last segment of the log.
    fn push_line(&mut self, l: LogLine)
        requires
            old(self).log.len() > 0,
        ensures
            final(self).log_lines() == with_line(old(self).log_lines(), l@),
            final(self).done == old(self).done,
            final(self).total == old(self).total,
            final(self).finished == old(self).finished,
            final(self).latest_output == old(self).latest_output,
            final(self).preview == old(self).preview,
    {
        let ghost before = self.log_lines();
        let ghost old_log = self.log@;
        let mut seg = self.log.pop().unwrap();
        let ghost old_seg = seg@;
        seg.push(l);
        assert(seg@.map_values(|x: LogLine| x@) =~= old_seg.map_values(|x: LogLine| x@).push(l@));
        self.log.push(seg);
        assert(self.log@ =~= old_log.update(old_log.len() - 1, seg));
        assert(self.log_lines() =~= with_line(before, l@));
    }
}


/// `a + b`.
fn cat2(a: &str, b: &str) -> (r: String)
    ensures
        r@ == a@ + b@,
{
    let mut r = String::from_str(a);
    r.append(b);
    r
}

/// `a + b + c + d`.
fn cat4(a: &str, b: &str, c: &str, d: &str) -> (r: String)
    ensures
        r@ == a@ + b@ + c@ + d@,
{
    let mut r = String::from_str(a);
    r.append(b);
    r.append(c);
    r.append(d);
    r
}

/// `[bits N]`.
fn directive_name_of(m: BitsMode) -> (r: String)
    ensures
        r@ == directive_name(m),
{
    proof {
        reveal_strlit("[bits ");
        reveal_strlit("]");
    }
    let mut r = cat2("[bits ", m.bits_mode_str());
    r.append("]");
    assert(directive_line(m).drop_last() =~= seq!['[', 'b', 'i', 't', 's', ' '] + mode_text(m) + seq![']']);
    assert(r@ =~= directive_name(m));
    r
}

fn processing_msg(source: &str) -> (r: LogLine)
    ensures
        r@ == processing_line(source@),
{
    proof {
        reveal_strlit("processing ");
    }
    assert("processing "@ =~= str_processing());
    LogLine::new(Severity::Info, cat2("processing ", source))
}

fn not_read_msg(source: &str, why: &str) -> (r: LogLine)
    ensures
        r@ == not_read_line(source@, why@),
{
    proof {
        reveal_strlit("could not read ");
        reveal_strlit(": ");
    }
    assert("could not read "@ =~= str_not_read());
    assert(": "@ =~= str_sep());
    LogLine::new(Severity::Warning, cat4("could not read ", source, ": ", why))
}

fn not_inserted_msg(m: BitsMode, why: &str) -> (r: LogLine)
    ensures
        r@ == not_inserted_line(m, why@),
{
    proof {
        reveal_strlit("could not insert ");
        reveal_strlit(": ");
    }
    assert("could not insert "@ =~= str_not_inserted());
    assert(": "@ =~= str_sep());
    let d = directive_name_of(m);
    LogLine::new(Severity::Warning, cat4("could not insert ", d.as_str(), ": ", why))
}

fn inserted_msg(m: BitsMode, source: &str) -> (r: LogLine)
    ensures
        r@ == inserted_line(m, source@),
{
    proof {
        reveal_strlit("inserted ");
        reveal_strlit(" into ");
    }
    assert("inserted "@ =~= str_inserted());
    assert(" into "@ =~= str_into());
    let d = directive_name_of(m);
    LogLine::new(Severity::Info, cat4("inserted ", d.as_str(), " into ", source))
}

fn saved_msg(hex: &str) -> (r: LogLine)
    ensures
        r@ == saved_line(hex@),
{
    proof {
        reveal_strlit("hex saved at ");
    }
    assert("hex saved at "@ =~= str_saved());
    LogLine::new(Severity::Success, cat2("hex saved at ", hex))
}

/// The error line for a tool run that did not succeed.
fn tool_msg(r: ToolResult, assembler: bool) -> (l: LogLine)
    requires
        !(r is Succeeded),
    ensures
        assembler ==> l@ == tool_line(r, str_no_assembler(), str_assembler_failed()),
        !assembler ==> l@ == tool_line(r, str_no_converter(), str_converter_failed()),
{
    proof {
        reveal_strlit("could not run assembler");
        reveal_strlit("assembler failed: ");
        reveal_strlit("could not run converter");
        reveal_strlit("converter failed: ");
    }
    assert("could not run assembler"@ =~= str_no_assembler());
    assert("assembler failed: "@ =~= str_assembler_failed());
    assert("could not run converter"@ =~= str_no_converter());
    assert("converter failed: "@ =~= str_converter_failed());
    let text = match r {
        ToolResult::Failed(err) => {
            if assembler {
                cat2("assembler failed: ", err.as_str())
            } else {
                cat2("converter failed: ", err.as_str())
            }
        },
        _ => {
            if assembler {
                String::from_str("could not run assembler")
            } else {
                String::from_str("could not run converter")
            }
        },
    };
    LogLine::new(Severity::Error, text)
}

/// Progress and job count are unchanged.
pub open spec fn same_progress(s0: BatchState, s1: BatchState) -> bool {
    &&& s1.done == s0.done
    &&& s1.total == s0.total
    &&& s1.finished == s0.finished
}

/// The latest output and its preview are unchanged.
pub open spec fn kept_outputs(s0: BatchState, s1: BatchState) -> bool {
    &&& s1.latest_output == s0.latest_output
    &&& s1.preview == s0.preview
}

/// The current job of `b0` ended with the log `log`: the next job starts with
/// its own segment, or the batch is finished when it was the last.
pub open spec fn closed(b0: Batch, s0: BatchState, log: Seq<Seq<LineView>>, b1: Batch, s1: BatchState) -> bool {
    &&& s1.done == s0.done + 1
    &&& s1.total == s0.total
    &&& if s0.done + 1 < s0.total {
        &&& !s1.finished
        &&& s1.log_lines() == log.push(seq![processing_line(b0.jobs[s0.done + 1].source_path@)])
        &&& b1.stage == first_stage(b0.auto_insert)
    } else {
        &&& s1.finished
        &&& s1.log_lines() == log
        &&& b1.stage == Stage::Finished
    }
}

/// One accepted event takes `(b0, s0)` to `(b1, s1)`.
pub open spec fn transition(b0: Batch, s0: BatchState, ev: Event, b1: Batch, s1: BatchState) -> bool {
    let job = b0.jobs[s0.done as int];
    let log0 = s0.log_lines();
    match ev {
        Event::SourceRead(Err(why)) => {
            &&& b1.stage == Stage::Assemble
            &&& s1.log_lines() == with_line(log0, not_read_line(job.source_path@, why@))
            &&& same_progress(s0, s1)
            &&& kept_outputs(s0, s1)
        },
        Event::SourceRead(Ok(text)) => {
            &&& s1.log_lines() == log0
            &&& same_progress(s0, s1)
            &&& kept_outputs(s0, s1)
            &&& if has_directive(text@) {
                b1.stage == Stage::Assemble
            } else {
                &&& b1.stage == Stage::WriteSource
                &&& b1.pending@ == directive_line(b0.mode) + text@
            }
        },
        Event::SourceWritten(Err(why)) => {
            &&& b1.stage == Stage::Assemble
            &&& s1.log_lines() == with_line(log0, not_inserted_line(b0.mode, why@))
            &&& same_progress(s0, s1)
            &&& kept_outputs(s0, s1)
        },
        Event::SourceWritten(Ok(_)) => {
            &&& b1.stage == Stage::Assemble
            &&& s1.log_lines() == with_line(log0, inserted_line(b0.mode, job.source_path@))
            &&& same_progress(s0, s1)
            &&& kept_outputs(s0, s1)
        },
        Event::AssemblerFinished(ToolResult::Succeeded) => {
            &&& b1.stage == Stage::Convert
            &&& s1.log_lines() == log0
            &&& same_progress(s0, s1)
            &&& kept_outputs(s0, s1)
        },
        Event::AssemblerFinished(r) => {
            &&& closed(b0, s0, with_line(log0, tool_line(r, str_no_assembler(), str_assembler_failed())), b1, s1)
            &&& kept_outputs(s0, s1)
        },
        Event::ConverterFinished(ToolResult::Succeeded) => {
            &&& b1.stage == Stage::ReadOutput
            &&& s1.log_lines() == with_line(log0, saved_line(job.hex_path@))
            &&& same_progress(s0, s1)
            &&& opt_view(s1.latest_output) == Some(job.hex_path@)
            &&& s1.preview == s0.preview
        },
        Event::ConverterFinished(r) => {
            &&& closed(b0, s0, with_line(log0, tool_line(r, str_no_converter(), str_converter_failed())), b1, s1)
            &&& kept_outputs(s0, s1)
        },
        Event::OutputRead(Some(lines)) => {
            &&& closed(b0, s0, log0, b1, s1)
            &&& s1.latest_output == s0.latest_output
            &&& s1.preview@ == joined(lines.deep_view())
        },
        Event::OutputRead(None) => {
            &&& closed(b0, s0, log0, b1, s1)
            &&& kept_outputs(s0, s1)
        },
    }
}

impl Batch {
    /// The batch and the state it shows agree: one log segment per job
    /// begun, each opened by its job's source, in job order.
    pub open spec fn wf(&self, s: BatchState) -> bool {
        &&& s.total == self.jobs.len()
        &&& s.done <= s.total
        &&& (s.finished <==> s.done == s.total)
        &&& (s.finished <==> self.stage == Stage::Finished)
        &&& s.log_lines().len() == if s.finished { s.done as int } else { s.done + 1 }
        &&& forall|i: int|
            0 <= i < s.log_lines().len() ==> (#[trigger] s.log_lines()[i]).len() > 0
                && s.log_lines()[i][0] == processing_line(self.jobs[i].source_path@)
    }

    /// A bound on the steps left before the batch is finished.
    pub open spec fn remaining(&self, s: BatchState) -> nat {
        ((s.total - s.done) * 5 + stage_rank(self.stage)) as nat
    }

    /// `a` is the action that the current stage asks for.
    pub open spec fn asks(&self, s: BatchState, a: Action) -> bool {
        let job = self.jobs[s.done as int];
        match self.stage {
            Stage::ReadSource => a matches Action::ReadSource(p) && p@ == job.source_path@,
            Stage::WriteSource => a matches Action::WriteSource(p, t) && p@ == job.source_path@
                && t@ == self.pending@,
            Stage::Assemble => a matches Action::RunAssembler(p, b) && p@ == job.source_path@
                && b@ == job.bin_path@,
            Stage::Convert => a matches Action::RunConverter(b, h) && b@ == job.bin_path@ && h@
                == job.hex_path@,
            Stage::ReadOutput => a matches Action::ReadOutput(h) && h@ == job.hex_path@,
            Stage::Finished => a is Idle,
        }
    }

    /// Starts a batch over `jobs`. With no jobs nothing starts and the state
    /// is left alone; otherwise the log is replaced by the first job's
    /// segment and progress restarts from zero.
    pub fn start(jobs: Vec<ConversionJob>, mode: BitsMode, auto_insert: bool, state: &mut BatchState) -> (r: Option<Batch>)
        ensures
            r is None <==> jobs.len() == 0,
            r is None ==> *final(state) == *old(state),
            r matches Some(b) ==> {
                &&& b.wf(*final(state))
                &&& b.jobs@ == jobs@
                &&& b.mode == mode
                &&& b.auto_insert == auto_insert
                &&& b.stage == first_stage(auto_insert)
                &&& final(state).done == 0
                &&& final(state).total == jobs.len()
                &&& !final(state).finished
                &&& final(state).log_lines() == seq![seq![processing_line(jobs[0].source_path@)]]
                &&& kept_outputs(*old(state), *final(state))
            },
    {
        if jobs.len() == 0 {
            return None;
        }
        let first = processing_msg(jobs[0].source_path.as_str());
        let mut seg: Vec<LogLine> = Vec::new();
        seg.push(first);
        assert(seg@.map_values(|l: LogLine| l@) =~= seq![processing_line(jobs[0].source_path@)]);
        let mut log: Vec<Vec<LogLine>> = Vec::new();
        log.push(seg);
        assert(log@ =~= seq![seg]);
        state.log = log;
        state.done = 0;
        state.total = jobs.len();
        state.finished = false;
        assert(state.log_lines() =~= seq![seq![processing_line(jobs[0].source_path@)]]);
        let stage = if auto_insert {
            Stage::ReadSource
        } else {
            Stage::Assemble
        };
        Some(Batch { jobs, mode, auto_insert, stage, pending: String::new() })
    }

    /// The outside work that the current stage asks for.
    pub fn next_action(&self, state: &BatchState) -> (a: Action)
        requires
            self.wf(*state),
        ensures
            self.asks(*state, a),
    {
        if self.stage == Stage::Finished {
            return Action::Idle;
        }
        let job = &self.jobs[state.done];
        match self.stage {
            Stage::ReadSource => Action::ReadSource(job.source_path.clone()),
            Stage::WriteSource => Action::WriteSource(job.source_path.clone(), self.pending.clone()),
            Stage::Assemble => Action::RunAssembler(job.source_path.clone(), job.bin_path.clone()),
            Stage::Convert => Action::RunConverter(job.bin_path.clone(), job.hex_path.clone()),
            Stage::ReadOutput => Action::ReadOutput(job.hex_path.clone()),
            Stage::Finished => Action::Idle,
        }
    }

    /// Ends the current job and opens the next one, or finishes the batch.
    fn close_job(&mut self, state: &mut BatchState)
        requires
            old(state).total == old(self).jobs.len(),
            old(state).done < old(state).total,
            !old(state).finished,
            old(state).log_lines().len() == old(state).done + 1,
            forall|i: int|
                0 <= i < old(state).log_lines().len() ==> (#[trigger] old(state).log_lines()[i]).len() > 0
                    && old(state).log_lines()[i][0] == processing_line(old(self).jobs[i].source_path@),
        ensures
            closed(*old(self), *old(state), old(state).log_lines(), *final(self), *final(state)),
            kept_outputs(*old(state), *final(state)),
            final(self).wf(*final(state)),
            final(self).jobs == old(self).jobs,
            final(self).mode == old(self).mode,
            final(self).auto_insert == old(self).auto_insert,
    {
        let ghost log0 = state.log_lines();
        state.done = state.done + 1;
        if state.done < state.total {
            let line = processing_msg(self.jobs[state.done].source_path.as_str());
            let mut seg: Vec<LogLine> = Vec::new();
            seg.push(line);
            assert(seg@.map_values(|l: LogLine| l@) =~= seq![processing_line(self.jobs[state.done as int].source_path@)]);
            state.log.push(seg);
            assert(state.log_lines() =~= log0.push(seq![processing_line(self.jobs[state.done as int].source_path@)]));
            self.stage = if self.auto_insert {
                Stage::ReadSource
            } else {
                Stage::Assemble
            };
        } else {
            state.finished = true;
            self.stage = Stage::Finished;
        }
    }

    /// Whether `ev` answers what the current stage asked for.
    pub fn accepts(&self, ev: &Event) -> (r: bool)
        ensures
            r == answers(self.stage, *ev),
    {
        match ev {
            Event::SourceRead(_) => self.stage == Stage::ReadSource,
            Event::SourceWritten(_) => self.stage == Stage::WriteSource,
            Event::AssemblerFinished(_) => self.stage == Stage::Assemble,
            Event::ConverterFinished(_) => self.stage == Stage::Convert,
            Event::OutputRead(_) => self.stage == Stage::ReadOutput,
        }
    }

    /// Takes the outcome of the last action, updates the batch and the state
    /// it shows, and returns the next action. An event that does not answer
    /// the current stage changes nothing. A job that fails at any stage ends
    /// there and the batch goes on with the next job.
    pub fn step(&mut self, state: &mut BatchState, ev: Event) -> (a: Action)
        requires
            old(self).wf(*old(state)),
        ensures
            final(self).wf(*final(state)),
            final(self).jobs == old(self).jobs,
            final(self).mode == old(self).mode,
            final(self).auto_insert == old(self).auto_insert,
            final(self).asks(*final(state), a),
            answers(old(self).stage, ev) ==> transition(*old(self), *old(state), ev, *final(self), *final(state)),
            answers(old(self).stage, ev) ==> final(self).remaining(*final(state)) < old(self).remaining(*old(state)),
            !answers(old(self).stage, ev) ==> *final(self) == *old(self) && *final(state) == *old(state),
    {
        if !self.accepts(&ev) {
            return self.next_action(state);
        }
        let ghost log0 = state.log_lines();
        let i = state.done;
        proof {
            lemma_with_line_heads(log0);
        }
        match ev {
            Event::SourceRead(Err(why)) => {
                let l = not_read_msg(self.jobs[i].source_path.as_str(), why.as_str());
                state.push_line(l);
                self.stage = Stage::Assemble;
            },
            Event::SourceRead(Ok(text)) => {
                match insert_bits(text.as_str(), self.mode) {
                    None => {
                        self.stage = Stage::Assemble;
                    },
                    Some(t) => {
                        self.pending = t;
                        self.stage = Stage::WriteSource;
                    },
                }
            },
            Event::SourceWritten(Err(why)) => {
                let l = not_inserted_msg(self.mode, why.as_str());
                state.push_line(l);
                self.stage = Stage::Assemble;
            },
            Event::SourceWritten(Ok(())) => {
                let l = inserted_msg(self.mode, self.jobs[i].source_path.as_str());
                state.push_line(l);
                self.stage = Stage::Assemble;
            },
            Event::AssemblerFinished(ToolResult::Succeeded) => {
                self.stage = Stage::Convert;
            },
            Event::AssemblerFinished(r) => {
                let l = tool_msg(r, true);
                state.push_line(l);
                self.close_job(state);
            },
            Event::ConverterFinished(ToolResult::Succeeded) => {
                let l = saved_msg(self.jobs[i].hex_path.as_str());
                state.push_line(l);
                state.latest_output = Some(self.jobs[i].hex_path.clone());
                self.stage = Stage::ReadOutput;
            },
            Event::ConverterFinished(r) => {
                let l = tool_msg(r, false);
                state.push_line(l);
                self.close_job(state);
            },
            Event::OutputRead(Some(lines)) => {
                state.preview = join_lines(&lines);
                self.close_job(state);
            },
            Event::OutputRead(None) => {
                self.close_job(state);
            },
        }
        self.next_action(state)
    }
}

/// Adding a line to the last segment keeps every segment's first line.
proof fn lemma_with_line_heads(log: Seq<Seq<LineView>>)
    requires
        log.len() > 0,
    ensures
        forall|l: LineView, i: int|
            0 <= i < log.len() ==> (#[trigger] with_line(log, l)[i]).len() >= log[i].len()
                && (log[i].len() > 0 ==> with_line(log, l)[i][0] == log[i][0]),
        forall|l: LineView| (#[trigger] with_line(log, l)).len() == log.len(),
{
}

/// A finished batch over N jobs shows full progress, N of N, and holds exactly
/// N job logs, the i-th opened by the i-th job's source: every job was
/// attempted once, in order, whatever became of it.
pub proof fn lemma_finished_batch(b: Batch, s: BatchState)
    requires
        b.wf(s),
        s.finished,
    ensures
        s.done == b.jobs.len(),
        s.total == b.jobs.len(),
        s.log_lines().len() == b.jobs.len(),
        forall|i: int|
            0 <= i < b.jobs.len() ==> (#[trigger] s.log_lines()[i]).len() > 0
                && s.log_lines()[i][0] == processing_line(b.jobs[i].source_path@),
{
}

/// A batch has no steps left exactly when it is finished; since each
/// accepted event lowers `remaining`, every batch finishes.
pub proof fn lemma_batch_ends(b: Batch, s: BatchState)
    requires
        b.wf(s),
    ensures
        b.remaining(s) == 0 <==> s.finished,
{
}

} // verus!
