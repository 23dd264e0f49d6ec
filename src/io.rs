//! Handlers that observe an emulator's serial console and may answer it.
//!
//! A handler receives every chunk of console output, in order, and decides
//! after each one whether the run goes on, whether bytes are written to the
//! console's input, or whether the emulator is shut down. The built-in
//! handlers keep everything they saw, so that it can be inspected after the
//! run through [`IoHandler::finish`].
use vstd::prelude::*;
use vstd::slice::slice_to_vec;
use vstd::string::StringSliceAdditionalSpecFns;

use crate::bytes::{append_bytes, contains_bytes, occurs_at, occurs_in};
use crate::qemu::Invocation;

verus! {

/// What a handler asks of the runner after a chunk of console output.
#[derive(Debug)]
pub enum IoAction {
    /// Keep running; nothing to do.
    Continue,
    /// Write these bytes to the emulator's console input.
    SendInput(Vec<u8>),
    /// Stop the emulator now.
    Shutdown,
}

/// Everything a handler kept over one run.
#[derive(Debug, Clone)]
pub struct CapturedIo {
    /// Console (serial) bytes.
    pub serial: Vec<u8>,
    /// Diagnostic (stderr) bytes.
    pub stderr: Vec<u8>,
}

/// The bytes a capturing handler has kept so far, as sequences.
pub struct IoLog {
    pub serial: Seq<u8>,
    pub stderr: Seq<u8>,
}

/// The log before anything was delivered.
pub open spec fn empty_log() -> IoLog {
    IoLog { serial: Seq::empty(), stderr: Seq::empty() }
}

/// The log after a chunk of console output.
pub open spec fn log_output(log: IoLog, data: Seq<u8>) -> IoLog {
    IoLog { serial: log.serial + data, stderr: log.stderr }
}

/// The log after a chunk of diagnostic output.
pub open spec fn log_stderr(log: IoLog, data: Seq<u8>) -> IoLog {
    IoLog { serial: log.serial, stderr: log.stderr + data }
}

/// Whether `c` holds exactly the bytes of `log`.
pub open spec fn captures(c: CapturedIo, log: IoLog) -> bool {
    c.serial@ == log.serial && c.stderr@ == log.stderr
}

/// Callbacks through which a runner reports a run to its observer.
///
/// Each hook has a default that does nothing, so an implementation only
/// overrides what it needs. The runner calls the hooks from one thread only,
/// in the order in which the events happened.
pub trait IoHandler: std::marker::Sized {
    /// Whether `after` and `answer` are what this handler may become and
    /// answer when handed the console chunk `data`. An implementation that
    /// does not state this promises nothing.
    open spec fn output_answered(&self, data: Seq<u8>, after: Self, answer: IoAction) -> bool {
        true
    }

    /// Whether `after` is what this handler may become when handed the
    /// diagnostic chunk `data`. An implementation that does not state this
    /// promises nothing.
    open spec fn stderr_taken(&self, data: Seq<u8>, after: Self) -> bool {
        true
    }

    /// Called once per chunk of console output; the answer steers the run.
    fn on_output(&mut self, data: &[u8]) -> (r: IoAction)
        ensures
            old(self).output_answered(data@, *final(self), r),
    ;

    /// Called once per chunk of diagnostic output.
    fn on_stderr(&mut self, data: &[u8])
        ensures
            old(self).stderr_taken(data@, *final(self)),
    ;

    /// Called when the emulator has exited, before `finish`.
    fn on_exit(&mut self, exit_code: i32, timed_out: bool) {
        let _ = (exit_code, timed_out);
    }

    /// Called with the command line before the emulator starts.
    fn on_start(&mut self, invocation: &Invocation) {
        let _ = invocation;
    }

    /// Consumes the handler and hands over what it kept, if anything.
    fn finish(self) -> (r: Option<CapturedIo>)
    {
        None
    }
}

/// Keeps every console and diagnostic byte, in delivery order.
#[derive(Debug, Default)]
pub struct CaptureHandler {
    serial: Vec<u8>,
    stderr: Vec<u8>,
}

impl View for CaptureHandler {
    type V = IoLog;

    closed spec fn view(&self) -> IoLog {
        IoLog { serial: self.serial@, stderr: self.stderr@ }
    }
}

impl CaptureHandler {
    /// A handler that has seen nothing yet.
    pub fn new() -> (r: CaptureHandler)
        ensures
            r@ == empty_log(),
    {
        let r = CaptureHandler { serial: Vec::new(), stderr: Vec::new() };
        assert(r@.serial =~= Seq::<u8>::empty());
        r
    }
}

impl IoHandler for CaptureHandler {
    open spec fn output_answered(&self, data: Seq<u8>, after: Self, answer: IoAction) -> bool {
        after@ == log_output(self@, data) && answer is Continue
    }

    open spec fn stderr_taken(&self, data: Seq<u8>, after: Self) -> bool {
        after@ == log_stderr(self@, data)
    }

    fn on_output(&mut self, data: &[u8]) -> (r: IoAction)
        ensures
            final(self)@ == log_output(old(self)@, data@),
            r is Continue,
    {
        append_bytes(&mut self.serial, data);
        IoAction::Continue
    }

    fn on_stderr(&mut self, data: &[u8])
        ensures
            final(self)@ == log_stderr(old(self)@, data@),
    {
        append_bytes(&mut self.stderr, data);
    }

    fn finish(self) -> (r: Option<CapturedIo>)
        ensures
            r is Some && captures(r->0, self@),
    {
        Some(CapturedIo { serial: self.serial, stderr: self.stderr })
    }
}

/// Relies on `std::io::Write::write_all` on `std::io::stdout()`: the bytes go
/// to this process's standard output; a failed write is ignored.
#[verifier::external_body]
fn echo_to_stdout(data: &[u8]) {
    let _ = std::io::Write::write_all(&mut std::io::stdout(), data);
}

/// Relies on `std::io::Write::write_all` on `std::io::stderr()`: the bytes go
/// to this process's standard error; a failed write is ignored.
#[verifier::external_body]
fn echo_to_stderr(data: &[u8]) {
    let _ = std::io::Write::write_all(&mut std::io::stderr(), data);
}

/// Keeps every byte like [`CaptureHandler`] and also echoes it to this
/// process's own standard output and standard error.
#[derive(Debug, Default)]
pub struct TeeHandler {
    capture: CaptureHandler,
}

impl View for TeeHandler {
    type V = IoLog;

    closed spec fn view(&self) -> IoLog {
        self.capture@
    }
}

impl TeeHandler {
    /// A handler that has seen nothing yet.
    pub fn new() -> (r: TeeHandler)
        ensures
            r@ == empty_log(),
    {
        TeeHandler { capture: CaptureHandler::new() }
    }
}

impl IoHandler for TeeHandler {
    open spec fn output_answered(&self, data: Seq<u8>, after: Self, answer: IoAction) -> bool {
        after@ == log_output(self@, data) && answer is Continue
    }

    open spec fn stderr_taken(&self, data: Seq<u8>, after: Self) -> bool {
        after@ == log_stderr(self@, data)
    }

    fn on_output(&mut self, data: &[u8]) -> (r: IoAction)
        ensures
            final(self)@ == log_output(old(self)@, data@),
            r is Continue,
    {
        echo_to_stdout(data);
        self.capture.on_output(data)
    }

    fn on_stderr(&mut self, data: &[u8])
        ensures
            final(self)@ == log_stderr(old(self)@, data@),
    {
        echo_to_stderr(data);
        self.capture.on_stderr(data);
    }

    fn finish(self) -> (r: Option<CapturedIo>)
        ensures
            r is Some && captures(r->0, self@),
    {
        self.capture.finish()
    }
}

/// The default smallest window, in bytes, that the responder's rolling
/// buffer keeps.
pub const MIN_WINDOW: usize = 4096;

/// A pattern to look for and the bytes to answer it with.
#[derive(Debug, Clone)]
struct PatternRule {
    pattern: Vec<u8>,
    response: Vec<u8>,
}

/// The rules, as (pattern bytes, response bytes) pairs, in the order added.
pub type RuleSeq = Seq<(Seq<u8>, Seq<u8>)>;

/// What a [`PatternResponder`] holds: its rules, its rolling buffer and its log.
pub struct ResponderState {
    pub rules: RuleSeq,
    pub floor: nat,
    pub buffer: Seq<u8>,
    pub log: IoLog,
}

/// The length of the longest pattern among `rules` (0 when there is none).
pub open spec fn longest_pattern(rules: RuleSeq) -> nat
    decreases rules.len(),
{
    if rules.len() == 0 {
        0
    } else {
        let rest = longest_pattern(rules.drop_last());
        let last = rules.last().0.len();
        if last > rest { last } else { rest }
    }
}

/// The number of bytes the rolling buffer is cut back to once it holds more
/// than twice as many: the longest pattern's length, and at least `floor`.
pub open spec fn window(rules: RuleSeq, floor: nat) -> nat {
    let l = longest_pattern(rules);
    if l > floor { l } else { floor }
}

/// `buf` cut back to its last `w` bytes when it holds more than `2 * w`.
pub open spec fn trim_to_window(buf: Seq<u8>, w: nat) -> Seq<u8> {
    if buf.len() > 2 * w {
        buf.subrange(buf.len() - w, buf.len() as int)
    } else {
        buf
    }
}

/// The first rule, from position `from` on, whose pattern stands in `buf`.
pub open spec fn first_match_from(rules: RuleSeq, buf: Seq<u8>, from: int) -> Option<int>
    decreases rules.len() - from,
{
    if from < 0 || from >= rules.len() {
        None
    } else if occurs_in(buf, rules[from].0) {
        Some(from)
    } else {
        first_match_from(rules, buf, from + 1)
    }
}

/// The first rule whose pattern stands in `buf`: rule order breaks ties.
pub open spec fn first_match(rules: RuleSeq, buf: Seq<u8>) -> Option<int> {
    first_match_from(rules, buf, 0)
}

/// The responder's state and answer after a chunk of console output: the
/// chunk is logged and added to the buffer, the buffer is cut back to the
/// window, and the first rule whose pattern stands in it answers and empties
/// the buffer.
pub open spec fn respond(st: ResponderState, data: Seq<u8>) -> (ResponderState, Option<Seq<u8>>) {
    let buf = trim_to_window(st.buffer + data, window(st.rules, st.floor));
    let log = log_output(st.log, data);
    match first_match(st.rules, buf) {
        Some(i) => (
            ResponderState { rules: st.rules, floor: st.floor, buffer: Seq::empty(), log },
            Some(st.rules[i].1),
        ),
        None => (ResponderState { rules: st.rules, floor: st.floor, buffer: buf, log }, None),
    }
}

impl Default for PatternResponder {
    fn default() -> (r: PatternResponder)
        ensures
            r@.rules == Seq::<(Seq<u8>, Seq<u8>)>::empty(),
            r@.floor == MIN_WINDOW,
            r@.buffer == Seq::<u8>::empty(),
            r@.log == empty_log(),
    {
        PatternResponder::new()
    }
}

/// Watches console output for patterns and answers each with bytes written
/// to the console's input; keeps every byte like [`CaptureHandler`].
///
/// Patterns are plain byte substrings, searched for in a rolling buffer so
/// that a pattern split over several chunks is still found. A match empties
/// the buffer, so that the same text does not answer twice. This handler
/// never asks for a shutdown.
#[derive(Debug)]
pub struct PatternResponder {
    rules: Vec<PatternRule>,
    window_floor: usize,
    buffer: Vec<u8>,
    capture: CaptureHandler,
}

impl View for PatternResponder {
    type V = ResponderState;

    closed spec fn view(&self) -> ResponderState {
        ResponderState {
            rules: Seq::new(self.rules@.len(), |i: int| (self.rules@[i].pattern@, self.rules@[i].response@)),
            floor: self.window_floor as nat,
            buffer: self.buffer@,
            log: self.capture@,
        }
    }
}

impl PatternResponder {
    /// A responder with no rules that has seen nothing yet, with the
    /// default window floor.
    pub fn new() -> (r: PatternResponder)
        ensures
            r@.rules == Seq::<(Seq<u8>, Seq<u8>)>::empty(),
            r@.floor == MIN_WINDOW,
            r@.buffer == Seq::<u8>::empty(),
            r@.log == empty_log(),
    {
        let r = PatternResponder {
            rules: Vec::new(),
            window_floor: MIN_WINDOW,
            buffer: Vec::new(),
            capture: CaptureHandler::new(),
        };
        assert(r@.rules =~= Seq::<(Seq<u8>, Seq<u8>)>::empty());
        r
    }

    /// Adds a rule: when `pattern` appears in the console output, `response`
    /// is written to the console's input. Rules added first win ties.
    pub fn on_pattern(self, pattern: &str, response: &[u8]) -> (r: PatternResponder)
        ensures
            r@.rules == self@.rules.push((pattern.spec_bytes(), response@)),
            r@.floor == self@.floor,
            r@.buffer == self@.buffer,
            r@.log == self@.log,
    {
        let mut this = self;
        let rule = PatternRule { pattern: slice_to_vec(pattern.as_bytes()), response: slice_to_vec(response) };
        this.rules.push(rule);
        assert(this@.rules =~= self@.rules.push((pattern.spec_bytes(), response@)));
        this
    }

    /// The same responder with another window floor: the rolling buffer
    /// keeps at least `floor` bytes (more when a pattern is longer).
    pub fn with_window_floor(self, floor: usize) -> (r: PatternResponder)
        ensures
            r@.rules == self@.rules,
            r@.floor == floor,
            r@.buffer == self@.buffer,
            r@.log == self@.log,
    {
        let mut this = self;
        this.window_floor = floor;
        assert(this@.rules =~= self@.rules);
        this
    }

    /// The length of the longest pattern.
    fn longest_pattern_len(&self) -> (r: usize)
        ensures
            r == longest_pattern(self@.rules),
    {
        let ghost rules = self@.rules;
        let mut best: usize = 0;
        let mut i: usize = 0;
        while i < self.rules.len()
            invariant
                rules == self@.rules,
                i <= self.rules@.len(),
                best == longest_pattern(rules.subrange(0, i as int)),
            decreases self.rules@.len() - i,
        {
            let l = self.rules[i].pattern.len();
            assert(rules.subrange(0, i + 1).drop_last() =~= rules.subrange(0, i as int));
            if l > best {
                best = l;
            }
            i = i + 1;
        }
        assert(rules.subrange(0, i as int) =~= rules);
        best
    }
}

/// Whether `answer` is the responder's answer `resp` (none: carry on).
pub open spec fn answer_is(answer: IoAction, resp: Option<Seq<u8>>) -> bool {
    match resp {
        Some(bytes) => answer is SendInput && answer->SendInput_0@ == bytes,
        None => answer is Continue,
    }
}

impl IoHandler for PatternResponder {
    open spec fn output_answered(&self, data: Seq<u8>, after: Self, answer: IoAction) -> bool {
        after@ == respond(self@, data).0 && answer_is(answer, respond(self@, data).1)
    }

    open spec fn stderr_taken(&self, data: Seq<u8>, after: Self) -> bool {
        &&& after@.rules == self@.rules
        &&& after@.floor == self@.floor
        &&& after@.buffer == self@.buffer
        &&& after@.log == log_stderr(self@.log, data)
    }

    fn on_output(&mut self, data: &[u8]) -> (r: IoAction)
        ensures
            final(self)@ == respond(old(self)@, data@).0,
            match respond(old(self)@, data@).1 {
                Some(resp) => r is SendInput && r->SendInput_0@ == resp,
                None => r is Continue,
            },
    {
        let ghost rules = self@.rules;
        self.capture.on_output(data);
        append_bytes(&mut self.buffer, data);
        let longest = self.longest_pattern_len();
        let w = if longest > self.window_floor { longest } else { self.window_floor };
        let len = self.buffer.len();
        if len > w && len - w > w {
            let kept = self.buffer.split_off(len - w);
            self.buffer = kept;
        }
        assert(self@.buffer == trim_to_window(old(self)@.buffer + data@, window(rules, old(self)@.floor)));
        let mut i: usize = 0;
        while i < self.rules.len()
            invariant
                rules == self@.rules,
                rules == old(self)@.rules,
                self@.floor == old(self)@.floor,
                i <= rules.len(),
                self@.buffer == trim_to_window(old(self)@.buffer + data@, window(rules, old(self)@.floor)),
                self@.log == log_output(old(self)@.log, data@),
                first_match(rules, self@.buffer) == first_match_from(rules, self@.buffer, i as int),
            decreases rules.len() - i,
        {
            if contains_bytes(self.buffer.as_slice(), self.rules[i].pattern.as_slice()) {
                let answer = slice_to_vec(self.rules[i].response.as_slice());
                let ghost buf = self@.buffer;
                assert(rules[i as int].0 == self.rules@[i as int].pattern@);
                assert(first_match(rules, buf) == Some(i as int));
                self.buffer.clear();
                assert(self@.rules =~= rules);
                assert(self@.buffer =~= Seq::<u8>::empty());
                assert(answer@ == rules[i as int].1);
                return IoAction::SendInput(answer);
            }
            i = i + 1;
        }
        assert(self@.rules =~= rules);
        IoAction::Continue
    }

    fn on_stderr(&mut self, data: &[u8])
        ensures
            final(self)@.rules == old(self)@.rules,
            final(self)@.floor == old(self)@.floor,
            final(self)@.buffer == old(self)@.buffer,
            final(self)@.log == log_stderr(old(self)@.log, data@),
    {
        self.capture.on_stderr(data);
        assert(self@.rules =~= old(self)@.rules);
    }

    fn finish(self) -> (r: Option<CapturedIo>)
        ensures
            r is Some && captures(r->0, self@.log),
    {
        self.capture.finish()
    }
}

/// A chunk as delivered to a handler: console output (`true`) or diagnostic
/// output (`false`), and its bytes.
pub type Delivery = (bool, Seq<u8>);

/// The log of a capturing handler after the deliveries `ds`, in order.
pub open spec fn replay(log: IoLog, ds: Seq<Delivery>) -> IoLog
    decreases ds.len(),
{
    if ds.len() == 0 {
        log
    } else {
        let before = replay(log, ds.drop_last());
        if ds.last().0 {
            log_output(before, ds.last().1)
        } else {
            log_stderr(before, ds.last().1)
        }
    }
}

/// The chunks of one stream among `ds`, joined in delivery order.
pub open spec fn joined_chunks(ds: Seq<Delivery>, console: bool) -> Seq<u8>
    decreases ds.len(),
{
    if ds.len() == 0 {
        Seq::empty()
    } else if ds.last().0 == console {
        joined_chunks(ds.drop_last(), console) + ds.last().1
    } else {
        joined_chunks(ds.drop_last(), console)
    }
}

/// Capture fidelity: whatever chunks are delivered, a capturing handler
/// (capture or tee) ends up holding exactly the console chunks joined in
/// order and exactly the diagnostic chunks joined in order, nothing lost or
/// repeated; `finish` hands over exactly that log.
pub proof fn capture_fidelity(ds: Seq<Delivery>)
    ensures
        replay(empty_log(), ds).serial == joined_chunks(ds, true),
        replay(empty_log(), ds).stderr == joined_chunks(ds, false),
    decreases ds.len(),
{
    if ds.len() > 0 {
        capture_fidelity(ds.drop_last());
    } else {
        assert(empty_log().serial =~= Seq::<u8>::empty());
    }
}

/// After a match the rolling buffer is empty: the responder's next answer
/// depends on the next chunk alone, never on text seen before the match.
pub proof fn match_forgets_earlier_output(st: ResponderState, first: Seq<u8>, next: Seq<u8>, log: IoLog)
    requires
        respond(st, first).1 is Some,
    ensures
        respond(respond(st, first).0, next).1 == respond(
            ResponderState { rules: st.rules, floor: st.floor, buffer: Seq::empty(), log },
            next,
        ).1,
{
}

/// Once a rule has answered, only new text can answer again: for a next
/// chunk no longer than twice the window, the next answer is exactly that of
/// the first rule whose pattern stands in that chunk alone.
pub proof fn answer_after_match_comes_from_new_text(st: ResponderState, first: Seq<u8>, next: Seq<u8>)
    requires
        respond(st, first).1 is Some,
        next.len() <= 2 * window(st.rules, st.floor),
    ensures
        respond(respond(st, first).0, next).1 == match first_match(st.rules, next) {
            Some(i) => Some(st.rules[i].1),
            None => None::<Seq<u8>>,
        },
{
    let mid = respond(st, first).0;
    assert(mid.buffer + next =~= next);
}

proof fn lemma_window_covers_single(rules: RuleSeq, floor: nat)
    requires
        rules.len() == 1,
    ensures
        window(rules, floor) >= rules[0].0.len(),
{
    assert(rules.drop_last().len() == 0);
}

/// A pattern split over two chunks is still found: with one rule and an
/// empty buffer, the first part alone answers nothing and the second part
/// completes the pattern and answers with the rule's response.
pub proof fn split_pattern_is_found(st: ResponderState, head: Seq<u8>, tail: Seq<u8>)
    requires
        st.rules.len() == 1,
        st.buffer.len() == 0,
        head + tail == st.rules[0].0,
        tail.len() > 0,
    ensures
        respond(st, head).1 is None,
        respond(respond(st, head).0, tail).1 == Some(st.rules[0].1),
{
    let rules = st.rules;
    let p = rules[0].0;
    lemma_window_covers_single(rules, st.floor);
    assert(st.buffer + head =~= head);
    assert(!occurs_in(head, p)) by {
        assert forall|i: int| !occurs_at(head, p, i) by {}
    }
    assert(first_match_from(rules, head, 1) is None);
    let mid = respond(st, head).0;
    assert(mid.buffer == head);
    assert(mid.buffer + tail =~= p);
    assert(occurs_at(p, p, 0)) by {
        assert(p.subrange(0, p.len() as int) =~= p);
    }
}

} // verus!
