//! The decisions of the multipass cleaning driver: when to run another
//! parse, clean and serialize cycle, when to reject the result, and what
//! to do on failure. The caller performs the cycles and hands back the
//! length of each serialized result.
use vstd::prelude::*;

verus! {

/// How a cleaning run failed.
#[derive(Clone, Copy, Debug, PartialEq, Eq, Structural)]
pub enum CleanError {
    /// The document could not be parsed.
    Parse,
    /// A cleaning pass failed.
    Pass,
    /// The cleaned document is larger than the input, which is not allowed.
    OutputGrew,
    /// Reading or writing failed.
    Io,
}

/// What to do after a cycle.
#[derive(Clone, Copy, Debug, PartialEq, Eq, Structural)]
pub enum Step {
    /// Parse the serialized result and clean it again.
    Again,
    /// The run is over.
    Done,
}

/// The state of a cleaning run between cycles.
pub struct Driver {
    /// Length of the input document.
    pub input_len: usize,
    /// Length that the last cycle started from.
    pub prev_len: usize,
    /// Whether cycles repeat until the length stops changing.
    pub multipass: bool,
    /// Number of cycles run so far.
    pub cycles: usize,
}

/// Whether a cycle that turned a document of length `prev` into one of
/// length `out` ends the run.
pub open spec fn stops(prev: int, out: int, multipass: bool) -> bool {
    !multipass || out == prev
}

/// The number of cycles a run takes when its cycles produce the lengths
/// `outs` in turn, starting from a document of length `prev`; `outs.len()`
/// where it has not stopped by then.
pub open spec fn cycles_run(prev: int, outs: Seq<int>, multipass: bool) -> int
    decreases outs.len(),
{
    if outs.len() == 0 {
        0
    } else if stops(prev, outs[0], multipass) {
        1
    } else {
        1 + cycles_run(outs[0], outs.drop_first(), multipass)
    }
}

/// Whether the result of a run may replace the input.
pub open spec fn size_ok(input_len: int, out_len: int, allow_bigger: bool) -> bool {
    allow_bigger || out_len <= input_len
}

impl Driver {
    /// A run on an input of length `input_len`.
    pub fn new(input_len: usize, multipass: bool) -> (r: Driver)
        ensures
            r.input_len == input_len,
            r.prev_len == input_len,
            r.multipass == multipass,
            r.cycles == 0,
    {
        Driver { input_len, prev_len: input_len, multipass, cycles: 0 }
    }

    /// Records a cycle whose serialized result has length `out_len`, and
    /// says whether to run another: only in multipass mode, and only while
    /// the length changes.
    pub fn after_cycle(&mut self, out_len: usize) -> (r: Step)
        requires
            old(self).cycles < usize::MAX,
        ensures
            final(self).input_len == old(self).input_len,
            final(self).multipass == old(self).multipass,
            final(self).cycles == old(self).cycles + 1,
            final(self).prev_len == out_len,
            (r == Step::Done) == stops(old(self).prev_len as int, out_len as int, old(self).multipass),
    {
        let done = !self.multipass || out_len == self.prev_len;
        self.prev_len = out_len;
        self.cycles = self.cycles + 1;
        if done {
            Step::Done
        } else {
            Step::Again
        }
    }
}

/// The safety net: a result longer than the input is rejected unless
/// growth is allowed.
pub fn check_size(input_len: usize, out_len: usize, allow_bigger: bool) -> (r: Result<(), CleanError>)
    ensures
        r is Ok <==> size_ok(input_len as int, out_len as int, allow_bigger),
        r is Err ==> r == Err::<(), CleanError>(CleanError::OutputGrew),
{
    if !allow_bigger && out_len > input_len {
        Err(CleanError::OutputGrew)
    } else {
        Ok(())
    }
}

/// The bytes to write at the end of a run: the cleaned bytes, with a
/// newline appended where asked; or `OutputGrew` where the cleaned bytes
/// are longer than the input and growth is not allowed. The newline is
/// not counted against the input's length.
pub fn finish_output(input_len: usize, buf: Vec<u8>, allow_bigger: bool, append_newline: bool) -> (r:
    Result<Vec<u8>, CleanError>)
    ensures
        r is Err <==> !size_ok(input_len as int, buf@.len() as int, allow_bigger),
        r is Err ==> r == Err::<Vec<u8>, CleanError>(CleanError::OutputGrew),
        r is Ok ==> r.unwrap()@ == (if append_newline {
            buf@.push(10u8)
        } else {
            buf@
        }),
{
    match check_size(input_len, buf.len(), allow_bigger) {
        Err(e) => Err(e),
        Ok(()) => {
            let mut out = buf;
            if append_newline {
                out.push(10u8);
            }
            Ok(out)
        },
    }
}

/// Whether a failed run copies the original input to the output: only
/// where both are named files, copying on error was asked for, and the
/// two paths differ.
pub fn copies_original(has_input_file: bool, has_output_file: bool, copy_on_error: bool, same_path: bool) -> (r: bool)
    ensures
        r == (has_input_file && has_output_file && copy_on_error && !same_path),
{
    has_input_file && has_output_file && copy_on_error && !same_path
}

/// A run stops at the first cycle whose result has the length that the
/// cycle started from, or after one cycle where multipass is off; in
/// particular a document that a cycle leaves at its length takes one cycle.
pub proof fn lemma_convergence(prev: int, outs: Seq<int>, multipass: bool, k: int)
    requires
        0 <= k < outs.len(),
        !multipass || outs[k] == (if k == 0 {
            prev
        } else {
            outs[k - 1]
        }),
    ensures
        1 <= cycles_run(prev, outs, multipass) <= k + 1,
        k == 0 ==> cycles_run(prev, outs, multipass) == 1,
        !multipass ==> cycles_run(prev, outs, multipass) == 1,
    decreases k,
{
    if stops(prev, outs[0], multipass) {
    } else {
        assert(k > 0);
        let rest = outs.drop_first();
        assert(rest[k - 1] == outs[k]);
        if k - 1 > 0 {
            assert(rest[k - 2] == outs[k - 1]);
        }
        lemma_convergence(outs[0], rest, multipass, k - 1);
    }
}

} // verus!
