//! Interpretation of the engine's replies to the frame-cursor operations,
//! and the stepping protocol a cursor must follow.
//!
//! Every cursor operation asks the unwind engine one question and receives
//! a signed status code (for a register read, also a value).  The functions
//! here turn that reply into the operation's result; [`StepProtocol`] in
//! addition tracks whether the cursor may still be stepped, so that no
//! caller can step past the end of the stack, where the engine's behaviour
//! is undefined.

use vstd::prelude::*;

use crate::status::{classify_code, UnwindError, UNW_ESUCCESS};

verus! {

/// Step reply meaning a further frame exists.
pub const UNW_STEP_SUCCESS: i32 = 1;

/// Step reply meaning the root of the stack has been reached.
pub const UNW_STEP_END: i32 = 0;

/// What one step request yields for a given engine reply: `Ok(true)` when a
/// further frame exists, `Ok(false)` at the root of the stack, and the
/// classified error on a failure code.
pub open spec fn step_outcome(code: i32) -> Result<bool, UnwindError> {
    match classify_code(code) {
        Ok(c) => Ok(c == UNW_STEP_SUCCESS),
        Err(e) => Err(e),
    }
}

/// What an operation without a result yields for a given engine reply:
/// `Ok(())` on any success code, else the classified error.
pub open spec fn unit_outcome(code: i32) -> Result<(), UnwindError> {
    match classify_code(code) {
        Ok(_) => Ok(()),
        Err(e) => Err(e),
    }
}

/// What a register read yields for a given engine reply: the value the
/// engine stored on any success code, else the classified error.
pub open spec fn read_outcome(code: i32, value: usize) -> Result<usize, UnwindError> {
    match classify_code(code) {
        Ok(_) => Ok(value),
        Err(e) => Err(e),
    }
}

/// What a signal-frame query yields for a given engine reply: positive
/// means a signal frame, other success codes mean an ordinary frame, and a
/// failure code classifies as usual.
pub open spec fn signal_frame_outcome(code: i32) -> Result<bool, UnwindError> {
    match classify_code(code) {
        Ok(c) => Ok(c > 0),
        Err(e) => Err(e),
    }
}

/// Turns the engine's reply to an operation without a result (a register
/// or floating-point-register write, a context capture, a cursor
/// initialization) into that operation's result.
pub fn interpret_status(code: i32) -> (r: Result<(), UnwindError>)
    ensures
        r == unit_outcome(code),
        r is Ok <==> code >= UNW_ESUCCESS,
{
    match UnwindError::from_code(code) {
        Ok(_) => Ok(()),
        Err(e) => Err(e),
    }
}

/// Turns the engine's reply to a register read — the status code and the
/// value the engine stored — into the read's result.
pub fn interpret_register_read(code: i32, value: usize) -> (r: Result<usize, UnwindError>)
    ensures
        r == read_outcome(code, value),
        r is Ok <==> code >= UNW_ESUCCESS,
        code >= UNW_ESUCCESS ==> r == Ok::<usize, UnwindError>(value),
{
    match UnwindError::from_code(code) {
        Ok(_) => Ok(value),
        Err(e) => Err(e),
    }
}

/// Turns the engine's reply to a floating-point-register classification
/// query into an answer: only a positive reply means the register belongs
/// to the floating-point file.
pub fn interpret_fp_query(code: i32) -> (b: bool)
    ensures
        b == (code > 0),
{
    code > 0
}

/// Turns the engine's reply to a signal-frame query into the query's
/// result.
pub fn interpret_signal_frame(code: i32) -> (r: Result<bool, UnwindError>)
    ensures
        r == signal_frame_outcome(code),
        code >= UNW_ESUCCESS ==> r == Ok::<bool, UnwindError>(code > 0),
{
    match UnwindError::from_code(code) {
        Ok(_) => Ok(code > 0),
        Err(e) => Err(e),
    }
}

/// The stepping protocol of a frame cursor.
///
/// A cursor is valid only while positioned on a real frame.  Once a step
/// reports the root of the stack, the engine's behaviour on a further step
/// is undefined, so the protocol becomes terminal and refuses to record
/// another step: `record_step` may only be called while `can_step` holds.
#[derive(Clone, Copy, Debug)]
pub struct StepProtocol {
    done: bool,
}

impl StepProtocol {
    /// Whether the cursor has taken its terminal step and must not be
    /// stepped again.
    pub closed spec fn is_terminal(self) -> bool {
        self.done
    }

    /// Protocol state for a cursor freshly bound to the innermost frame.
    pub fn begin() -> (s: Self)
        ensures
            !s.is_terminal(),
    {
        StepProtocol { done: false }
    }

    /// Whether a further step request is still permitted.
    pub fn can_step(&self) -> (b: bool)
        ensures
            b == !self.is_terminal(),
    {
        !self.done
    }

    /// Records the engine's reply to one step request and returns what the
    /// step yielded: `Ok(true)` if the cursor now points to the caller's
    /// frame, `Ok(false)` if the root of the stack has been reached.
    ///
    /// The transition to the terminal state happens exactly once per
    /// traversal: only the reply `Ok(false)` makes the protocol terminal,
    /// and once terminal it cannot record a further step.  An error leaves
    /// the cursor on its current frame, so the protocol stays live.
    pub fn record_step(&mut self, code: i32) -> (r: Result<bool, UnwindError>)
        requires
            !old(self).is_terminal(),
        ensures
            r == step_outcome(code),
            final (self).is_terminal() <==> r == Ok::<bool, UnwindError>(false),
    {
        match UnwindError::from_code(code) {
            Ok(c) => {
                let more = c == UNW_STEP_SUCCESS;
                self.done = !more;
                Ok(more)
            },
            Err(e) => Err(e),
        }
    }
}

/// On a well-formed stack of depth `n` with no signal frames, the engine
/// answers `n - 1` step requests with a further frame and the last one
/// with the root of the stack; the step outcomes are then `Ok(true)`
/// exactly `n - 1` times, then `Ok(false)` once, and never an error.
pub proof fn lemma_step_sequence(codes: Seq<i32>)
    requires
        codes.len() >= 1,
        forall|i: int| 0 <= i < codes.len() - 1 ==> codes[i] == UNW_STEP_SUCCESS,
        codes[codes.len() - 1] == UNW_STEP_END,
    ensures
        forall|i: int|
            0 <= i < codes.len() - 1 ==> step_outcome(codes[i]) == Ok::<bool, UnwindError>(true),
        step_outcome(codes[codes.len() - 1]) == Ok::<bool, UnwindError>(false),
        forall|i: int| 0 <= i < codes.len() ==> !(step_outcome(codes[i]) is Err),
{
}

} // verus!
