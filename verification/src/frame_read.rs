use vstd::prelude::*;

verus! {

/// Capacity of the frame buffer: the largest expected Ethernet frame, header
/// allowance included.
pub const MAXLEN: usize = 1514;

/// A recoverable way for one read on the descriptor to end without a frame.
pub enum ReadError {
    /// The device or peer ended: the OS reported a length of zero.
    Closed,
    /// The OS reported the error sentinel; the raw return value is kept.
    Os(isize),
}

/// The meaning of one raw read return value, judged against the capacity of
/// the buffer that was handed to the OS.
pub enum ReadClassification {
    /// A frame of `length` bytes arrived, with `0 < length <= capacity`.
    Frame { length: usize },
    /// No frame, but the caller may keep reading.
    Recoverable { error: ReadError },
    /// The OS reported more bytes than the buffer could hold.  Memory next
    /// to the buffer may have been overwritten, so no further work can be
    /// trusted: the caller must terminate the process.
    FatalOverrun,
}

/// How a read return value `result` is classified against a buffer of
/// capacity `capacity`: zero is the end condition, a negative value is an OS
/// error, a length above the capacity is the one fatal condition, and
/// everything else is a frame.
pub open spec fn spec_classify_read(result: int, capacity: int) -> ReadClassification {
    if result == 0 {
        ReadClassification::Recoverable { error: ReadError::Closed }
    } else if result < 0 {
        ReadClassification::Recoverable { error: ReadError::Os(result as isize) }
    } else if result > capacity {
        ReadClassification::FatalOverrun
    } else {
        ReadClassification::Frame { length: result as usize }
    }
}

/// Judges one raw read return value against the buffer capacity, exactly as
/// `spec_classify_read` states.
pub fn classify_read(result: isize, capacity: usize) -> (r: ReadClassification)
    ensures
        r == spec_classify_read(result as int, capacity as int),
{
    if result == 0 {
        ReadClassification::Recoverable { error: ReadError::Closed }
    } else if result < 0 {
        ReadClassification::Recoverable { error: ReadError::Os(result) }
    } else if result as usize > capacity {
        ReadClassification::FatalOverrun
    } else {
        ReadClassification::Frame { length: result as usize }
    }
}

/// A classification never accepts a frame longer than the buffer, and never
/// an empty one: a frame's length is positive and within the capacity, while
/// an over-long report is the fatal case, not a frame.
pub proof fn lemma_frame_within_capacity(result: int, capacity: int)
    requires
        isize::MIN <= result <= isize::MAX,
        0 <= capacity <= usize::MAX,
    ensures
        spec_classify_read(result, capacity) matches ReadClassification::Frame { length }
            ==> 0 < length <= capacity,
        result > capacity ==> spec_classify_read(result, capacity)
            == ReadClassification::FatalOverrun,
{
}

/// A read of length zero is the end condition, never a zero-length frame.
pub proof fn lemma_zero_read_is_closed(capacity: int)
    requires
        0 <= capacity <= usize::MAX,
    ensures
        spec_classify_read(0, capacity) == (ReadClassification::Recoverable {
            error: ReadError::Closed,
        }),
        !(spec_classify_read(0, capacity) is Frame),
{
}

/// What the frame-read loop does with one read result.
pub enum LoopAction {
    /// Hand the first `length` bytes of the buffer to the display
    /// collaborator, then read again.
    Deliver { length: usize },
    /// No frame this time; read again.  Recoverable errors are deliberately
    /// swallowed here: the loop is a best-effort monitor and does not tell
    /// transient from permanent read failures.
    Continue,
    /// The fatal over-long report: terminate the process at once.
    Abort,
}

/// The loop's decision for one read into its `MAXLEN`-byte buffer.
pub open spec fn spec_read_loop_step(result: int) -> LoopAction {
    match spec_classify_read(result, MAXLEN as int) {
        ReadClassification::Frame { length } => LoopAction::Deliver { length },
        ReadClassification::Recoverable { .. } => LoopAction::Continue,
        ReadClassification::FatalOverrun => LoopAction::Abort,
    }
}

/// Decides what the frame-read loop does with the raw result of one read
/// into its `MAXLEN`-byte buffer, exactly as `spec_read_loop_step` states.
pub fn read_loop_step(result: isize) -> (a: LoopAction)
    ensures
        a == spec_read_loop_step(result as int),
{
    match classify_read(result, MAXLEN) {
        ReadClassification::Frame { length } => LoopAction::Deliver { length },
        ReadClassification::Recoverable { .. } => LoopAction::Continue,
        ReadClassification::FatalOverrun => LoopAction::Abort,
    }
}

/// A delivered frame always fits the loop's buffer: whenever the loop hands
/// bytes on, their number is positive and at most `MAXLEN`.
pub proof fn lemma_delivered_frame_fits(result: int)
    requires
        isize::MIN <= result <= isize::MAX,
    ensures
        spec_read_loop_step(result) matches LoopAction::Deliver { length }
            ==> 0 < length <= MAXLEN,
{
}

} // verus!
