use vstd::prelude::*;

verus! {

/// Abstract state of a descriptor owner: which raw OS handle it holds and
/// whether that handle is still owned (that is, not yet handed out for
/// closing).
pub ghost struct FdState {
    pub fd: i32,
    pub open: bool,
}

/// The state after a release: the handle value is remembered, but it is no
/// longer owned.
pub open spec fn spec_release(s: FdState) -> FdState {
    FdState { fd: s.fd, open: false }
}

/// What a release hands back: the raw handle the first time, nothing after
/// that.
pub open spec fn spec_release_result(s: FdState) -> Option<i32> {
    if s.open {
        Some(s.fd)
    } else {
        None
    }
}

/// Sole owner of one raw OS file descriptor.  Exactly one owner exists per
/// open handle, and the handle leaves the owner at most once, through
/// `release`; afterwards the owner is inert.  The caller that performs the
/// actual `close(2)` does so only on the handle that `release` returns, so
/// the descriptor is never closed twice.
#[derive(Debug)]
pub struct CFileDescriptor {
    fd: i32,
    released: bool,
}

impl View for CFileDescriptor {
    type V = FdState;

    closed spec fn view(&self) -> FdState {
        FdState { fd: self.fd, open: !self.released }
    }
}

impl CFileDescriptor {
    /// Takes ownership of the raw handle `fd`.
    pub fn new(fd: i32) -> (r: CFileDescriptor)
        ensures
            r@ == (FdState { fd: fd, open: true }),
    {
        CFileDescriptor { fd, released: false }
    }

    /// The raw handle, for read calls; ownership stays with `self`.
    pub fn raw_fd(&self) -> (r: i32)
        ensures
            r == self@.fd,
    {
        self.fd
    }

    /// Whether the handle is still owned.
    pub fn is_open(&self) -> (r: bool)
        ensures
            r == self@.open,
    {
        !self.released
    }

    /// Gives up the raw handle so the caller can close it.  The handle comes
    /// out exactly once: the first call returns it, every later call returns
    /// `None` and changes nothing, so a second release can never lead to a
    /// second close.
    pub fn release(&mut self) -> (r: Option<i32>)
        ensures
            final(self)@ == spec_release(old(self)@),
            r == spec_release_result(old(self)@),
    {
        if self.released {
            None
        } else {
            self.released = true;
            Some(self.fd)
        }
    }
}

/// Releasing an already-released owner is harmless: the state does not change
/// and no handle comes out, so no second close can happen.
pub proof fn lemma_release_idempotent(s: FdState)
    ensures
        spec_release(spec_release(s)) == spec_release(s),
        spec_release_result(spec_release(s)) is None,
{
}

} // verus!
