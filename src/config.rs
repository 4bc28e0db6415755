use vstd::prelude::*;

verus! {

/// The platform's codes of the errors that setup and submission tell apart.
#[derive(Debug, Clone, Copy, PartialEq, Eq, Structural)]
pub struct Errnos {
    /// `EAGAIN`: try again.
    pub eagain: i32,
    /// `ENOMEM`: out of memory.
    pub enomem: i32,
    /// `ENOSYS`: not implemented.
    pub enosys: i32,
}

/// Why the kernel context could not be set up.
#[derive(Debug, Clone, Copy, PartialEq, Eq, Structural)]
pub enum Error {
    /// `io_setup` answered `EAGAIN`: the requested number of events is too large.
    MaxEventsTooLarge,
    /// `io_setup` answered `ENOMEM`: the kernel lacks resources.
    LowKernelRes,
    /// `io_setup` answered `ENOSYS`: kernel AIO is not available.
    NotSupported,
    /// Any other failure of `io_setup`.
    OtherError,
}

/// What a return value of `io_setup` (zero, or a negated errno) means.
pub open spec fn setup_outcome(ret: int, codes: Errnos) -> Result<(), Error> {
    if ret == 0 {
        Ok(())
    } else if ret == -codes.eagain {
        Err(Error::MaxEventsTooLarge)
    } else if ret == -codes.enomem {
        Err(Error::LowKernelRes)
    } else if ret == -codes.enosys {
        Err(Error::NotSupported)
    } else {
        Err(Error::OtherError)
    }
}

/// Classifies the return value of `io_setup`, given the platform's codes.
pub fn check_setup(ret: i32, codes: &Errnos) -> (r: Result<(), Error>)
    ensures
        r == setup_outcome(ret as int, *codes),
{
    if ret == 0 {
        Ok(())
    } else if ret as i64 == -(codes.eagain as i64) {
        Err(Error::MaxEventsTooLarge)
    } else if ret as i64 == -(codes.enomem as i64) {
        Err(Error::LowKernelRes)
    } else if ret as i64 == -(codes.enosys as i64) {
        Err(Error::NotSupported)
    } else {
        Err(Error::OtherError)
    }
}

/// Configuration of a manager: kernel context size, reaping and batching caps,
/// and the optional timeout of one reaping call.
pub struct AIOBuilder {
    pub max_events: u32,
    pub max_nwait: u16,
    pub max_nbatched: usize,
    pub timeout: Option<u32>,
}

impl Default for AIOBuilder {
    fn default() -> (r: Self)
        ensures
            r.max_events == 128,
            r.max_nwait == 128,
            r.max_nbatched == 128,
            r.timeout is None,
    {
        AIOBuilder { max_events: 128, max_nwait: 128, max_nbatched: 128, timeout: None }
    }
}

impl AIOBuilder {
    /// Maximum concurrent async IO operations.
    pub fn max_events(&mut self, v: u32) -> (r: &Self)
        ensures
            *final(self) == (AIOBuilder { max_events: v, ..*old(self) }),
            *r == *final(self),
    {
        self.max_events = v;
        self
    }

    /// Maximum complete IOs per poll.
    pub fn max_nwait(&mut self, v: u16) -> (r: &Self)
        ensures
            *final(self) == (AIOBuilder { max_nwait: v, ..*old(self) }),
            *r == *final(self),
    {
        self.max_nwait = v;
        self
    }

    /// Maximum number of IOs per submission.
    pub fn max_nbatched(&mut self, v: usize) -> (r: &Self)
        ensures
            *final(self) == (AIOBuilder { max_nbatched: v, ..*old(self) }),
            *r == *final(self),
    {
        self.max_nbatched = v;
        self
    }

    /// Timeout in seconds for a polling iteration (default is none).
    pub fn timeout(&mut self, sec: u32) -> (r: &Self)
        ensures
            *final(self) == (AIOBuilder { timeout: Some(sec), ..*old(self) }),
            *r == *final(self),
    {
        self.timeout = Some(sec);
        self
    }
}

} // verus!
