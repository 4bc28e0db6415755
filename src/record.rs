use vstd::prelude::*;

verus! {

/// The operation that a control block asks of the kernel.
#[derive(Debug, Clone, Copy, PartialEq, Eq, Structural)]
pub enum IOCmd {
    PRead,
    PWrite,
}

impl IOCmd {
    /// The kernel's opcode: `IOCB_CMD_PREAD` or `IOCB_CMD_PWRITE`.
    pub fn opcode(&self) -> (r: u16)
        ensures
            r == (match *self {
                IOCmd::PRead => 0u16,
                IOCmd::PWrite => 1u16,
            }),
    {
        match self {
            IOCmd::PRead => 0,
            IOCmd::PWrite => 1,
        }
    }
}

/// The fields of a kernel control block, but for the buffer's address, which
/// is taken from the buffer itself when the block is laid out in memory.
#[derive(Debug, Clone, Copy, PartialEq, Eq, Structural)]
pub struct ControlBlock {
    pub fd: i32,
    pub opcode: IOCmd,
    pub priority: u16,
    pub nbytes: u64,
    pub offset: u64,
    pub flags: u32,
    /// Echoed back by the kernel in the completion event.
    pub data: u64,
}

/// Describes one operation on `len` bytes.
pub fn describe(
    id: u64,
    fd: i32,
    off: u64,
    len: usize,
    priority: u16,
    flags: u32,
    opcode: IOCmd,
) -> (cb: ControlBlock)
    ensures
        cb == (ControlBlock {
            fd,
            opcode,
            priority,
            nbytes: len as u64,
            offset: off,
            flags,
            data: id,
        }),
{
    ControlBlock { fd, opcode, priority, nbytes: len as u64, offset: off, flags, data: id }
}

/// A buffer of `length` zero bytes.
pub fn zeroed(length: usize) -> (v: Vec<u8>)
    ensures
        v@ == Seq::new(length as nat, |i: int| 0u8),
{
    let mut v: Vec<u8> = Vec::new();
    let mut i: usize = 0;
    while i < length
        invariant
            i <= length,
            v@ == Seq::new(i as nat, |j: int| 0u8),
        decreases length - i,
    {
        v.push(0u8);
        i = i + 1;
        assert(v@ =~= Seq::new(i as nat, |j: int| 0u8));
    }
    v
}

/// The control block and the zeroed buffer of a read of `length` bytes at
/// `offset`; a missing priority is zero.
pub fn read_request(id: u64, fd: i32, offset: u64, length: usize, priority: Option<u16>) -> (r: (
    ControlBlock,
    Vec<u8>,
))
    ensures
        r.0 == (ControlBlock {
            fd,
            opcode: IOCmd::PRead,
            priority: match priority {
                Some(p) => p,
                None => 0,
            },
            nbytes: length as u64,
            offset,
            flags: 0,
            data: id,
        }),
        r.1@ == Seq::new(length as nat, |i: int| 0u8),
{
    let p = match priority {
        Some(p) => p,
        None => 0,
    };
    let data = zeroed(length);
    (describe(id, fd, offset, length, p, 0, IOCmd::PRead), data)
}

/// The control block of a write of `data` at `offset`; a missing priority is
/// zero.
pub fn write_request(id: u64, fd: i32, offset: u64, data: &[u8], priority: Option<u16>) -> (r:
    ControlBlock)
    ensures
        r == (ControlBlock {
            fd,
            opcode: IOCmd::PWrite,
            priority: match priority {
                Some(p) => p,
                None => 0,
            },
            nbytes: data@.len() as u64,
            offset,
            flags: 0,
            data: id,
        }),
{
    let p = match priority {
        Some(p) => p,
        None => 0,
    };
    describe(id, fd, offset, data.len(), p, 0, IOCmd::PWrite)
}

/// The data of one operation: its buffer `B`, the kernel-visible control
/// block `C` that points into it, and its identifier. Both stay where they are
/// for as long as the record lives. The kernel reads or fills the buffer in
/// place, so nothing here speaks of its bytes.
pub struct AIO<B, C> {
    pub data: B,
    pub iocb: C,
    pub id: u64,
}

impl<B, C> AIO<B, C> {
    pub fn new(id: u64, data: B, iocb: C) -> (r: Self)
        ensures
            r.id == id,
            r.data == data,
            r.iocb == iocb,
    {
        AIO { data, iocb, id }
    }
}

/// Hands out identifiers: a counter that wraps around.
pub struct AIOBatchSchedulerIn {
    last_id: u64,
}

impl AIOBatchSchedulerIn {
    pub closed spec fn last(&self) -> u64 {
        self.last_id
    }

    pub fn new() -> (r: Self)
        ensures
            r.last() == 0,
    {
        AIOBatchSchedulerIn { last_id: 0 }
    }

    /// The next identifier.
    pub fn next_id(&mut self) -> (id: u64)
        ensures
            id == old(self).last(),
            final(self).last() == (if id == u64::MAX {
                0
            } else {
                (id + 1) as u64
            }),
    {
        let id = self.last_id;
        self.last_id = id.wrapping_add(1);
        id
    }
}

} // verus!
