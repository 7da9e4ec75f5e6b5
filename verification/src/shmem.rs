//! The backend's requests for shared memory: which are refused, and which `mmap` call carries out
//! each of the others.

use crate::bindings::einval;
use crate::bindings::map_anonymous;
use crate::bindings::map_fixed;
use crate::bindings::map_private;
use crate::bindings::map_shared;
use crate::bindings::mmap_flag_writable;
use crate::bindings::prot_none;
use crate::bindings::prot_read;
use crate::bindings::prot_write;
use vstd::prelude::*;

verus! {

/// The error code of an invalid argument.
pub const EINVAL: i32 = 22;

/// Protection bit: the memory may be read.
pub const PROT_READ: i32 = 1;

/// Protection bit: the memory may be written.
pub const PROT_WRITE: i32 = 2;

/// Mapping flag: writes go to the file.
pub const MAP_SHARED: i32 = 1;

/// Mapping flag: writes stay in a private copy.
pub const MAP_PRIVATE: i32 = 2;

/// Mapping flag: the mapping goes exactly where the call says.
pub const MAP_FIXED: i32 = 0x10;

/// Mapping flag: no file stands behind the mapping.
pub const MAP_ANONYMOUS: i32 = 0x20;

/// A mapped range of the monitor's own address space. It does not reach beyond the end of that
/// space.
#[derive(Clone, Copy, Debug)]
pub struct MmapRegion {
    addr: usize,
    size: usize,
}

impl MmapRegion {
    /// Where the range begins.
    pub closed spec fn spec_addr(self) -> usize {
        self.addr
    }

    /// How many bytes the range has.
    pub closed spec fn spec_size(self) -> usize {
        self.size
    }

    /// What holds of every region.
    #[verifier::type_invariant]
    pub open spec fn wf(self) -> bool {
        self.spec_addr() + self.spec_size() <= usize::MAX
    }

    /// Whether `len` bytes from `offset` on lie inside the region.
    pub open spec fn contains_range(self, offset: int, len: int) -> bool {
        0 <= offset && 0 <= len && offset + len <= self.spec_size()
    }

    /// The region of `size` bytes at `addr`, unless it would reach beyond the address space.
    pub fn new(addr: usize, size: usize) -> (region: Option<MmapRegion>)
        ensures
            match region {
                Some(region) => {
                    &&& addr + size <= usize::MAX
                    &&& region.spec_addr() == addr
                    &&& region.spec_size() == size
                },
                None => addr + size > usize::MAX,
            },
    {
        match vm_memory::volatile_memory::compute_offset(addr, size) {
            Ok(_) => Some(MmapRegion { addr, size }),
            Err(_) => None,
        }
    }

    /// Where the region begins.
    pub fn addr(&self) -> (addr: usize)
        ensures
            addr == self.spec_addr(),
    {
        self.addr
    }

    /// How many bytes the region has.
    pub fn size(&self) -> (size: usize)
        ensures
            size == self.spec_size(),
    {
        self.size
    }

    /// The `count` bytes from `offset` on, unless the region does not hold all of them. An empty
    /// slice may stand at the region's very end.
    pub fn get_slice(&self, offset: usize, count: usize) -> (slice: Option<PtrGuardMut>)
        ensures
            match slice {
                Some(slice) => {
                    &&& self.contains_range(offset as int, count as int)
                    &&& offset + count <= self.spec_size()
                    &&& slice.addr == self.spec_addr() + offset
                    &&& slice.len == count
                },
                None => {
                    &&& !self.contains_range(offset as int, count as int)
                    &&& offset + count > self.spec_size()
                },
            },
    {
        proof {
            use_type_invariant(self);
        }
        match vm_memory::volatile_memory::compute_offset(offset, count) {
            Ok(end) => if end > self.size {
                None
            } else {
                Some(PtrGuardMut { addr: self.addr + offset, len: count })
            },
            Err(_) => None,
        }
    }
}

/// A piece of a region: an address and a number of bytes.
#[derive(Clone, Copy, Debug, PartialEq, Eq, Structural)]
pub struct PtrGuardMut {
    pub addr: usize,
    pub len: usize,
}

/// A request of the backend to map a file into the shared memory, or to unmap what was mapped.
#[derive(Clone, Copy, Debug, PartialEq, Eq, Structural)]
pub struct VhostUserMMap {
    /// Where in the file the mapping begins.
    pub fd_offset: u64,
    /// Where in the shared memory it goes.
    pub shm_offset: u64,
    /// How many bytes are mapped.
    pub len: u64,
    /// Bit 0 asks for a writable mapping.
    pub flags: u64,
}

impl VhostUserMMap {
    /// Whether the request asks for a writable mapping.
    pub open spec fn writable(self) -> bool {
        self.flags % 2 == 1
    }
}

/// The arguments of one `mmap` call.
#[derive(Clone, Copy, Debug, PartialEq, Eq, Structural)]
pub struct MmapCall {
    pub addr: usize,
    pub len: usize,
    pub prot: i32,
    pub flags: i32,
    pub fd: i32,
    pub offset: i64,
}

impl MmapCall {
    /// Whether the bytes that the call names all belong to `region`.
    pub open spec fn inside(self, region: MmapRegion) -> bool {
        region.spec_addr() <= self.addr && self.addr + self.len <= region.spec_addr()
            + region.spec_size()
    }
}

/// The number that a 64-bit file offset becomes as a signed one: itself in the lower half of the
/// range, less two to the 64 in the upper half.
pub open spec fn signed_offset(fd_offset: u64) -> int {
    if fd_offset <= i64::MAX {
        fd_offset as int
    } else {
        fd_offset - 0x1_0000_0000_0000_0000
    }
}

/// The call that maps `fd` as `req` says: readable, and writable and shared where the request asks
/// for it. A mapping that is not writable is private.
pub open spec fn spec_map_call(region: MmapRegion, req: VhostUserMMap, fd: i32) -> MmapCall {
    MmapCall {
        addr: (region.spec_addr() + req.shm_offset) as usize,
        len: req.len as usize,
        prot: if req.writable() {
            3
        } else {
            1
        },
        flags: if req.writable() {
            0x11
        } else {
            0x12
        },
        fd,
        offset: signed_offset(req.fd_offset) as i64,
    }
}

/// The call that takes the mapping of `req` away: inaccessible memory without a file.
pub open spec fn spec_unmap_call(region: MmapRegion, req: VhostUserMMap) -> MmapCall {
    MmapCall {
        addr: (region.spec_addr() + req.shm_offset) as usize,
        len: req.len as usize,
        prot: 0,
        flags: 0x32,
        fd: (-1) as i32,
        offset: 0,
    }
}

/// Answers the backend's requests for the shared memory of one device.
#[derive(Clone, Copy, Debug)]
pub struct BackendReqHandler {
    pub mapping: MmapRegion,
}

impl BackendReqHandler {
    /// Whether the request stays inside the shared memory.
    pub open spec fn accepts(self, req: VhostUserMMap) -> bool {
        self.mapping.contains_range(req.shm_offset as int, req.len as int)
    }

    /// The `len` bytes of the shared memory from `offset` on, or `EINVAL` where they are not all
    /// part of it.
    pub fn ptr_guard_mut(&self, offset: u64, len: u64) -> (guard: Result<PtrGuardMut, i32>)
        ensures
            match guard {
                Ok(guard) => {
                    &&& self.mapping.contains_range(offset as int, len as int)
                    &&& offset + len <= self.mapping.spec_size()
                    &&& guard.addr == self.mapping.spec_addr() + offset
                    &&& guard.len == len
                },
                Err(errno) => {
                    &&& !self.mapping.contains_range(offset as int, len as int)
                    &&& offset + len > self.mapping.spec_size()
                    &&& errno == EINVAL
                    &&& errno == 22
                },
            },
    {
        let shm_offset: usize = match usize::try_from(offset) {
            Ok(shm_offset) => shm_offset,
            Err(_) => return Err(einval()),
        };
        let count: usize = match usize::try_from(len) {
            Ok(count) => count,
            Err(_) => return Err(einval()),
        };
        match self.mapping.get_slice(shm_offset, count) {
            Some(guard) => Ok(guard),
            None => Err(einval()),
        }
    }

    /// What to do about a request to map `fd`: the call that does it, or the error code that the
    /// backend is answered at once.
    pub fn shmem_map(&self, req: &VhostUserMMap, fd: i32) -> (call: Result<MmapCall, i32>)
        ensures
            match call {
                Ok(call) => self.accepts(*req) && call == spec_map_call(self.mapping, *req, fd),
                Err(errno) => !self.accepts(*req) && errno == EINVAL,
            },
            match call {
                Ok(call) => {
                    &&& req.shm_offset + req.len <= self.mapping.spec_size()
                    &&& call.addr == self.mapping.spec_addr() + req.shm_offset
                    &&& call.len == req.len
                    &&& req.flags % 2 == 1 ==> call.prot == 3 && call.flags == 0x11
                    &&& req.flags % 2 == 0 ==> call.prot == 1 && call.flags == 0x12
                    &&& call.fd == fd
                    &&& req.fd_offset <= i64::MAX ==> call.offset == req.fd_offset
                    &&& req.fd_offset > i64::MAX ==> call.offset == req.fd_offset
                        - 0x1_0000_0000_0000_0000
                },
                Err(errno) => {
                    &&& req.shm_offset + req.len > self.mapping.spec_size()
                    &&& errno == 22
                },
            },
    {
        let target = match self.ptr_guard_mut(req.shm_offset, req.len) {
            Ok(target) => target,
            Err(errno) => return Err(errno),
        };
        let fd_offset: u64 = req.fd_offset;
        let flags: u64 = req.flags;
        proof {
            assert(fd_offset <= 0x7fff_ffff_ffff_ffff ==> (fd_offset as i64) == fd_offset)
                by (bit_vector);
            assert(fd_offset > 0x7fff_ffff_ffff_ffff ==> (fd_offset as i64) == fd_offset
                - 0x1_0000_0000_0000_0000) by (bit_vector);
            assert((flags & 1 != 0) == (flags % 2 == 1)) by (bit_vector);
            assert(1i32 | 2i32 == 3i32 && 1i32 | 0i32 == 1i32) by (bit_vector);
            assert(3i32 & 2i32 == 2i32 && 1i32 & 2i32 == 0i32) by (bit_vector);
            assert(1i32 | 0x10i32 == 0x11i32 && 2i32 | 0x10i32 == 0x12i32) by (bit_vector);
        }
        let writable = flags & mmap_flag_writable() != 0;
        let prot: i32 = prot_read() | (if writable {
            prot_write()
        } else {
            0
        });
        let sharing: i32 = if prot & prot_write() != 0 {
            map_shared()
        } else {
            map_private()
        };
        Ok(
            MmapCall {
                addr: target.addr,
                len: target.len,
                prot,
                flags: sharing | map_fixed(),
                fd,
                offset: #[verifier::truncate] (fd_offset as i64),
            },
        )
    }

    /// What to do about a request to unmap: the call that does it, or the error code that the
    /// backend is answered at once.
    pub fn shmem_unmap(&self, req: &VhostUserMMap) -> (call: Result<MmapCall, i32>)
        ensures
            match call {
                Ok(call) => self.accepts(*req) && call == spec_unmap_call(self.mapping, *req),
                Err(errno) => !self.accepts(*req) && errno == EINVAL,
            },
            match call {
                Ok(call) => {
                    &&& req.shm_offset + req.len <= self.mapping.spec_size()
                    &&& call.addr == self.mapping.spec_addr() + req.shm_offset
                    &&& call.len == req.len
                    &&& call.prot == 0
                    &&& call.flags == 0x32
                    &&& call.fd == -1
                    &&& call.offset == 0
                },
                Err(errno) => {
                    &&& req.shm_offset + req.len > self.mapping.spec_size()
                    &&& errno == 22
                },
            },
    {
        let target = match self.ptr_guard_mut(req.shm_offset, req.len) {
            Ok(target) => target,
            Err(errno) => return Err(errno),
        };
        proof {
            assert(0x20i32 | 2i32 | 0x10i32 == 0x32i32) by (bit_vector);
        }
        Ok(
            MmapCall {
                addr: target.addr,
                len: target.len,
                prot: prot_none(),
                flags: map_anonymous() | map_private() | map_fixed(),
                fd: -1,
                offset: 0,
            },
        )
    }
}

/// What the backend is answered once the call was made: 0 where it succeeded, otherwise the error
/// code that the system left.
pub fn mmap_answer(outcome: Result<(), i32>) -> (answer: Result<u64, i32>)
    ensures
        match outcome {
            Ok(_) => answer == Ok::<u64, i32>(0),
            Err(errno) => answer == Err::<u64, i32>(errno),
        },
{
    match outcome {
        Ok(_) => Ok(0),
        Err(errno) => Err(errno),
    }
}

/// No call that the library asks for touches memory outside the region, and each of them binds
/// the kernel to the address it names.
pub proof fn law_calls_stay_inside(handler: BackendReqHandler, req: VhostUserMMap, fd: i32)
    requires
        handler.mapping.wf(),
        handler.accepts(req),
    ensures
        spec_map_call(handler.mapping, req, fd).inside(handler.mapping),
        spec_map_call(handler.mapping, req, fd).flags & MAP_FIXED == MAP_FIXED,
        spec_unmap_call(handler.mapping, req).inside(handler.mapping),
        spec_unmap_call(handler.mapping, req).flags & MAP_FIXED == MAP_FIXED,
{
    assert(0x11i32 & 0x10 == 0x10 && 0x12i32 & 0x10 == 0x10 && 0x32i32 & 0x10 == 0x10)
        by (bit_vector);
}

/// A request is accepted exactly if its range ends inside the shared memory, whatever else it asks
/// for. An empty range may stand at the very end.
pub proof fn law_acceptance_is_by_range(handler: BackendReqHandler, req: VhostUserMMap)
    ensures
        handler.accepts(req) <==> req.shm_offset + req.len <= handler.mapping.spec_size(),
{
}

/// Both calls begin as far into the region as the request says, and have its length.
pub proof fn law_calls_are_where_asked(handler: BackendReqHandler, req: VhostUserMMap, fd: i32)
    requires
        handler.mapping.wf(),
        handler.accepts(req),
    ensures
        spec_map_call(handler.mapping, req, fd).addr - handler.mapping.spec_addr()
            == req.shm_offset,
        spec_map_call(handler.mapping, req, fd).len == req.len,
        spec_unmap_call(handler.mapping, req).addr - handler.mapping.spec_addr() == req.shm_offset,
        spec_unmap_call(handler.mapping, req).len == req.len,
{
}

/// The file is mapped from where the request says on: its offset goes into the call unchanged, up
/// to a multiple of two to the 64. The file is the one that came with the request.
pub proof fn law_map_takes_the_file_as_asked(region: MmapRegion, req: VhostUserMMap, fd: i32)
    ensures
        ({
            let call = spec_map_call(region, req, fd);
            &&& call.fd == fd
            &&& req.fd_offset <= i64::MAX ==> call.offset == req.fd_offset
            &&& req.fd_offset > i64::MAX ==> {
                &&& call.offset < 0
                &&& call.offset + 0x1_0000_0000_0000_0000 == req.fd_offset
            }
        }),
{
}

/// Each argument of the call that maps depends on its own part of the request: the file offset on
/// `fd_offset` alone, the place on `shm_offset` and `len` alone, the access on `flags` alone.
pub proof fn law_map_parts_are_separate(
    region: MmapRegion,
    req: VhostUserMMap,
    other: VhostUserMMap,
    fd: i32,
    other_fd: i32,
)
    ensures
        ({
            let call = spec_map_call(region, req, fd);
            let other_call = spec_map_call(region, other, other_fd);
            &&& req.fd_offset == other.fd_offset <==> call.offset == other_call.offset
            &&& req.shm_offset == other.shm_offset ==> call.addr == other_call.addr
            &&& req.len == other.len ==> call.len == other_call.len
            &&& req.flags % 2 == other.flags % 2 <==> call.prot == other_call.prot
            &&& call.prot == other_call.prot <==> call.flags == other_call.flags
        }),
{
}

/// A writable mapping is readable, writable, shared and fixed; any other is readable, private and
/// fixed. Nothing else is asked of the kernel.
pub proof fn law_map_asks_for_nothing_else(region: MmapRegion, req: VhostUserMMap, fd: i32)
    ensures
        ({
            let call = spec_map_call(region, req, fd);
            &&& req.flags % 2 == 1 ==> {
                &&& call.prot == PROT_READ | PROT_WRITE
                &&& call.flags == MAP_SHARED | MAP_FIXED
            }
            &&& req.flags % 2 == 0 ==> {
                &&& call.prot == PROT_READ
                &&& call.flags == MAP_PRIVATE | MAP_FIXED
            }
        }),
{
    assert(1i32 | 2 == 3 && 1i32 | 0x10 == 0x11 && 2i32 | 0x10 == 0x12) by (bit_vector);
}

/// What the backend maps can always be read. It can be written, and its writes reach the file,
/// exactly where the request asks for a writable mapping.
pub proof fn law_map_access(region: MmapRegion, req: VhostUserMMap, fd: i32)
    ensures
        ({
            let call = spec_map_call(region, req, fd);
            &&& call.prot & PROT_READ == PROT_READ
            &&& call.prot & PROT_WRITE == PROT_WRITE <==> req.writable()
            &&& call.flags & MAP_SHARED == MAP_SHARED <==> req.writable()
            &&& call.flags & MAP_PRIVATE == MAP_PRIVATE <==> !req.writable()
            &&& call.flags & MAP_ANONYMOUS == 0
        }),
{
    assert(3i32 & 1 == 1 && 1i32 & 1 == 1 && 3i32 & 2 == 2 && 1i32 & 2 == 0) by (bit_vector);
    assert(0x11i32 & 1 == 1 && 0x12i32 & 1 == 0 && 0x11i32 & 2 == 0 && 0x12i32 & 2 == 2)
        by (bit_vector);
    assert(0x11i32 & 0x20 == 0 && 0x12i32 & 0x20 == 0) by (bit_vector);
}

/// Of a request's flags, only bit 0 has a meaning.
pub proof fn law_other_flags_are_ignored(
    handler: BackendReqHandler,
    req: VhostUserMMap,
    flags: u64,
    fd: i32,
)
    requires
        flags % 2 == req.flags % 2,
    ensures
        ({
            let other = VhostUserMMap { flags, ..req };
            &&& handler.accepts(other) == handler.accepts(req)
            &&& spec_map_call(handler.mapping, other, fd) == spec_map_call(handler.mapping, req, fd)
            &&& spec_unmap_call(handler.mapping, other) == spec_unmap_call(handler.mapping, req)
        }),
{
}

/// Unmapping covers exactly the memory that mapping covers. It leaves that memory without access,
/// without a file and without anything shared.
pub proof fn law_unmap_takes_back_map(region: MmapRegion, req: VhostUserMMap, fd: i32)
    ensures
        ({
            let map = spec_map_call(region, req, fd);
            let unmap = spec_unmap_call(region, req);
            &&& unmap.addr == map.addr
            &&& unmap.len == map.len
            &&& unmap.prot == 0
            &&& unmap.flags & MAP_ANONYMOUS == MAP_ANONYMOUS
            &&& unmap.flags & MAP_SHARED == 0
            &&& unmap.fd == -1
        }),
{
    assert(0x32i32 & 0x20 == 0x20 && 0x32i32 & 1 == 0) by (bit_vector);
}

/// Whatever an unmap request says besides the range, the memory becomes private, anonymous and
/// inaccessible, right there and in no other way: of two requests for one range, both lead to the
/// same call.
pub proof fn law_unmap_goes_by_the_range_alone(
    region: MmapRegion,
    req: VhostUserMMap,
    other: VhostUserMMap,
)
    ensures
        ({
            let call = spec_unmap_call(region, req);
            &&& call.prot == 0
            &&& call.flags & MAP_PRIVATE == MAP_PRIVATE
            &&& call.flags & MAP_ANONYMOUS == MAP_ANONYMOUS
            &&& call.flags & MAP_FIXED == MAP_FIXED
            &&& call.flags == MAP_ANONYMOUS | MAP_PRIVATE | MAP_FIXED
            &&& call.fd == -1
            &&& call.offset == 0
            &&& req.shm_offset == other.shm_offset && req.len == other.len ==> call
                == spec_unmap_call(region, other)
        }),
{
    assert(0x20i32 | 2 | 0x10 == 0x32 && 0x32i32 & 2 == 2 && 0x32i32 & 0x20 == 0x20 && 0x32i32
        & 0x10 == 0x10) by (bit_vector);
}

/// Requests for separate parts of the shared memory lead to calls on separate memory.
pub proof fn law_separate_requests(
    handler: BackendReqHandler,
    first: VhostUserMMap,
    second: VhostUserMMap,
    fd: i32,
)
    requires
        handler.mapping.wf(),
        handler.accepts(first),
        handler.accepts(second),
        first.shm_offset + first.len <= second.shm_offset,
    ensures
        ({
            let call = spec_map_call(handler.mapping, first, fd);
            &&& call.addr + call.len <= spec_map_call(handler.mapping, second, fd).addr
            &&& call.addr + call.len <= spec_unmap_call(handler.mapping, second).addr
        }),
{
}

} // verus!
