use vhost_user_devices::shmem::{
    mmap_answer, BackendReqHandler, MmapCall, MmapRegion, PtrGuardMut, VhostUserMMap, EINVAL,
    MAP_ANONYMOUS, MAP_FIXED, MAP_PRIVATE, MAP_SHARED, PROT_READ, PROT_WRITE,
};
use vm_memory::VolatileMemory;

const ADDR: usize = 0x7f00_0000_0000;
const SIZE: usize = 0x4000;

fn handler() -> BackendReqHandler {
    BackendReqHandler { mapping: MmapRegion::new(ADDR, SIZE).unwrap() }
}

fn request(shm_offset: u64, len: u64, flags: u64) -> VhostUserMMap {
    VhostUserMMap { fd_offset: 0x2000, shm_offset, len, flags }
}

#[test]
fn constants_are_those_of_the_system() {
    assert_eq!(EINVAL, libc::EINVAL);
    assert_eq!(PROT_READ, libc::PROT_READ);
    assert_eq!(PROT_WRITE, libc::PROT_WRITE);
    assert_eq!(MAP_SHARED, libc::MAP_SHARED);
    assert_eq!(MAP_PRIVATE, libc::MAP_PRIVATE);
    assert_eq!(MAP_FIXED, libc::MAP_FIXED);
    assert_eq!(MAP_ANONYMOUS, libc::MAP_ANONYMOUS);
}

#[test]
fn regions_do_not_wrap_around() {
    let region = MmapRegion::new(usize::MAX - 5, 5).unwrap();
    assert_eq!(region.addr(), usize::MAX - 5);
    assert_eq!(region.size(), 5);
    assert!(MmapRegion::new(usize::MAX - 5, 6).is_none());
    assert!(MmapRegion::new(0, 0).is_some());
}

#[test]
fn writable_request_becomes_shared_mapping() {
    assert_eq!(
        handler().shmem_map(&request(0x1000, 0x2000, 1), 42),
        Ok(MmapCall {
            addr: ADDR + 0x1000,
            len: 0x2000,
            prot: libc::PROT_READ | libc::PROT_WRITE,
            flags: libc::MAP_SHARED | libc::MAP_FIXED,
            fd: 42,
            offset: 0x2000,
        })
    );
}

#[test]
fn read_only_request_becomes_private_mapping() {
    assert_eq!(
        handler().shmem_map(&request(0, 0x4000, 0), 7),
        Ok(MmapCall {
            addr: ADDR,
            len: 0x4000,
            prot: libc::PROT_READ,
            flags: libc::MAP_PRIVATE | libc::MAP_FIXED,
            fd: 7,
            offset: 0x2000,
        })
    );
}

#[test]
fn flags_above_bit_zero_are_ignored() {
    let plain = handler().shmem_map(&request(0, 0x1000, 0), 3);
    assert_eq!(handler().shmem_map(&request(0, 0x1000, 2), 3), plain);
    assert_eq!(handler().shmem_map(&request(0, 0x1000, u64::MAX - 1), 3), plain);
    let writable = handler().shmem_map(&request(0, 0x1000, 1), 3);
    assert_eq!(handler().shmem_map(&request(0, 0x1000, 3), 3), writable);
    assert_ne!(plain, writable);
}

#[test]
fn unmapping_leaves_inaccessible_memory() {
    let req = request(0x3000, 0x1000, 1);
    let map = handler().shmem_map(&req, 9).unwrap();
    let unmap = handler().shmem_unmap(&req).unwrap();
    assert_eq!(
        unmap,
        MmapCall {
            addr: ADDR + 0x3000,
            len: 0x1000,
            prot: libc::PROT_NONE,
            flags: libc::MAP_ANONYMOUS | libc::MAP_PRIVATE | libc::MAP_FIXED,
            fd: -1,
            offset: 0,
        }
    );
    assert_eq!((map.addr, map.len), (unmap.addr, unmap.len));
}

#[test]
fn requests_outside_the_region_are_invalid() {
    for (offset, len) in [
        (0x4000, 1),
        (0x3001, 0x1000),
        (0, 0x4001),
        (0x4001, 0),
        (u64::MAX, 1),
        (1, u64::MAX),
        (u64::MAX, u64::MAX),
    ] {
        assert_eq!(handler().ptr_guard_mut(offset, len), Err(libc::EINVAL));
        assert_eq!(handler().shmem_map(&request(offset, len, 1), 3), Err(libc::EINVAL));
        assert_eq!(handler().shmem_unmap(&request(offset, len, 1)), Err(libc::EINVAL));
    }
}

#[test]
fn empty_slice_may_stand_at_the_end() {
    assert_eq!(
        handler().ptr_guard_mut(0x4000, 0),
        Ok(PtrGuardMut { addr: ADDR + 0x4000, len: 0 })
    );
}

#[test]
fn bounds_agree_with_real_memory() {
    let real: vm_memory::MmapRegion<()> = vm_memory::MmapRegion::new(SIZE).unwrap();
    let region = MmapRegion::new(real.as_ptr() as usize, real.size()).unwrap();
    let points = [0, 1, 0x1000, 0x3fff, 0x4000, 0x4001, usize::MAX - 1, usize::MAX];
    for offset in points {
        for count in points {
            let slice = region.get_slice(offset, count);
            match real.get_slice(offset, count) {
                Ok(expected) => {
                    let guard = expected.ptr_guard_mut();
                    let addr = guard.as_ptr() as usize;
                    assert_eq!(slice, Some(PtrGuardMut { addr, len: guard.len() }));
                }
                Err(_) => assert_eq!(slice, None),
            }
        }
    }
}

#[test]
fn high_file_offsets_become_negative() {
    let offset = |fd_offset: u64| {
        let req = VhostUserMMap { fd_offset, shm_offset: 0, len: 1, flags: 0 };
        handler().shmem_map(&req, 3).unwrap().offset
    };
    assert_eq!(offset(0), 0);
    assert_eq!(offset(i64::MAX as u64), i64::MAX);
    assert_eq!(offset(1 << 63), i64::MIN);
    assert_eq!(offset(u64::MAX), -1);
}

#[test]
fn separate_requests_get_separate_memory() {
    let first = handler().shmem_map(&request(0, 0x1000, 1), 3).unwrap();
    let second = handler().shmem_map(&request(0x1000, 0x1000, 1), 4).unwrap();
    assert!(first.addr + first.len <= second.addr);
}

#[test]
fn backend_is_answered_zero_or_the_system_error() {
    assert_eq!(mmap_answer(Ok(())), Ok(0));
    assert_eq!(mmap_answer(Err(libc::ENOMEM)), Err(libc::ENOMEM));
}
