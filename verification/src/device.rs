//! The state that both devices keep, and the errors that they report.

use crate::shmem::MmapRegion;
use vmm_sys_util::eventfd::EventFd;
use vstd::prelude::*;

verus! {

/// How many queues each of the devices has.
pub const NUM_QUEUES: u16 = 2;

/// What a virtio device keeps, whatever its kind.
pub struct VirtioCommon {
    /// The kind of the device.
    pub device_type: u32,
    /// The features that may be offered to the guest.
    pub avail_features: u64,
    /// The features that are acknowledged.
    pub acked_features: u64,
    /// The largest size of each queue.
    pub queue_sizes: Vec<u16>,
    /// How many queues the guest has to set up.
    pub min_queues: u16,
    /// How many parties meet at the barrier when the device is paused.
    pub paused_sync: Option<usize>,
    /// Tells the device's thread to pause.
    pub pause_evt: Option<EventFd>,
    /// Tells the device's thread to end.
    pub kill_evt: Option<EventFd>,
}

/// What a device keeps of its backend. `V` is the connection to it.
pub struct VhostUserCommon<V> {
    /// The connection.
    pub vu: Option<V>,
    /// The protocol features that the backend took.
    pub acked_protocol_features: u64,
    /// The socket at which the backend listens.
    pub socket_path: String,
    /// How many queues the backend was told of.
    pub vu_num_queues: usize,
    /// For each queue the index from which the backend starts, where it is not to be read from
    /// the guest's memory.
    pub vring_bases: Option<Vec<u64>>,
}

/// A region of shared memory as the backend describes it.
#[derive(Clone, Copy, Debug, PartialEq, Eq)]
pub struct VhostSharedMemoryRegion {
    pub id: u8,
    pub padding: [u8; 7],
    pub length: u64,
}

/// The memory that a device shares with the guest: where the guest sees it and where the monitor
/// has it mapped.
#[derive(Clone, Copy, Debug)]
pub struct VirtioSharedMemoryList {
    /// The slot under which the hypervisor knows the memory.
    pub mem_slot: u32,
    /// The address in the guest.
    pub addr: u64,
    /// The memory in the monitor.
    pub mapping: MmapRegion,
}

/// Memory of the monitor that is to be visible in the guest.
#[derive(Clone, Copy, Debug)]
pub struct UserspaceMapping {
    pub mem_slot: u32,
    pub addr: u64,
    pub mapping: MmapRegion,
    /// Whether equal pages may be merged.
    pub mergeable: bool,
}

/// Why a device could not be set up. `E` is the error of the outside service that failed.
#[derive(Debug, PartialEq, Eq)]
pub enum Error<E> {
    /// Talking to the backend failed.
    Backend(E),
    /// The backend has another number of shared memory regions than the device: the expected
    /// number, then the actual one.
    VhostUserUnexpectedSharedMemoryRegionsCount(usize, usize),
    /// The channel for the backend's requests could not be made.
    FrontendReqHandlerCreation(E),
}

/// What the monitor's observers are told of a device.
#[derive(Clone, Copy, Debug, PartialEq, Eq, Structural)]
pub enum DeviceEvent {
    /// The device was activated.
    Activated,
    /// The device was reset.
    Reset,
}

impl DeviceEvent {
    /// The word for the event.
    pub open spec fn spec_name(self) -> Seq<char> {
        match self {
            DeviceEvent::Activated => "activated"@,
            DeviceEvent::Reset => "reset"@,
        }
    }

    /// The word for the event.
    pub fn name(&self) -> (name: &'static str)
        ensures
            name@ == self.spec_name(),
            *self == DeviceEvent::Activated ==> name@ == "activated"@,
            *self == DeviceEvent::Reset ==> name@ == "reset"@,
    {
        match self {
            DeviceEvent::Activated => "activated",
            DeviceEvent::Reset => "reset",
        }
    }
}

/// An event of one device, as it is announced.
#[derive(Clone, Copy, Debug, PartialEq, Eq)]
pub struct Announcement<'a> {
    /// Where the event comes from.
    pub source: &'static str,
    pub event: &'static str,
    /// The device.
    pub id: &'a str,
}

/// The announcement of `event` of the device `id`.
pub fn announcement<'a>(event: DeviceEvent, id: &'a str) -> (announcement: Announcement<'a>)
    ensures
        announcement.source@ == "virtio-device"@,
        announcement.event@ == event.spec_name(),
        event == DeviceEvent::Activated ==> announcement.event@ == "activated"@,
        event == DeviceEvent::Reset ==> announcement.event@ == "reset"@,
        announcement.id@ == id@,
{
    Announcement { source: "virtio-device", event: event.name(), id }
}

/// Replacing shared memory that the device does not have.
#[derive(Clone, Copy, Debug, PartialEq, Eq, Structural)]
pub struct SetShmRegionsNotSupported;

} // verus!
