//! Setting a device up: connect to the backend, agree with it on features, then make the device.
//!
//! Each stage says what it asks of the outside, and the answer leads to the next stage. An answer
//! that is an error ends the setup with that error.

use crate::device::Error;
use crate::device::NUM_QUEUES;
use crate::features::avail_protocol_features;
use crate::features::gpu_avail_features;
use crate::features::spec_avail_protocol_features;
use crate::features::spec_gpu_avail_features;
use seccompiler::SeccompAction;
use vmm_sys_util::eventfd::EventFd;
use vstd::prelude::*;

verus! {

/// What the connection to a backend is made with. The call that makes it takes one argument more,
/// an optional one, which neither device ever gives; it has no place here.
#[derive(Clone, Copy, Debug)]
pub struct ConnectRequest<'a> {
    /// Whether the frontend listens and the backend connects.
    pub server: bool,
    /// The path of the socket.
    pub path: &'a str,
    /// The largest number of queues.
    pub num_queues: u64,
    /// Whether a stale socket is removed first.
    pub unlink_socket: bool,
}

/// What the backend is offered.
#[derive(Clone, Copy, Debug, PartialEq, Eq, Structural)]
pub struct NegotiateRequest {
    pub avail_features: u64,
    pub avail_protocol_features: u64,
}

/// A device that has no connection yet.
pub struct Setup {
    pub id: String,
    pub path: String,
    pub num_queues: u64,
    /// The features that the backend will be offered.
    pub avail_features: u64,
    /// `SHMEM_MAP_CROSVM`, the protocol feature by which the backend may ask for mappings. The
    /// `vhost` crate gives it no number, so the monitor does.
    pub shmem_map: u64,
    pub seccomp_action: SeccompAction,
    pub exit_evt: EventFd,
    /// Whether the device sits behind an IOMMU.
    pub access_platform: bool,
}

/// A device with a connection to its backend.
pub struct Connected<V> {
    pub setup: Setup,
    pub vu: V,
}

/// A device that has agreed with its backend on features.
pub struct Negotiated<V> {
    pub setup: Setup,
    pub vu: V,
    pub acked_features: u64,
    pub acked_protocol_features: u64,
}

impl Setup {
    /// Begins the setup of a gpu device whose backend listens at `path`. `shmem_map` is the number
    /// of the protocol feature `SHMEM_MAP_CROSVM`.
    pub fn gpu(
        id: String,
        path: &str,
        shmem_map: u64,
        seccomp_action: SeccompAction,
        exit_evt: EventFd,
        iommu: bool,
    ) -> (setup: Setup)
        ensures
            setup.id == id,
            setup.path@ == path@,
            setup.num_queues == NUM_QUEUES,
            setup.num_queues == 2,
            setup.avail_features == spec_gpu_avail_features(),
            setup.avail_features == 0x1_4000_001d,
            setup.shmem_map == shmem_map,
            setup.seccomp_action == seccomp_action,
            setup.exit_evt == exit_evt,
            setup.access_platform == iommu,
    {
        Setup {
            id,
            path: path.to_owned(),
            num_queues: NUM_QUEUES as u64,
            avail_features: gpu_avail_features(),
            shmem_map,
            seccomp_action,
            exit_evt,
            access_platform: iommu,
        }
    }

    /// Begins the setup of a media device whose backend listens at `path`. Its backend is offered
    /// `default_virtio_features`, the features that the monitor offers to any backend. `shmem_map`
    /// is the number of the protocol feature `SHMEM_MAP_CROSVM`.
    pub fn media(
        id: String,
        path: &str,
        default_virtio_features: u64,
        shmem_map: u64,
        seccomp_action: SeccompAction,
        exit_evt: EventFd,
        access_platform_enabled: bool,
    ) -> (setup: Setup)
        ensures
            setup.id == id,
            setup.path@ == path@,
            setup.num_queues == NUM_QUEUES,
            setup.num_queues == 2,
            setup.avail_features == default_virtio_features,
            setup.shmem_map == shmem_map,
            setup.seccomp_action == seccomp_action,
            setup.exit_evt == exit_evt,
            setup.access_platform == access_platform_enabled,
    {
        Setup {
            id,
            path: path.to_owned(),
            num_queues: NUM_QUEUES as u64,
            avail_features: default_virtio_features,
            shmem_map,
            seccomp_action,
            exit_evt,
            access_platform: access_platform_enabled,
        }
    }

    /// What follows the attempt to connect.
    pub open spec fn spec_connected<V, E>(self, reply: Result<V, E>) -> Result<
        Connected<V>,
        Error<E>,
    > {
        match reply {
            Ok(vu) => Ok(Connected { setup: self, vu }),
            Err(e) => Err(Error::Backend(e)),
        }
    }

    /// The connection to make. The backend listens, and its socket is left alone.
    pub fn connect_request(&self) -> (request: ConnectRequest<'_>)
        ensures
            request.server == false,
            request.path@ == self.path@,
            request.num_queues == self.num_queues,
            request.unlink_socket == false,
    {
        ConnectRequest {
            server: false,
            path: self.path.as_str(),
            num_queues: self.num_queues,
            unlink_socket: false,
        }
    }

    /// Goes on with the connection that was made.
    pub fn connected<V, E>(self, reply: Result<V, E>) -> (next: Result<Connected<V>, Error<E>>)
        ensures
            next == self.spec_connected(reply),
            match reply {
                Ok(vu) => next == Ok::<Connected<V>, Error<E>>(Connected { setup: self, vu }),
                Err(e) => next == Err::<Connected<V>, Error<E>>(Error::Backend(e)),
            },
    {
        match reply {
            Ok(vu) => Ok(Connected { setup: self, vu }),
            Err(e) => Err(Error::Backend(e)),
        }
    }
}

impl<V> Connected<V> {
    /// What follows the attempt to agree on features.
    pub open spec fn spec_negotiated<E>(self, reply: Result<(u64, u64), E>) -> Result<
        Negotiated<V>,
        Error<E>,
    > {
        match reply {
            Ok((acked_features, acked_protocol_features)) => Ok(
                Negotiated {
                    setup: self.setup,
                    vu: self.vu,
                    acked_features,
                    acked_protocol_features,
                },
            ),
            Err(e) => Err(Error::Backend(e)),
        }
    }

    /// The features to offer to the backend.
    pub fn negotiate_request(&self) -> (request: NegotiateRequest)
        ensures
            request.avail_features == self.setup.avail_features,
            request.avail_protocol_features == spec_avail_protocol_features(
                self.setup.shmem_map,
            ),
            request.avail_protocol_features == 0x228 | self.setup.shmem_map,
    {
        NegotiateRequest {
            avail_features: self.setup.avail_features,
            avail_protocol_features: avail_protocol_features(self.setup.shmem_map),
        }
    }

    /// Goes on with what the backend took: features, then protocol features.
    pub fn negotiated<E>(self, reply: Result<(u64, u64), E>) -> (next: Result<
        Negotiated<V>,
        Error<E>,
    >)
        ensures
            next == self.spec_negotiated(reply),
            match reply {
                Ok((features, protocol_features)) => match next {
                    Ok(negotiated) => {
                        &&& negotiated.setup == self.setup
                        &&& negotiated.vu == self.vu
                        &&& negotiated.acked_features == features
                        &&& negotiated.acked_protocol_features == protocol_features
                    },
                    Err(_) => false,
                },
                Err(e) => next == Err::<Negotiated<V>, Error<E>>(Error::Backend(e)),
            },
    {
        match reply {
            Ok((acked_features, acked_protocol_features)) => Ok(
                Negotiated {
                    setup: self.setup,
                    vu: self.vu,
                    acked_features,
                    acked_protocol_features,
                },
            ),
            Err(e) => Err(Error::Backend(e)),
        }
    }
}

/// What the first two answers come to.
pub open spec fn spec_negotiation<V, E>(
    setup: Setup,
    connection: Result<V, E>,
    features: Result<(u64, u64), E>,
) -> Result<Negotiated<V>, Error<E>> {
    match setup.spec_connected(connection) {
        Ok(connected) => connected.spec_negotiated(features),
        Err(e) => Err(e),
    }
}

/// The first answer that is an error ends the setup with that error. Otherwise nothing is lost on
/// the way: the device goes on with the connection, with what the backend took and with all that
/// it was begun with.
pub proof fn law_first_error_ends_setup<V, E>(
    setup: Setup,
    connection: Result<V, E>,
    features: Result<(u64, u64), E>,
)
    ensures
        spec_negotiation(setup, connection, features) == match (connection, features) {
            (Err(e), _) => Err(Error::Backend(e)),
            (Ok(_), Err(e)) => Err(Error::Backend(e)),
            (Ok(vu), Ok((acked_features, acked_protocol_features))) => Ok(
                Negotiated { setup, vu, acked_features, acked_protocol_features },
            ),
        },
{
}

} // verus!
