//! Reading the device's configuration space from the backend.

use crate::bindings::config_flag_writable;
use vstd::prelude::*;

verus! {

/// What the backend is asked for: a part of its configuration space.
#[derive(Clone, Copy, Debug, PartialEq, Eq)]
pub struct ConfigRequest<'a> {
    pub offset: u32,
    pub size: u32,
    pub flags: u32,
    /// What goes along with the request: the reader's buffer as it is.
    pub payload: &'a [u8],
}

/// Why a read of the configuration space went wrong.
#[derive(Debug, PartialEq, Eq)]
pub enum ConfigError<E> {
    /// The backend did not answer, or answered with an error.
    Backend(E),
    /// The backend sent more than the reader has room for.
    WriteZero,
}

/// The request for as many bytes as `data` has, from `offset` on. The wire format has 32 bits for
/// each of the two numbers and the higher bits are dropped.
pub open spec fn spec_config_request<'a>(offset: u64, data: &'a [u8]) -> ConfigRequest<'a> {
    ConfigRequest {
        offset: (offset as int % 0x1_0000_0000) as u32,
        size: (data@.len() as int % 0x1_0000_0000) as u32,
        flags: 1,
        payload: data,
    }
}

/// `data` with `config` written over its beginning, as far as `data` goes.
pub open spec fn overwritten(data: Seq<u8>, config: Seq<u8>) -> Seq<u8> {
    Seq::new(
        data.len(),
        |i: int|
            if i < config.len() {
                config[i]
            } else {
                data[i]
            },
    )
}

/// The request that fills `data` with configuration space from `offset` on.
pub fn config_request<'a>(offset: u64, data: &'a [u8]) -> (request: ConfigRequest<'a>)
    ensures
        request == spec_config_request(offset, data),
        request.offset == offset % 0x1_0000_0000,
        request.size == data@.len() % 0x1_0000_0000,
        request.flags == 1,
        request.payload@ == data@,
{
    let size: u64 = data.len() as u64;
    proof {
        assert((offset as u32) == offset % 0x1_0000_0000) by (bit_vector);
        assert((size as u32) == size % 0x1_0000_0000) by (bit_vector);
    }
    ConfigRequest {
        offset: #[verifier::truncate] (offset as u32),
        size: #[verifier::truncate] (size as u32),
        flags: config_flag_writable(),
        payload: data,
    }
}

/// Puts the backend's answer into the reader's buffer.
pub fn store_config<E>(data: &mut [u8], reply: Result<Vec<u8>, E>) -> (result: Result<
    (),
    ConfigError<E>,
>)
    ensures
        match reply {
            Ok(config) => {
                &&& final(data)@ == overwritten(old(data)@, config@)
                &&& final(data)@.len() == old(data)@.len()
                &&& forall|i: int|
                    0 <= i < old(data)@.len() ==> #[trigger] final(data)@[i] == if i
                        < config@.len() {
                        config@[i]
                    } else {
                        old(data)@[i]
                    }
                &&& result == if config@.len() <= old(data)@.len() {
                    Ok::<(), ConfigError<E>>(())
                } else {
                    Err(ConfigError::WriteZero)
                }
            },
            Err(e) => final(data)@ == old(data)@ && result == Err::<(), ConfigError<E>>(
                ConfigError::Backend(e),
            ),
        },
{
    let config = match reply {
        Ok(config) => config,
        Err(e) => return Err(ConfigError::Backend(e)),
    };
    let mut i: usize = 0;
    while i < config.len() && i < data.len()
        invariant
            i <= config.len(),
            i <= data.len(),
            data@.len() == old(data)@.len(),
            forall|j: int| 0 <= j < i ==> data@[j] == config@[j],
            forall|j: int| i <= j < data@.len() ==> data@[j] == old(data)@[j],
        decreases config.len() - i,
    {
        data[i] = config[i];
        i += 1;
    }
    if config.len() > data.len() {
        Err(ConfigError::WriteZero)
    } else {
        Ok(())
    }
}

/// A buffer keeps its size, and of the configuration space it never sees anything but what the
/// backend sent. What the backend did not send stays as it was.
pub proof fn law_config_is_what_was_sent(data: Seq<u8>, config: Seq<u8>)
    ensures
        overwritten(data, config).len() == data.len(),
        forall|i: int|
            0 <= i < data.len() && i < config.len() ==> #[trigger] overwritten(data, config)[i]
                == config[i],
        forall|i: int|
            config.len() <= i < data.len() ==> #[trigger] overwritten(data, config)[i] == data[i],
        config.len() == data.len() ==> overwritten(data, config) == config,
        config.len() == 0 ==> overwritten(data, config) == data,
        config.len() > data.len() ==> overwritten(data, config) == config.take(data.len() as int),
{
}

/// Every read asks with the one flag `WRITABLE` and sends the reader's buffer along. The offset
/// and the size are those of the read, up to multiples of two to the 32.
pub proof fn law_config_request_fields(offset: u64, data: &[u8])
    ensures
        ({
            let request = spec_config_request(offset, data);
            &&& request.flags == 1
            &&& request.payload@ == data@
            &&& (offset - request.offset) % 0x1_0000_0000 == 0
            &&& (data@.len() - request.size) % 0x1_0000_0000 == 0
        }),
{
}

/// The offset that is asked for depends on the read's offset alone, the size on the length of its
/// buffer alone, and the flags on neither.
pub proof fn law_config_request_parts_are_separate(
    offset: u64,
    other_offset: u64,
    data: &[u8],
    other_data: &[u8],
)
    ensures
        spec_config_request(offset, data).offset == spec_config_request(offset, other_data).offset,
        spec_config_request(offset, data).size == spec_config_request(other_offset, data).size,
        spec_config_request(offset, data).flags == spec_config_request(
            other_offset,
            other_data,
        ).flags,
{
}

/// Where the numbers fit the wire format, the backend is asked for exactly what the guest reads.
pub proof fn law_config_request_is_exact(offset: u64, data: &[u8])
    requires
        offset <= u32::MAX,
        data@.len() <= u32::MAX,
    ensures
        spec_config_request(offset, data).offset == offset,
        spec_config_request(offset, data).size == data@.len(),
        spec_config_request(offset, data).flags == 1,
        spec_config_request(offset, data).payload@ == data@,
{
}

} // verus!
