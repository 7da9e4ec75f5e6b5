use std::io::Write;
use vhost::vhost_user::message::VhostUserConfigFlags;
use vhost_user_devices::config::{config_request, store_config, ConfigError, ConfigRequest};

#[test]
fn request_names_offset_size_and_flags() {
    let data = [7u8, 8, 9];
    assert_eq!(
        config_request(16, &data),
        ConfigRequest {
            offset: 16,
            size: 3,
            flags: VhostUserConfigFlags::WRITABLE.bits(),
            payload: &[7, 8, 9],
        }
    );
    assert_eq!(config_request(0, &[]).payload, &[]);
}

#[test]
fn offset_is_cut_to_the_wire_format() {
    assert_eq!(config_request(0x1_0000_0004, &[0]).offset, 4);
    assert_eq!(config_request(u64::MAX, &[0]).offset, u32::MAX);
    assert_eq!(config_request(u32::MAX as u64, &[0]).offset, u32::MAX);
}

#[test]
fn answer_replaces_the_buffer() {
    let mut data = [0u8; 4];
    assert_eq!(store_config::<()>(&mut data, Ok(vec![1, 2, 3, 4])), Ok(()));
    assert_eq!(data, [1, 2, 3, 4]);
}

#[test]
fn short_answer_leaves_the_rest() {
    let mut data = [9u8; 4];
    assert_eq!(store_config::<()>(&mut data, Ok(vec![1, 2])), Ok(()));
    assert_eq!(data, [1, 2, 9, 9]);
    assert_eq!(store_config::<()>(&mut data, Ok(vec![])), Ok(()));
    assert_eq!(data, [1, 2, 9, 9]);
}

#[test]
fn long_answer_fills_the_buffer_and_fails() {
    let mut data = [0u8; 2];
    assert_eq!(store_config::<()>(&mut data, Ok(vec![1, 2, 3])), Err(ConfigError::WriteZero));
    assert_eq!(data, [1, 2]);
}

#[test]
fn failed_read_leaves_the_buffer() {
    let mut data = [5u8; 3];
    assert_eq!(
        store_config(&mut data, Err("socket broken")),
        Err(ConfigError::Backend("socket broken"))
    );
    assert_eq!(data, [5, 5, 5]);
}

#[test]
fn storing_agrees_with_std() {
    for len in 0..6 {
        let config: Vec<u8> = (1..=len).collect();
        let mut expected = [0u8; 3];
        let ok = (&mut expected[..]).write_all(&config).is_ok();
        let mut data = [0u8; 3];
        assert_eq!(store_config::<()>(&mut data, Ok(config)).is_ok(), ok);
        assert_eq!(data, expected);
    }
}
