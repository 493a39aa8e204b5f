use icsneoc2rs::buffer::{slot_buffer, string_buffer, EVENT_CAPACITY, MAX_DEVICE_COUNT, STRING_CAPACITY};
use icsneoc2rs::device::TextFailure;
use icsneoc2rs::status::{ERROR_INVALID_DEVICE, ERROR_SUCCESS};
use icsneoc2rs::Device;

#[test]
fn test_device_find_all() {
    let capacity = Device::find_all_capacity(0);
    let slots = slot_buffer(capacity);
    let devices = Device::find_all(ERROR_SUCCESS, &slots, 0).unwrap();
    assert_eq!(devices.len(), 0);
}

#[test]
fn find_all_capacity_is_capped() {
    assert_eq!(Device::find_all_capacity(0), 0);
    assert_eq!(Device::find_all_capacity(3), 3);
    assert_eq!(Device::find_all_capacity(255), 255);
    assert_eq!(Device::find_all_capacity(1000), MAX_DEVICE_COUNT);
}

#[test]
fn find_all_keeps_reported_devices_in_order() {
    let slots = vec![11usize, 22, 33, 0, 0];
    let devices = Device::find_all(ERROR_SUCCESS, &slots, 3).unwrap();
    assert_eq!(devices.len(), 3);
    assert_eq!(devices[0].handle, 11);
    assert_eq!(devices[1].handle, 22);
    assert_eq!(devices[2].handle, 33);
}

#[test]
fn find_all_report_beyond_buffer_is_held_to_it() {
    let slots = vec![5usize, 6];
    let devices = Device::find_all(ERROR_SUCCESS, &slots, 9).unwrap();
    assert_eq!(devices.len(), 2);
}

#[test]
fn find_all_failure_gives_status() {
    let slots = vec![5usize];
    assert_eq!(Device::find_all(7, &slots, 1).unwrap_err(), 7);
}

#[test]
fn messages_get_without_traffic_is_empty_success() {
    let slots = slot_buffer(20000);
    let messages = Device::device_messages_get(ERROR_SUCCESS, &slots, 0).unwrap();
    assert!(messages.is_empty());
}

#[test]
fn messages_get_keeps_filled_slots() {
    let slots = vec![100usize, 200, 0, 0];
    let messages = Device::device_messages_get(ERROR_SUCCESS, &slots, 2).unwrap();
    assert_eq!(messages.len(), 2);
    assert_eq!(messages[0].handle, 100);
    assert_eq!(messages[1].handle, 200);
}

#[test]
fn messages_get_failure_gives_status() {
    let slots = vec![1usize];
    assert_eq!(Device::device_messages_get(ERROR_INVALID_DEVICE, &slots, 1).unwrap_err(), ERROR_INVALID_DEVICE);
}

#[test]
fn events_get_never_exceeds_capacity() {
    let slots = slot_buffer(EVENT_CAPACITY);
    let events = Device::events_get(ERROR_SUCCESS, &slots, 5000).unwrap();
    assert_eq!(events.len(), EVENT_CAPACITY as usize);
    let device_events = Device::device_events_get(ERROR_SUCCESS, &vec![9usize, 8], 1).unwrap();
    assert_eq!(device_events.len(), 1);
    assert_eq!(device_events[0].handle, 9);
    assert_eq!(Device::device_events_get(3, &slots, 1).unwrap_err(), 3);
}

#[test]
fn created_message_is_freeable() {
    let created = Device::message_can_create(ERROR_SUCCESS, &vec![4242usize]).unwrap();
    assert_eq!(created.len(), 1);
    let message = created.into_iter().next().unwrap();
    assert_eq!(message.handle(), 4242);
    assert_eq!(Device::message_can_free(message), 4242);
}

#[test]
fn message_create_failure_gives_status() {
    assert_eq!(Device::message_can_create(2, &vec![1usize]).unwrap_err(), 2);
}

#[test]
fn transmit_of_negative_dlc_message_accepted() {
    let created = Device::message_can_create(ERROR_SUCCESS, &vec![77usize]).unwrap();
    let payload = vec![0u8, 0, 0, 0, 0, 0, 0, 1];
    assert_eq!(Device::payload_length(&payload), Some(8));
    let (handles, count) = Device::transmit_batch(created);
    assert_eq!(handles, vec![77usize]);
    assert_eq!(count, 1);
    let accepted = Device::device_messages_transmit(ERROR_SUCCESS, count, 1).unwrap();
    assert!(accepted > 0);
    assert_eq!(accepted, 1);
}

#[test]
fn transmit_short_count_is_partial_not_failure() {
    assert_eq!(Device::device_messages_transmit(ERROR_SUCCESS, 5, 2), Ok(2));
    assert_eq!(Device::device_messages_transmit(ERROR_SUCCESS, 5, 9), Ok(5));
    assert_eq!(Device::device_messages_transmit(10, 5, 5), Err(10));
}

#[test]
fn payload_length_limits() {
    assert_eq!(Device::payload_length(&vec![]), Some(0));
    assert_eq!(Device::payload_length(&vec![1u8; 64]), Some(64));
    assert_eq!(Device::payload_length(&vec![1u8; 65]), None);
}

#[test]
fn data_capacity_is_capped_to_frame() {
    assert_eq!(Device::data_capacity(8), 8);
    assert_eq!(Device::data_capacity(64), 64);
    assert_eq!(Device::data_capacity(1000), 64);
}

#[test]
fn data_get_keeps_reported_bytes() {
    let buf = vec![1u8, 2, 3, 4, 0, 0];
    assert_eq!(Device::message_data_get(ERROR_SUCCESS, &buf, 4), Ok(vec![1u8, 2, 3, 4]));
    assert_eq!(Device::message_data_get(ERROR_SUCCESS, &buf, 0), Ok(vec![]));
    assert_eq!(Device::message_data_get(6, &buf, 4), Err(6));
}

#[test]
fn device_is_valid_maps_invalid_to_false() {
    assert_eq!(Device::device_is_valid(ERROR_SUCCESS), Ok(true));
    assert_eq!(Device::device_is_valid(ERROR_INVALID_DEVICE), Ok(false));
    assert_eq!(Device::device_is_valid(1), Err(1));
}

#[test]
fn text_reply_truncates_to_reported_length() {
    let mut buf = string_buffer();
    assert_eq!(buf.len(), STRING_CAPACITY as usize);
    let text = b"ValueCAN 4-2 VS1234";
    buf[..text.len()].copy_from_slice(text);
    assert_eq!(Device::text_reply(ERROR_SUCCESS, &buf, 8).unwrap(), "ValueCAN");
    assert_eq!(Device::text_reply(ERROR_SUCCESS, &buf, text.len() as u32).unwrap(), "ValueCAN 4-2 VS1234");
}

#[test]
fn text_reply_never_exceeds_capacity() {
    let buf = vec![b'a'; STRING_CAPACITY as usize];
    let s = Device::text_reply(ERROR_SUCCESS, &buf, 1000).unwrap();
    assert_eq!(s.len(), 255);
}

#[test]
fn text_reply_failures() {
    let buf = string_buffer();
    assert_eq!(Device::text_reply(4, &buf, 3), Err(TextFailure::Status(4)));
    assert_eq!(Device::text_reply(ERROR_SUCCESS, &buf, 3), Err(TextFailure::Undecodable));
    let bad = vec![0xffu8, 0xfe];
    assert_eq!(Device::text_reply(ERROR_SUCCESS, &bad, 2), Err(TextFailure::Undecodable));
    assert_eq!(Device::text_reply(ERROR_SUCCESS, &bad, 0), Ok(String::new()));
}
