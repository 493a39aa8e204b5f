//! A discovered device and the completion of each call made on it: what the
//! caller gets, given the status and out-values that the native call
//! reported.
use vstd::prelude::*;

use crate::buffer::{
    capped, capped_request, has_nul, reported_prefix, take_reported, text_from_buffer,
    utf8_decoded, MAX_DEVICE_COUNT, MAX_PAYLOAD_LEN,
};
use crate::message::{
    borrow_events, borrow_received, event_handles, own_created, release_all, rx_handles,
    tx_handles, Event, RxMessage, TxMessage,
};
use crate::status::{validity_from_status, validity_of, ERROR_SUCCESS};

verus! {

/// One discovered unit. The handle is the native reference, valid until the
/// device is closed.
#[derive(Debug, Clone, Copy, PartialEq, Eq, Structural)]
pub struct Device {
    pub handle: usize,
}

/// Why a string could not be had: the call failed with a status code, or the
/// text it wrote is not valid, which the library is trusted never to do.
#[derive(Debug, Clone, Copy, PartialEq, Eq, Structural)]
pub enum TextFailure {
    Status(u32),
    Undecodable,
}

/// The native references of a batch of devices, in order.
pub open spec fn device_handles(devices: Seq<Device>) -> Seq<usize> {
    devices.map_values(|d: Device| d.handle)
}

impl Device {
    /// How many slots to offer the enumeration call: the caller's count,
    /// held to the most devices one enumeration reports.
    pub fn find_all_capacity(device_count: u32) -> (r: u32)
        ensures
            r == capped(device_count as nat, MAX_DEVICE_COUNT as nat),
    {
        capped_request(device_count, MAX_DEVICE_COUNT)
    }

    /// The devices that an enumeration reported: one for each filled slot,
    /// in order, none beyond the reported count.
    pub fn find_all(status: u32, slots: &Vec<usize>, found: u32) -> (r: Result<Vec<Device>, u32>)
        ensures
            status != ERROR_SUCCESS ==> r == Err::<Vec<Device>, u32>(status),
            status == ERROR_SUCCESS ==> (r matches Ok(v)
                && device_handles(v@) == reported_prefix(slots@, found as nat)),
            r matches Ok(v) ==> v@.len() <= found && v@.len() <= slots@.len(),
    {
        if status != ERROR_SUCCESS {
            return Err(status);
        }
        let filled = take_reported(slots, found);
        let mut out: Vec<Device> = Vec::new();
        let mut i: usize = 0;
        while i < filled.len()
            invariant
                i <= filled@.len(),
                device_handles(out@) == filled@.take(i as int),
            decreases filled@.len() - i,
        {
            let d = Device { handle: filled[i] };
            proof {
                assert(device_handles(out@.push(d)) =~= device_handles(out@).push(d.handle));
                assert(filled@.take(i as int).push(filled@[i as int]) =~= filled@.take(i + 1));
            }
            out.push(d);
            i = i + 1;
        }
        proof {
            assert(filled@.take(filled@.len() as int) =~= filled@);
        }
        Ok(out)
    }

    /// Whether a validity check found the device usable: an invalid device
    /// is a `false`, not an error.
    pub fn device_is_valid(status: u32) -> (r: Result<bool, u32>)
        ensures
            r == validity_of(status),
    {
        validity_from_status(status)
    }

    /// The messages that a receive call reported. Absence of traffic is a
    /// success with no message, not a failure.
    pub fn device_messages_get(status: u32, slots: &Vec<usize>, filled: u32) -> (r: Result<
        Vec<RxMessage>,
        u32,
    >)
        ensures
            status != ERROR_SUCCESS ==> r == Err::<Vec<RxMessage>, u32>(status),
            status == ERROR_SUCCESS ==> (r matches Ok(v)
                && rx_handles(v@) == reported_prefix(slots@, filled as nat)),
            r matches Ok(v) ==> v@.len() <= filled && v@.len() <= slots@.len(),
    {
        if status != ERROR_SUCCESS {
            return Err(status);
        }
        let got = take_reported(slots, filled);
        Ok(borrow_received(&got))
    }

    /// The library-wide events that an event call reported.
    pub fn events_get(status: u32, slots: &Vec<usize>, filled: u32) -> (r: Result<Vec<Event>, u32>)
        ensures
            status != ERROR_SUCCESS ==> r == Err::<Vec<Event>, u32>(status),
            status == ERROR_SUCCESS ==> (r matches Ok(v)
                && event_handles(v@) == reported_prefix(slots@, filled as nat)),
            r matches Ok(v) ==> v@.len() <= filled && v@.len() <= slots@.len(),
    {
        if status != ERROR_SUCCESS {
            return Err(status);
        }
        let got = take_reported(slots, filled);
        Ok(borrow_events(&got))
    }

    /// The events of one device that an event call reported.
    pub fn device_events_get(status: u32, slots: &Vec<usize>, filled: u32) -> (r: Result<
        Vec<Event>,
        u32,
    >)
        ensures
            status != ERROR_SUCCESS ==> r == Err::<Vec<Event>, u32>(status),
            status == ERROR_SUCCESS ==> (r matches Ok(v)
                && event_handles(v@) == reported_prefix(slots@, filled as nat)),
            r matches Ok(v) ==> v@.len() <= filled && v@.len() <= slots@.len(),
    {
        Device::events_get(status, slots, filled)
    }

    /// Ownership of the messages that a create call made, one per slot.
    pub fn message_can_create(status: u32, slots: &Vec<usize>) -> (r: Result<Vec<TxMessage>, u32>)
        ensures
            status != ERROR_SUCCESS ==> r == Err::<Vec<TxMessage>, u32>(status),
            status == ERROR_SUCCESS ==> (r matches Ok(v) && tx_handles(v@) == slots@),
    {
        if status != ERROR_SUCCESS {
            return Err(status);
        }
        Ok(own_created(slots))
    }

    /// Gives up a created message for the free call: the native reference
    /// to release. Only an owned message can be freed; a received one has
    /// another type.
    pub fn message_can_free(message: TxMessage) -> (r: usize)
        ensures
            r == message@,
    {
        message.into_handle()
    }

    /// The native references of a batch handed over for transmission, and
    /// their count. The batch is consumed: the library takes the messages.
    pub fn transmit_batch(messages: Vec<TxMessage>) -> (r: (Vec<usize>, u32))
        requires
            messages@.len() <= u32::MAX,
        ensures
            r.0@ == tx_handles(messages@),
            r.1 == messages@.len(),
    {
        let n = messages.len() as u32;
        (release_all(messages), n)
    }

    /// How many messages a transmit call took. A short count is a partial
    /// submission, not a failure; a count beyond the batch is held to it.
    pub fn device_messages_transmit(status: u32, submitted: u32, accepted: u32) -> (r: Result<
        u32,
        u32,
    >)
        ensures
            status != ERROR_SUCCESS ==> r == Err::<u32, u32>(status),
            status == ERROR_SUCCESS ==> r == Ok::<u32, u32>(
                capped(accepted as nat, submitted as nat) as u32,
            ),
    {
        if status != ERROR_SUCCESS {
            return Err(status);
        }
        Ok(capped_request(accepted, submitted))
    }

    /// How many payload bytes to ask for: the caller's count, held to the
    /// longest frame.
    pub fn data_capacity(requested: u32) -> (r: u32)
        ensures
            r == capped(requested as nat, MAX_PAYLOAD_LEN as nat),
    {
        capped_request(requested, MAX_PAYLOAD_LEN)
    }

    /// The payload that a data call reported: the filled bytes, in order.
    pub fn message_data_get(status: u32, buf: &Vec<u8>, reported: u32) -> (r: Result<Vec<u8>, u32>)
        ensures
            status != ERROR_SUCCESS ==> r == Err::<Vec<u8>, u32>(status),
            status == ERROR_SUCCESS ==> (r matches Ok(v) && v@ == reported_prefix(buf@, reported as nat)),
            r matches Ok(v) ==> v@.len() <= reported && v@.len() <= buf@.len(),
    {
        if status != ERROR_SUCCESS {
            return Err(status);
        }
        Ok(take_reported(buf, reported))
    }

    /// The length to hand over with a payload; `None` for one longer than
    /// any frame.
    pub fn payload_length(data: &Vec<u8>) -> (r: Option<u32>)
        ensures
            data@.len() <= MAX_PAYLOAD_LEN ==> r == Some(data@.len() as u32),
            data@.len() > MAX_PAYLOAD_LEN ==> r is None,
    {
        if data.len() <= MAX_PAYLOAD_LEN as usize {
            Some(data.len() as u32)
        } else {
            None
        }
    }

    /// The string that a string call reported: the filled part of the
    /// buffer, decoded. Serves the description, serial number, event
    /// description and the names of network, bus, message and device types.
    pub fn text_reply(status: u32, buf: &Vec<u8>, reported: u32) -> (r: Result<String, TextFailure>)
        ensures
            status != ERROR_SUCCESS ==> r == Err::<String, TextFailure>(TextFailure::Status(status)),
            status == ERROR_SUCCESS ==> ({
                let p = reported_prefix(buf@, reported as nat);
                match r {
                    Ok(s) => !has_nul(p) && utf8_decoded(p) == Some(s@)
                        && s@.len() <= reported && s@.len() <= buf@.len(),
                    Err(f) => f == TextFailure::Undecodable && (has_nul(p) || utf8_decoded(p) is None),
                }
            }),
    {
        if status != ERROR_SUCCESS {
            return Err(TextFailure::Status(status));
        }
        match text_from_buffer(buf, reported) {
            Some(s) => Ok(s),
            None => Err(TextFailure::Undecodable),
        }
    }
}

} // verus!
