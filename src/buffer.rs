//! The bounded-buffer protocol: the caller hands the library a buffer of a
//! given capacity and the library reports how much of it it used.
use vstd::prelude::*;

verus! {

/// Capacity of every buffer that receives a descriptive string.
pub const STRING_CAPACITY: u32 = 255;

/// Number of event slots requested when events are drained.
pub const EVENT_CAPACITY: u32 = 1024;

/// Most devices that one enumeration can report.
pub const MAX_DEVICE_COUNT: u32 = 255;

/// Longest payload of a bus frame (CAN FD).
pub const MAX_PAYLOAD_LEN: u32 = 64;

/// The smaller of a requested capacity and a hard limit.
pub open spec fn capped(requested: nat, limit: nat) -> nat {
    if requested <= limit {
        requested
    } else {
        limit
    }
}

/// The part of a buffer that the library reported as filled. A report beyond
/// the end of the buffer is held to the buffer's own length.
pub open spec fn reported_prefix<T>(slots: Seq<T>, reported: nat) -> Seq<T> {
    slots.take(capped(reported, slots.len()) as int)
}

/// Whether a byte sequence holds a zero byte.
pub open spec fn has_nul(b: Seq<u8>) -> bool {
    exists|i: int| 0 <= i < b.len() && b[i] == 0
}

/// The text that UTF-8 decoding makes of a byte sequence, or `None` where the
/// bytes are not UTF-8.
pub uninterp spec fn utf8_decoded(b: Seq<u8>) -> Option<Seq<char>>;

/// Relies on `String::from_utf8`: it accepts exactly the UTF-8 byte sequences,
/// and a character takes one to four bytes, so the text has no more
/// characters than there were bytes.
#[verifier::external_body]
fn decode_utf8(bytes: Vec<u8>) -> (r: Option<String>)
    ensures
        match r {
            Some(s) => utf8_decoded(bytes@) == Some(s@) && s@.len() <= bytes@.len(),
            None => utf8_decoded(bytes@) is None,
        },
        bytes@.len() == 0 ==> r is Some,
{
    String::from_utf8(bytes).ok()
}

/// The smaller of a requested capacity and a hard limit.
pub fn capped_request(requested: u32, limit: u32) -> (r: u32)
    ensures
        r == capped(requested as nat, limit as nat),
        r <= limit,
        r <= requested,
{
    if requested <= limit {
        requested
    } else {
        limit
    }
}

/// A zeroed buffer of `STRING_CAPACITY` bytes, to receive a string.
pub fn string_buffer() -> (r: Vec<u8>)
    ensures
        r@.len() == STRING_CAPACITY,
        forall|i: int| 0 <= i < r@.len() ==> r@[i] == 0,
{
    let mut buf: Vec<u8> = Vec::new();
    let mut i: u32 = 0;
    while i < STRING_CAPACITY
        invariant
            i <= STRING_CAPACITY,
            buf@.len() == i,
            forall|j: int| 0 <= j < buf@.len() ==> buf@[j] == 0,
        decreases STRING_CAPACITY - i,
    {
        buf.push(0);
        i = i + 1;
    }
    buf
}

/// `capacity` zeroed slots, to receive native references.
pub fn slot_buffer(capacity: u32) -> (r: Vec<usize>)
    ensures
        r@.len() == capacity,
        forall|i: int| 0 <= i < r@.len() ==> r@[i] == 0,
{
    let mut slots: Vec<usize> = Vec::new();
    let mut i: u32 = 0;
    while i < capacity
        invariant
            i <= capacity,
            slots@.len() == i,
            forall|j: int| 0 <= j < slots@.len() ==> slots@[j] == 0,
        decreases capacity - i,
    {
        slots.push(0);
        i = i + 1;
    }
    slots
}

/// Whatever the library reports, what the caller keeps of a buffer never
/// outgrows the capacity it offered.
pub proof fn lemma_reported_within_capacity<T>(slots: Seq<T>, reported: nat, capacity: nat)
    requires
        slots.len() == capacity,
    ensures
        reported_prefix(slots, reported).len() <= capacity,
        reported_prefix(slots, reported).len() <= reported,
        forall|i: int| 0 <= i < reported_prefix(slots, reported).len()
            ==> reported_prefix(slots, reported)[i] == slots[i],
{
}

/// The slots that the library reported as filled, in order; nothing beyond
/// the reported count is kept.
pub fn take_reported<T: Copy>(slots: &Vec<T>, reported: u32) -> (r: Vec<T>)
    ensures
        r@ == reported_prefix(slots@, reported as nat),
        r@.len() <= reported,
        r@.len() <= slots@.len(),
{
    let n: usize = if (reported as usize) < slots.len() {
        reported as usize
    } else {
        slots.len()
    };
    let mut out: Vec<T> = Vec::new();
    let mut i: usize = 0;
    while i < n
        invariant
            n <= slots@.len(),
            n == capped(reported as nat, slots@.len()),
            i <= n,
            out@ == slots@.take(i as int),
        decreases n - i,
    {
        out.push(slots[i]);
        proof {
            assert(slots@.take(i as int).push(slots@[i as int]) =~= slots@.take(i + 1));
        }
        i = i + 1;
    }
    out
}

/// Whether any byte of `b` is zero.
pub fn contains_nul(b: &Vec<u8>) -> (r: bool)
    ensures
        r == has_nul(b@),
{
    let mut i: usize = 0;
    while i < b.len()
        invariant
            i <= b@.len(),
            forall|j: int| 0 <= j < i ==> b@[j] != 0,
        decreases b@.len() - i,
    {
        if b[i] == 0 {
            return true;
        }
        i = i + 1;
    }
    false
}

/// The text held in a string buffer: the reported part of it, decoded as
/// UTF-8. `None` where that part holds a zero byte or is not UTF-8, which
/// the library is trusted never to produce.
pub fn text_from_buffer(buf: &Vec<u8>, reported: u32) -> (r: Option<String>)
    ensures
        ({
            let p = reported_prefix(buf@, reported as nat);
            match r {
                Some(s) => !has_nul(p) && utf8_decoded(p) == Some(s@)
                    && s@.len() <= reported && s@.len() <= buf@.len(),
                None => has_nul(p) || utf8_decoded(p) is None,
            }
        }),
{
    let bytes = take_reported(buf, reported);
    if contains_nul(&bytes) {
        None
    } else {
        decode_utf8(bytes)
    }
}

} // verus!
