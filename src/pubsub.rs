use vstd::prelude::*;
use crate::error::{Error, Result};
use vstd::string::StringSliceAdditionalSpecFns;
use vstd::utf8::encode_utf8;

verus! {

/// The largest payload, in bytes, that the engine's length field can hold.
pub const MAX_PAYLOAD: usize = 2147483647;

/// Whether a topic can be handed to the engine, which takes it as a
/// NUL-terminated string: its UTF-8 bytes hold no NUL.
pub open spec fn topic_ok(topic: Seq<char>) -> bool {
    !encode_utf8(topic).contains(0u8)
}

/// Checks that a topic holds no NUL byte; fails with `InvalidTopic` otherwise.
pub fn check_topic(topic: &str) -> (r: Result<()>)
    ensures
        r is Ok <==> topic_ok(topic@),
        r is Err ==> r matches Err(Error::InvalidTopic),
{
    let b = topic.as_bytes();
    let mut i: usize = 0;
    while i < b.len()
        invariant
            b@ == topic.spec_bytes(),
            0 <= i <= b@.len(),
            forall|j: int| 0 <= j < i ==> b@[j] != 0u8,
        decreases b@.len() - i,
    {
        if b[i] == 0u8 {
            return Err(Error::InvalidTopic);
        }
        i = i + 1;
    }
    Ok(())
}

/// The payload length as the engine takes it. Fails with `PayloadTooLarge`
/// where the payload is longer than `MAX_PAYLOAD`.
pub fn payload_len(payload: &[u8]) -> (r: Result<i32>)
    ensures
        r is Ok <==> payload@.len() <= MAX_PAYLOAD,
        r matches Ok(n) ==> n == payload@.len(),
        r is Err ==> r matches Err(Error::PayloadTooLarge),
{
    if payload.len() <= MAX_PAYLOAD {
        Ok(payload.len() as i32)
    } else {
        Err(Error::PayloadTooLarge)
    }
}

/// The outcome of a subscribe request from the engine's status: `Ok` for 0,
/// `SubscribeError(status)` otherwise.
pub fn subscribe_status(status: i32) -> (r: Result<()>)
    ensures
        r is Ok <==> status == 0,
        r is Err ==> (r matches Err(Error::SubscribeError(c)) && c == status),
{
    if status == 0 {
        Ok(())
    } else {
        Err(Error::SubscribeError(status))
    }
}

/// The outcome of a publish request from the engine's status: `Ok` for 0,
/// `PublishError(status)` otherwise.
pub fn publish_status(status: i32) -> (r: Result<()>)
    ensures
        r is Ok <==> status == 0,
        r is Err ==> (r matches Err(Error::PublishError(c)) && c == status),
{
    if status == 0 {
        Ok(())
    } else {
        Err(Error::PublishError(status))
    }
}

} // verus!
