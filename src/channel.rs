use vstd::prelude::*;

use crate::error::{ConnectionError, DeviceError};
use crate::protocol::{frame_check, Response};

verus! {

/// Sends commands and matches the device's answers to them.
pub struct DeviceManager;

/// One thing that the notification stream does while a response is awaited.
#[derive(Debug, Clone)]
pub enum StreamEvent {
    /// A value was notified on the characteristic whose UUID is `source`.
    Notification { source: u128, value: Vec<u8> },
    /// The stream closed.
    Ended,
    /// The time budget for the response ran out.
    TimedOut,
}

/// A notification answers the outstanding request when it comes from the
/// notify characteristic, is a valid frame, and echoes the expected command id.
pub open spec fn answers(expected_command_id: u8, notify_uuid: u128, source: u128, value: Seq<u8>) -> bool {
    &&& source == notify_uuid
    &&& frame_check(value) is Ok
    &&& value[0] == expected_command_id
}

/// What one event means while a response to `expected_command_id` is awaited:
/// the response, a failure, or `None` when the event is to be discarded.
pub open spec fn event_outcome<R: Response>(
    expected_command_id: u8,
    notify_uuid: u128,
    event: StreamEvent,
) -> Option<Result<R, DeviceError>> {
    match event {
        StreamEvent::Notification { source, value } => if answers(
            expected_command_id,
            notify_uuid,
            source,
            value@,
        ) {
            Some(Ok(R::spec_from_frame(value@)))
        } else {
            None
        },
        StreamEvent::Ended => Some(Err(DeviceError::StreamEnded)),
        StreamEvent::TimedOut => Some(Err(DeviceError::Timeout)),
    }
}

/// The result of a correlated read over a stream that produced `events`: the
/// outcome of the first event that has one; a stream that stops producing
/// events has ended.
pub open spec fn correlated<R: Response>(
    expected_command_id: u8,
    notify_uuid: u128,
    events: Seq<StreamEvent>,
) -> Result<R, DeviceError>
    decreases events.len(),
{
    if events.len() == 0 {
        Err(DeviceError::StreamEnded)
    } else {
        match event_outcome::<R>(expected_command_id, notify_uuid, events[0]) {
            Some(r) => r,
            None => correlated::<R>(expected_command_id, notify_uuid, events.drop_first()),
        }
    }
}

impl DeviceManager {
    /// Decides what one stream event means for the read awaiting the response
    /// to `expected_command_id` on the characteristic `notify_uuid`.
    pub fn on_stream_event<R: Response>(
        expected_command_id: u8,
        notify_uuid: u128,
        event: &StreamEvent,
    ) -> (r: Option<Result<R, DeviceError>>)
        ensures
            r == event_outcome::<R>(expected_command_id, notify_uuid, *event),
    {
        match event {
            StreamEvent::Notification { source, value } => {
                if *source != notify_uuid || value.len() != 16 || value[0] != expected_command_id {
                    return None;
                }
                let bytes = value.clone();
                assert(bytes@ =~= value@);
                match R::from_bytes(bytes) {
                    Ok(response) => Some(Ok(response)),
                    Err(_) => None,
                }
            },
            StreamEvent::Ended => Some(Err(DeviceError::StreamEnded)),
            StreamEvent::TimedOut => Some(Err(DeviceError::Timeout)),
        }
    }

    /// Runs a correlated read over the events that a notification stream
    /// produced: the first valid frame from the notify characteristic that
    /// echoes `expected_command_id` is the response; every other notification
    /// is discarded.
    pub fn read_response_stream<R: Response>(
        expected_command_id: u8,
        notify_uuid: u128,
        events: &Vec<StreamEvent>,
    ) -> (r: Result<R, DeviceError>)
        ensures
            r == correlated::<R>(expected_command_id, notify_uuid, events@),
    {
        let mut i: usize = 0;
        assert(events@.subrange(0, events@.len() as int) =~= events@);
        while i < events.len()
            invariant
                i <= events@.len(),
                correlated::<R>(expected_command_id, notify_uuid, events@) == correlated::<R>(
                    expected_command_id,
                    notify_uuid,
                    events@.subrange(i as int, events@.len() as int),
                ),
            decreases events@.len() - i,
        {
            let ghost rest = events@.subrange(i as int, events@.len() as int);
            assert(rest[0] == events@[i as int]);
            assert(rest.drop_first() =~= events@.subrange(i + 1, events@.len() as int));
            match Self::on_stream_event::<R>(expected_command_id, notify_uuid, &events[i]) {
                Some(outcome) => {
                    return outcome;
                },
                None => {},
            }
            i = i + 1;
        }
        Err(DeviceError::StreamEnded)
    }

    /// Decodes what a direct read of the notify characteristic returned, or
    /// reports that the read failed.
    pub fn read_response<R: Response>(reading: Option<Vec<u8>>) -> (r: Result<R, DeviceError>)
        ensures
            match reading {
                None => r == Err::<R, DeviceError>(DeviceError::Connection(ConnectionError::ReadFailed)),
                Some(bytes) => match frame_check(bytes@) {
                    Ok(_) => r == Ok::<R, DeviceError>(R::spec_from_frame(bytes@)),
                    Err(e) => r == Err::<R, DeviceError>(DeviceError::Protocol(e)),
                },
            },
    {
        match reading {
            None => Err(DeviceError::Connection(ConnectionError::ReadFailed)),
            Some(bytes) => match R::from_bytes(bytes) {
                Ok(response) => Ok(response),
                Err(e) => Err(DeviceError::Protocol(e)),
            },
        }
    }
}

/// Notifications that do not answer the request are discarded: a read over a
/// stream that opens with `k` of them ends as a read over the rest would.
pub proof fn lemma_discarded_prefix<R: Response>(
    expected_command_id: u8,
    notify_uuid: u128,
    events: Seq<StreamEvent>,
    k: int,
)
    requires
        0 <= k <= events.len(),
        forall|i: int|
            0 <= i < k ==> #[trigger] event_outcome::<R>(expected_command_id, notify_uuid, events[i])
                is None,
    ensures
        correlated::<R>(expected_command_id, notify_uuid, events) == correlated::<R>(
            expected_command_id,
            notify_uuid,
            events.subrange(k, events.len() as int),
        ),
    decreases k,
{
    if k == 0 {
        assert(events.subrange(0, events.len() as int) =~= events);
    } else {
        let rest = events.drop_first();
        assert(event_outcome::<R>(expected_command_id, notify_uuid, events[0]) is None);
        assert forall|i: int|
            0 <= i < k - 1 implies #[trigger] event_outcome::<R>(
            expected_command_id,
            notify_uuid,
            rest[i],
        ) is None by {
            assert(rest[i] == events[i + 1]);
        }
        lemma_discarded_prefix::<R>(expected_command_id, notify_uuid, rest, k - 1);
        assert(rest.subrange(k - 1, rest.len() as int) =~= events.subrange(k, events.len() as int));
    }
}

/// The response is the first notification that answers the request; every
/// notification before it is discarded.
pub proof fn lemma_first_answer_returned<R: Response>(
    expected_command_id: u8,
    notify_uuid: u128,
    events: Seq<StreamEvent>,
    k: int,
)
    requires
        0 <= k < events.len(),
        events[k] matches StreamEvent::Notification { source, value } && answers(
            expected_command_id,
            notify_uuid,
            source,
            value@,
        ),
        forall|i: int|
            0 <= i < k ==> #[trigger] event_outcome::<R>(expected_command_id, notify_uuid, events[i])
                is None,
    ensures
        correlated::<R>(expected_command_id, notify_uuid, events) == Ok::<R, DeviceError>(
            R::spec_from_frame(events[k]->value@),
        ),
{
    lemma_discarded_prefix::<R>(expected_command_id, notify_uuid, events, k);
    assert(events.subrange(k, events.len() as int)[0] == events[k]);
}

/// When the budget runs out before any notification answers the request,
/// the read fails with `Timeout`.
pub proof fn lemma_no_answer_times_out<R: Response>(
    expected_command_id: u8,
    notify_uuid: u128,
    events: Seq<StreamEvent>,
    k: int,
)
    requires
        0 <= k < events.len(),
        events[k] is TimedOut,
        forall|i: int|
            0 <= i < k ==> #[trigger] event_outcome::<R>(expected_command_id, notify_uuid, events[i])
                is None,
    ensures
        correlated::<R>(expected_command_id, notify_uuid, events) == Err::<R, DeviceError>(
            DeviceError::Timeout,
        ),
{
    lemma_discarded_prefix::<R>(expected_command_id, notify_uuid, events, k);
    assert(events.subrange(k, events.len() as int)[0] == events[k]);
}

} // verus!
