//! Forwarders that announce one event each to the observer, with the
//! payload that belongs to it.

use vstd::prelude::*;
use crate::events::{
    CapturedHeadsetDataEvent, EventData, HeadsetCalibratedEvent, HeadsetCalibratingEvent,
    HeadsetConnectedEvent, HeadsetDisconnectedEvent, InitializedCoreEvent,
};
use crate::ports::EventSink;

verus! {

/// Hands `data` under `name` to the observer, if there is one; what the
/// observer answers is dropped. True when there was an observer.
fn forward<T, S: EventSink<T>>(
    event_handler: &Option<S>,
    name: &str,
    data: &EventData<T>,
) -> (handed: bool)
    ensures
        handed == event_handler.is_some(),
{
    match event_handler {
        Some(handler) => {
            let _ = handler.deliver(&String::from_str(name), data);
            true
        },
        None => false,
    }
}

/// Announces a captured window with its consensus label. True when there
/// was an observer to tell.
pub fn handle_captured_headset_data_event<T, S: EventSink<T>>(
    event_handler: &Option<S>,
    event: CapturedHeadsetDataEvent<T>,
) -> (handed: bool)
    ensures
        handed == event_handler.is_some(),
{
    let data = EventData::captured(event.headset_data, event.color_thinking);
    forward(event_handler, "captured-headset-data", &data)
}

/// Announces the end of calibration, with an empty payload. True when
/// there was an observer to tell.
pub fn handle_headset_calibrated_event<T, S: EventSink<T>>(
    event_handler: &Option<S>,
    event: HeadsetCalibratedEvent,
) -> (handed: bool)
    ensures
        handed == event_handler.is_some(),
{
    let data: EventData<T> = EventData::empty();
    forward(event_handler, HeadsetCalibratedEvent::NAME, &data)
}

/// Announces a calibration in progress, with the impedance sample. True
/// when there was an observer to tell.
pub fn handle_headset_calibrating_event<T, S: EventSink<T>>(
    event_handler: &Option<S>,
    event: HeadsetCalibratingEvent,
) -> (handed: bool)
    ensures
        handed == event_handler.is_some(),
{
    let data: EventData<T> = EventData::calibrating(event.impedance_data);
    forward(event_handler, HeadsetCalibratingEvent::NAME, &data)
}

/// Announces a connected headband, with an empty payload. True when there
/// was an observer to tell.
pub fn handle_headset_connected_event<T, S: EventSink<T>>(
    event_handler: &Option<S>,
    event: HeadsetConnectedEvent,
) -> (handed: bool)
    ensures
        handed == event_handler.is_some(),
{
    let data: EventData<T> = EventData::empty();
    forward(event_handler, HeadsetConnectedEvent::NAME, &data)
}

/// Announces a lost headband, with an empty payload. True when there was
/// an observer to tell.
pub fn handle_headset_disconnected_event<T, S: EventSink<T>>(
    event_handler: &Option<S>,
    event: HeadsetDisconnectedEvent,
) -> (handed: bool)
    ensures
        handed == event_handler.is_some(),
{
    let data: EventData<T> = EventData::empty();
    forward(event_handler, HeadsetDisconnectedEvent::NAME, &data)
}

/// Announces the started core, with an empty payload. True when there was
/// an observer to tell.
pub fn handle_initialized_core_event<T, S: EventSink<T>>(
    event_handler: &Option<S>,
    event: InitializedCoreEvent,
) -> (handed: bool)
    ensures
        handed == event_handler.is_some(),
{
    let data: EventData<T> = EventData::empty();
    forward(event_handler, InitializedCoreEvent::NAME, &data)
}

} // verus!
