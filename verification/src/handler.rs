//! The two ways in which a device meets the server: it opens its live
//! stream, and it starts a run.
//!
//! Opening the stream is a device's first contact: its bus is made then, if
//! it was not there. A run publishes on the bus that the stream made, so a
//! run for a device that has no bus cannot be started: the run and the stream
//! must agree on the device.

use vstd::prelude::*;
use crate::bus::{Bus, Subscription};
use crate::outside::is_identifier;
use crate::pipeline::{first_step, step_view, Ending, Run, Step};
use crate::registry::{numbered, with_device, Registry};

verus! {

/// Why a run could not be started.
#[derive(Clone, Copy, Debug, PartialEq, Eq, Structural)]
pub enum StartError {
    /// The device has no bus: it never opened its live stream.
    UnknownDevice,
}

impl StartError {
    /// The description of the failure.
    pub fn message(&self) -> (text: &'static str)
        ensures
            text@ == "device_id not found for chat sender"@,
    {
        "device_id not found for chat sender"
    }
}

/// A run that is ready to go: the bus to publish on, the run, and its first
/// step.
pub struct Started {
    pub bus: Bus,
    pub run: Run,
    pub step: Step,
}

/// Opens the live stream of `device_id`: the device's bus, made now if this
/// is the device's first contact, and a subscription to that bus.
pub fn open_stream(registry: &mut Registry, device_id: &str) -> (opened: (Bus, Subscription))
    ensures
        numbered(final(registry)@),
        final(registry)@ == with_device(old(registry)@, device_id@),
        opened.0.serial() == final(registry)@[device_id@],
        opened.1.serial() == final(registry)@[device_id@],
{
    let bus = registry.get_or_create(device_id);
    let subscription = bus.subscribe();
    (bus, subscription)
}

/// Starts a run for `device_id` under the turn `turn_id`, on the device's
/// bus. The run starts exactly when the device has a bus.
pub fn start_run_with(registry: &Registry, device_id: &str, turn_id: &str) -> (started: Result<
    Started,
    StartError,
>)
    ensures
        match started {
            Ok(s) => {
                &&& registry@.contains_key(device_id@)
                &&& s.bus.serial() == registry@[device_id@]
                &&& step_view((s.run, s.step)) == first_step(device_id@, turn_id@)
            },
            Err(e) => e == StartError::UnknownDevice && !registry@.contains_key(device_id@),
        },
{
    match registry.lookup(device_id) {
        Some(bus) => {
            let (run, step) = Run::begin_with(device_id, turn_id);
            Ok(Started { bus, run, step })
        },
        None => Err(StartError::UnknownDevice),
    }
}

/// Starts a run for `device_id` under a turn identifier minted for it, on the
/// device's bus. The run starts exactly when the device has a bus.
pub fn start_run(registry: &Registry, device_id: &str) -> (started: Result<Started, StartError>)
    ensures
        match started {
            Ok(s) => {
                &&& registry@.contains_key(device_id@)
                &&& s.bus.serial() == registry@[device_id@]
                &&& is_identifier(s.run@.turn)
                &&& step_view((s.run, s.step)) == first_step(device_id@, s.run@.turn)
            },
            Err(e) => e == StartError::UnknownDevice && !registry@.contains_key(device_id@),
        },
{
    match registry.lookup(device_id) {
        Some(bus) => {
            let (run, step) = Run::begin(device_id);
            Ok(Started { bus, run, step })
        },
        None => Err(StartError::UnknownDevice),
    }
}

/// What the answer to the upload says of a run that ended with `ending`.
pub open spec fn status_text(ending: Ending) -> Seq<char> {
    match ending {
        Ending::Completed => "done"@,
        _ => "error"@,
    }
}

/// What the answer to the upload says of a run that ended with `ending`:
/// `done` for a run that completed, `error` for any other.
pub fn status_of(ending: Ending) -> (status: &'static str)
    ensures
        status@ == status_text(ending),
{
    match ending {
        Ending::Completed => "done",
        _ => "error",
    }
}

/// The status code of the answer to the upload: 400 for a request that was
/// rejected, which is the client's fault, and 200 for any other, whose result
/// the run has published.
pub open spec fn status_code(ending: Ending) -> u16 {
    match ending {
        Ending::Rejected => 400,
        _ => 200,
    }
}

/// The status code of the answer to the upload of a run that ended with
/// `ending`.
pub fn status_code_of(ending: Ending) -> (code: u16)
    ensures
        code == status_code(ending),
{
    match ending {
        Ending::Rejected => 400,
        _ => 200,
    }
}

} // verus!
