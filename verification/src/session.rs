//! What a client shows of the one probe that it follows.

use vstd::prelude::*;
use crate::events::DeviceEvent;
use crate::temperature::Temperature;
use crate::types::{Mode, SerialNumber};

verus! {

/// The latest that is known of the probe.
#[derive(Debug, Clone, Copy, PartialEq, Eq)]
pub struct CurrentState {
    pub core_temperature: Temperature,
    pub surface_temperature: Temperature,
    pub ambient_temperature: Temperature,
    pub serial_number: SerialNumber,
    pub log_start: u32,
    pub log_end: u32,
    pub mode: Mode,
}

/// Whether there is a probe to show, and what is known of it.
#[derive(Debug, Clone, Copy, PartialEq, Eq)]
pub enum ConnectionState {
    Disconnected,
    Connecting,
    Connected(CurrentState),
}

/// What `event` makes known of a probe, if it is one to show: the status of
/// the first probe, while it is in normal mode. Instant readings and the
/// statuses of further probes are passed over.
pub open spec fn shown(event: DeviceEvent) -> Option<CurrentState> {
    match event {
        DeviceEvent::StatusUpdated(serial, status) => if status.mode == Mode::Normal
            && status.probe_id == 0 && status.wf() {
            Some(
                CurrentState {
                    core_temperature: status.temperatures[status.virtual_core_sensor as int],
                    surface_temperature: status.temperatures[status.virtual_surface_sensor + 3],
                    ambient_temperature: status.temperatures[status.virtual_ambient_sensor + 4],
                    serial_number: serial,
                    log_start: status.log_start,
                    log_end: status.log_end,
                    mode: status.mode,
                },
            )
        } else {
            None
        },
        DeviceEvent::LogAppended(_, _, _) => None,
    }
}

impl ConnectionState {
    /// The state after `event`: connected with what the event makes known,
    /// where it makes something known, and unchanged otherwise.
    pub fn after(self, event: &DeviceEvent) -> (next: ConnectionState)
        ensures
            next == match shown(*event) {
                Some(current) => ConnectionState::Connected(current),
                None => self,
            },
    {
        match event {
            DeviceEvent::StatusUpdated(serial, status) => {
                let normal: bool = match status.mode {
                    Mode::Normal => true,
                    _ => false,
                };
                if normal && status.probe_id == 0 && status.is_well_formed() {
                    ConnectionState::Connected(
                        CurrentState {
                            core_temperature: *status.get_core_temperature(),
                            surface_temperature: *status.get_surface_temperature(),
                            ambient_temperature: *status.get_ambient_temperature(),
                            serial_number: *serial,
                            log_start: status.log_start,
                            log_end: status.log_end,
                            mode: status.mode,
                        },
                    )
                } else {
                    self
                }
            },
            DeviceEvent::LogAppended(_, _, _) => self,
        }
    }

    /// Whether a log record of the probe `serial` belongs to the history
    /// that is shown: only while connected, and only for the probe that is
    /// followed.
    pub fn keeps_record_of(&self, serial: SerialNumber) -> (keeps: bool)
        ensures
            keeps == (*self matches ConnectionState::Connected(current) && current.serial_number
                == serial),
    {
        match self {
            ConnectionState::Connected(current) => current.serial_number.number == serial.number,
            _ => false,
        }
    }
}

} // verus!
