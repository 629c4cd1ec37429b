//! Alert records raised by the match engine.

use std::time::SystemTime;
use vstd::prelude::*;

verus! {

/// `std::time::SystemTime`, a reading of the wall clock, carried as an opaque
/// value.
#[verifier::external_type_specification]
#[verifier::external_body]
pub struct ExSystemTime(SystemTime);

/// `std::time::SystemTime::now` reads the wall clock. The instant depends on
/// the machine, so nothing is stated about it.
pub assume_specification[ SystemTime::now ]() -> SystemTime;

/// The transport an alert is delivered through.
///
/// Only `Stdout` is produced by this crate; the other two name extension
/// points.
#[derive(Debug, Clone, Copy, PartialEq, Eq, Structural)]
pub enum AlertType {
    Stdout,
    Email,
    Sound,
}

/// An immutable record of one raised alert.
#[derive(Debug)]
pub struct Alert {
    timestamp: SystemTime,
    frameno: usize,
    reference_name: String,
    atype: AlertType,
}

/// The mathematical content of an [`Alert`].
pub struct AlertView {
    pub timestamp: SystemTime,
    pub frameno: nat,
    pub reference_name: Seq<char>,
    pub atype: AlertType,
}

impl View for Alert {
    type V = AlertView;

    closed spec fn view(&self) -> AlertView {
        AlertView {
            timestamp: self.timestamp,
            frameno: self.frameno as nat,
            reference_name: self.reference_name@,
            atype: self.atype,
        }
    }
}

impl Alert {
    /// Creates an alert for frame `frameno` and identity `reference_name`,
    /// stamped with the current time and routed to standard output.
    pub fn new(frameno: usize, reference_name: String) -> (alert: Self)
        ensures
            alert@.frameno == frameno,
            alert@.reference_name == reference_name@,
            alert@.atype == AlertType::Stdout,
    {
        Self::stamped(SystemTime::now(), frameno, reference_name)
    }

    /// Creates an alert for frame `frameno` and identity `reference_name`
    /// that was raised at `timestamp`, routed to standard output.
    pub fn stamped(timestamp: SystemTime, frameno: usize, reference_name: String) -> (alert: Self)
        ensures
            alert@ == (AlertView {
                timestamp,
                frameno: frameno as nat,
                reference_name: reference_name@,
                atype: AlertType::Stdout,
            }),
    {
        Alert { timestamp, frameno, reference_name, atype: AlertType::Stdout }
    }

    /// The instant at which the alert was created.
    pub fn timestamp(&self) -> (t: SystemTime)
        ensures
            t == self@.timestamp,
    {
        self.timestamp
    }

    /// The sequence number of the frame that raised the alert.
    pub fn frameno(&self) -> (n: usize)
        ensures
            n == self@.frameno,
    {
        self.frameno
    }

    /// The identity the alert is about.
    pub fn reference_name(&self) -> (name: &String)
        ensures
            name@ == self@.reference_name,
    {
        &self.reference_name
    }

    /// The transport the alert is meant for.
    pub fn alert_type(&self) -> (t: AlertType)
        ensures
            t == self@.atype,
    {
        self.atype
    }
}

} // verus!
