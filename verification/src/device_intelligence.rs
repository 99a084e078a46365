//! Data structures for device intelligence.

use vstd::prelude::*;

verus! {

/// An applicant platform event with captured device information.
#[derive(Debug)]
pub struct PlatformEvent<'a> {
    pub event_type: &'a str,
    pub event_timestamp: &'a str,
    pub correlation_id: &'a str,
    pub device: DeviceFingerprint<'a>,
}

/// A captured device fingerprint.
#[derive(Debug)]
pub struct DeviceFingerprint<'a> {
    pub fingerprint: &'a str,
}

} // verus!
