//! The parsed command-line request: which device to touch and which
//! settings to read or change. Parsing the actual command line is the
//! application's job; this type only carries the outcome.

use vstd::prelude::*;

verus! {

/// One invocation's worth of requests against the connected devices.
pub struct Args {
    /// Restrict the run to the device with this driver-reported name.
    pub device: Option<String>,
    /// Print battery info.
    pub battery: bool,
    /// Set the low-battery blink threshold, as a percentage.
    pub low_battery_threshold: Option<u16>,
    /// Set the idle delay, in device-native units.
    pub idle_delay: Option<u16>,
    /// Change the DPI.
    pub dpi: Option<u16>,
    /// Change the polling rate.
    pub poll: Option<u16>,
    /// List all devices and their settings.
    pub list: bool,
    /// Print each device's syspath.
    pub syspath: bool,
}

impl Args {
    /// Bundles one invocation's requests.
    pub fn new(
        device: Option<String>,
        battery: bool,
        low_battery_threshold: Option<u16>,
        idle_delay: Option<u16>,
        dpi: Option<u16>,
        poll: Option<u16>,
        list: bool,
        syspath: bool,
    ) -> (r: Args)
        ensures
            r.device == device,
            r.battery == battery,
            r.low_battery_threshold == low_battery_threshold,
            r.idle_delay == idle_delay,
            r.dpi == dpi,
            r.poll == poll,
            r.list == list,
            r.syspath == syspath,
    {
        Args { device, battery, low_battery_threshold, idle_delay, dpi, poll, list, syspath }
    }

    /// The requested device-name filter, if one was given.
    pub open spec fn device_filter(&self) -> Option<Seq<char>> {
        match self.device {
            Some(ref d) => Some(d@),
            None => None,
        }
    }

    /// Whether a device falls under this invocation: either no device was
    /// named, or the named one matches the driver-reported name.
    pub fn device_match(&self, device_name: &String) -> (r: bool)
        ensures
            r == match self.device_filter() {
                Some(d) => d == device_name@,
                None => true,
            },
    {
        match &self.device {
            Some(d) => *d == *device_name,
            None => true,
        }
    }

    pub fn battery(&self) -> (r: bool)
        ensures
            r == self.battery,
    {
        self.battery
    }

    pub fn low_battery_threshold(&self) -> (r: Option<u16>)
        ensures
            r == self.low_battery_threshold,
    {
        self.low_battery_threshold
    }

    pub fn idle_delay(&self) -> (r: Option<u16>)
        ensures
            r == self.idle_delay,
    {
        self.idle_delay
    }

    pub fn dpi(&self) -> (r: Option<u16>)
        ensures
            r == self.dpi,
    {
        self.dpi
    }

    pub fn poll(&self) -> (r: Option<u16>)
        ensures
            r == self.poll,
    {
        self.poll
    }

    pub fn list(&self) -> (r: bool)
        ensures
            r == self.list,
    {
        self.list
    }

    pub fn syspath(&self) -> (r: bool)
        ensures
            r == self.syspath,
    {
        self.syspath
    }
}

} // verus!
