//! The per-device facade: typed accessors for every recognized setting.
//!
//! Each accessor follows the same three-step contract: consult the
//! capability descriptor first, then translate between the typed value and
//! the raw bytes of the named attribute file. The file reads and writes
//! themselves are the application's job: a getter takes the raw attribute
//! content (or nothing, when the file is absent) and a setter hands back
//! the bytes to write (or nothing, when the capability descriptor denies
//! the setting — a denied setter asks for zero writes).

use vstd::prelude::*;
use vstd::string::StringSliceAdditionalSpecFns;

use crate::DeviceCapabilities;
use crate::CapsSpec;
use crate::DeviceType;
use crate::Dpi;
use crate::codec::dec_digits;
use crate::codec::dec_val;
use crate::codec::decode_dpi_stages;
use crate::codec::encode_u16_be;
use crate::codec::find_byte;
use crate::codec::find_byte_in;
use crate::codec::format_u16_dec;
use crate::codec::hex_val;
use crate::codec::parse_u16_dec;
use crate::codec::parse_u16_hex;
use crate::codec::parses_hex_u16;
use crate::codec::parses_u16;
use crate::codec::percent_from_text;
use crate::codec::percent_to_str;
use crate::codec::raw_of_percent;
use crate::codec::split_xy;
use crate::codec::split_xy_spec;
use crate::codec::stage_pairs;
use crate::codec::str_to_percent;
use crate::devices::get_device_capabilities;
use crate::devices::table_spec;

verus! {

/// A well-formed unsigned decimal, as a 16-bit value; nothing otherwise.
pub open spec fn u16_from_text(s: Seq<u8>) -> Option<u16> {
    if parses_u16(s) {
        Some(dec_val(s) as u16)
    } else {
        None
    }
}

/// Whether a text attribute holds exactly the string `1`.
pub open spec fn text_is_one(s: Seq<u8>) -> bool {
    s.len() == 1 && s[0] == 49
}

/// The typed DPI value carried by the text form of the `dpi` attribute:
/// a colon-delimited pair when the model uses an X/Y pair, one plain
/// decimal otherwise.
pub open spec fn dpi_from_text(use_xy: bool, s: Seq<u8>) -> Option<Dpi> {
    if use_xy {
        match split_xy_spec(s) {
            Some(p) => Some(Dpi::XY(p.0, p.1)),
            None => None,
        }
    } else {
        match u16_from_text(s) {
            Some(v) => Some(Dpi::Single(v)),
            None => None,
        }
    }
}

/// Which attributes a device turned out to expose, gathered by reading
/// each candidate once. Probing never writes to the device.
pub struct AttributeProbe {
    /// The content of the `dpi` attribute, when it could be read.
    pub dpi: Option<Vec<u8>>,
    /// Whether the `dpi_stages` attribute could be read.
    pub dpi_stages: bool,
    /// Whether the `poll_rate` attribute could be read.
    pub poll_rate: bool,
    /// Whether the `charge_level` attribute could be read.
    pub charge_level: bool,
}

/// The mathematical content of a probe.
#[verifier::ext_equal]
pub ghost struct ProbeSpec {
    pub dpi: Option<Seq<u8>>,
    pub dpi_stages: bool,
    pub poll_rate: bool,
    pub charge_level: bool,
}

impl View for AttributeProbe {
    type V = ProbeSpec;

    open spec fn view(&self) -> ProbeSpec {
        ProbeSpec {
            dpi: match self.dpi {
                Some(ref v) => Some(v@),
                None => None,
            },
            dpi_stages: self.dpi_stages,
            poll_rate: self.poll_rate,
            charge_level: self.charge_level,
        }
    }
}

/// The capability descriptor inferred from a probe: a readable attribute
/// implies support, a colon in the `dpi` text implies an X/Y pair, the
/// maximum DPI stays unknown, and the class defaults to mouse.
pub open spec fn guess_spec(p: ProbeSpec) -> CapsSpec {
    CapsSpec {
        name: "UNKNOWN"@,
        device_type: DeviceType::Mouse,
        dpi: p.dpi.is_some(),
        dpi_use_xy: match p.dpi {
            Some(v) => find_byte(v, 58) >= 0,
            None => false,
        },
        max_dpi: None,
        dpi_stages: p.dpi_stages,
        poll_rate: p.poll_rate,
        battery: p.charge_level,
    }
}

/// Builds a best-effort capability descriptor for a model absent from the
/// table, from what a read-only probe of the device found.
pub fn guess_capabilities(probe: &AttributeProbe) -> (r: DeviceCapabilities)
    ensures
        r@ == guess_spec(probe@),
{
    let (dpi, dpi_use_xy) = match &probe.dpi {
        Some(v) => (true, find_byte_in(v.as_slice(), 58).is_some()),
        None => (false, false),
    };
    DeviceCapabilities {
        name: "UNKNOWN".to_owned(),
        device_type: DeviceType::Mouse,
        dpi,
        dpi_use_xy,
        max_dpi: None,
        dpi_stages: probe.dpi_stages,
        poll_rate: probe.poll_rate,
        battery: probe.charge_level,
    }
}

/// The vendor and device identifiers carried by a `hid` bus address of the
/// form `bus:vendor:device.instance`: the two hexadecimal fields between
/// the first and second colon and between the second colon and the first
/// following dot (or colon, or the end).
pub open spec fn vendor_device_spec(s: Seq<u8>) -> Option<(u16, u16)> {
    let p1 = find_byte(s, 58);
    if p1 < 0 {
        None
    } else {
        let rest1 = s.skip(p1 + 1);
        let p2 = find_byte(rest1, 58);
        if p2 < 0 {
            None
        } else {
            let vendor_part = rest1.take(p2);
            let rest2 = rest1.skip(p2 + 1);
            let p3 = find_byte(rest2, 58);
            let third = if p3 < 0 {
                rest2
            } else {
                rest2.take(p3)
            };
            let pd = find_byte(third, 46);
            let dev_part = if pd < 0 {
                third
            } else {
                third.take(pd)
            };
            if parses_hex_u16(vendor_part) && parses_hex_u16(dev_part) {
                Some((hex_val(vendor_part) as u16, hex_val(dev_part) as u16))
            } else {
                None
            }
        }
    }
}

/// Extracts the vendor and device identifiers from a device's bus address.
/// Fails when the address does not carry two well-formed hexadecimal
/// fields.
pub fn get_vendor_id_device_id(sysname: &str) -> (r: Option<(u16, u16)>)
    ensures
        r == vendor_device_spec(sysname.spec_bytes()),
{
    let s = sysname.as_bytes();
    let p1 = match find_byte_in(s, 58) {
        Some(p) => p,
        None => {
            return None;
        },
    };
    let len = s.len();
    let rest1 = &s[p1 + 1..len];
    proof {
        assert(rest1@ =~= s@.skip(p1 as int + 1));
    }
    let p2 = match find_byte_in(rest1, 58) {
        Some(p) => p,
        None => {
            return None;
        },
    };
    let vendor_part = &rest1[0..p2];
    let rest2 = &rest1[p2 + 1..rest1.len()];
    proof {
        assert(vendor_part@ =~= s@.skip(p1 as int + 1).take(p2 as int));
        assert(rest2@ =~= s@.skip(p1 as int + 1).skip(p2 as int + 1));
    }
    let third = match find_byte_in(rest2, 58) {
        Some(q) => &rest2[0..q],
        None => rest2,
    };
    proof {
        let q = find_byte(rest2@, 58);
        if q >= 0 {
            assert(third@ =~= rest2@.take(q));
        }
    }
    let dev_part = match find_byte_in(third, 46) {
        Some(q) => &third[0..q],
        None => third,
    };
    proof {
        let q = find_byte(third@, 46);
        if q >= 0 {
            assert(dev_part@ =~= third@.take(q));
        }
    }
    match (parse_u16_hex(vendor_part), parse_u16_hex(dev_part)) {
        (Some(v), Some(d)) => Some((v, d)),
        _ => None,
    }
}

/// The one hard error: a table entry's display name disagrees with the
/// driver-reported name for its model id. That means the static table
/// itself is wrong, which warrants a stop; every runtime variation is
/// instead folded into "absent".
#[derive(Copy, Clone, Debug, PartialEq, Eq, Structural)]
pub struct NameMismatch;

/// Decides the capability descriptor for a newly enumerated device: a
/// table entry when the model is known (after checking that its configured
/// name matches the driver-reported one), an inferred descriptor
/// otherwise.
pub fn resolve_capabilities(device_id: u16, name: &String, probe: &AttributeProbe) -> (r: Result<
    DeviceCapabilities,
    NameMismatch,
>)
    ensures
        match table_spec(device_id) {
            Some(entry) => {
                if entry.name == name@ {
                    r.is_ok() && r.unwrap()@ == entry
                } else {
                    r == Err::<DeviceCapabilities, NameMismatch>(NameMismatch)
                }
            },
            None => r.is_ok() && r.unwrap()@ == guess_spec(probe@),
        },
{
    match get_device_capabilities(device_id) {
        Some(c) => {
            if c.name == *name {
                Ok(c)
            } else {
                Err(NameMismatch)
            }
        },
        None => Ok(guess_capabilities(probe)),
    }
}

/// One enumerated device: its driver-reported name, its syspath, and the
/// capability descriptor settled once at construction.
pub struct RazerDevice {
    pub name: String,
    pub syspath: String,
    pub device_capabilities: Option<DeviceCapabilities>,
}

impl RazerDevice {
    /// Whether the descriptor, when there is one, denies the DPI setting.
    pub open spec fn dpi_denied(&self) -> bool {
        match self.device_capabilities {
            Some(c) => !c.dpi,
            None => false,
        }
    }

    /// Whether the descriptor declares DPI as an X/Y pair.
    pub open spec fn xy_mode(&self) -> bool {
        match self.device_capabilities {
            Some(c) => c.dpi_use_xy,
            None => false,
        }
    }

    /// Whether the descriptor, when there is one, denies the stage table.
    pub open spec fn stages_denied(&self) -> bool {
        match self.device_capabilities {
            Some(c) => !c.dpi_stages,
            None => false,
        }
    }

    /// Whether the descriptor, when there is one, denies the poll rate.
    pub open spec fn poll_denied(&self) -> bool {
        match self.device_capabilities {
            Some(c) => !c.poll_rate,
            None => false,
        }
    }

    /// Whether the descriptor, when there is one, denies battery settings.
    pub open spec fn battery_denied(&self) -> bool {
        match self.device_capabilities {
            Some(c) => !c.battery,
            None => false,
        }
    }

    /// Bundles an enumerated device with its settled descriptor.
    pub fn new(name: String, syspath: String, device_capabilities: Option<DeviceCapabilities>) -> (
    r: RazerDevice)
        ensures
            r.name == name,
            r.syspath == syspath,
            r.device_capabilities == device_capabilities,
    {
        RazerDevice { name, syspath, device_capabilities }
    }

    /// The driver-reported device name.
    pub fn get_name(&self) -> (r: &str)
        ensures
            r@ == self.name@,
    {
        self.name.as_str()
    }

    /// The device's sysfs path.
    pub fn get_syspath(&self) -> (r: &str)
        ensures
            r@ == self.syspath@,
    {
        self.syspath.as_str()
    }

    /// The device class from the descriptor, unknown without one.
    pub fn get_type(&self) -> (r: DeviceType)
        ensures
            r == match self.device_capabilities {
                Some(c) => c.device_type,
                None => DeviceType::Unknown,
            },
    {
        match &self.device_capabilities {
            Some(c) => c.device_type,
            None => DeviceType::Unknown,
        }
    }

    /// The typed DPI value carried by the text content of the `dpi`
    /// attribute, or nothing when the capability is denied, the attribute
    /// is absent, or its text is malformed.
    pub fn get_dpi(&self, raw: Option<&[u8]>) -> (r: Option<Dpi>)
        ensures
            r == (if self.dpi_denied() {
                None::<Dpi>
            } else {
                match raw {
                    Some(s) => dpi_from_text(self.xy_mode(), s@),
                    None => None,
                }
            }),
    {
        match &self.device_capabilities {
            Some(c) => {
                if !c.dpi {
                    return None;
                }
            },
            None => {},
        }
        let use_xy = match &self.device_capabilities {
            Some(c) => c.dpi_use_xy,
            None => false,
        };
        match raw {
            Some(s) => {
                if use_xy {
                    match split_xy(s) {
                        Some(p) => Some(Dpi::XY(p.0, p.1)),
                        None => None,
                    }
                } else {
                    match parse_u16_dec(s) {
                        Some(v) => Some(Dpi::Single(v)),
                        None => None,
                    }
                }
            },
            None => None,
        }
    }

    /// The bytes to write to the `dpi` attribute for a scalar DPI: the
    /// value big-endian, or no write at all when the capability is denied.
    pub fn set_dpi(&self, dpi: u16) -> (w: Option<Vec<u8>>)
        ensures
            self.dpi_denied() ==> w.is_none(),
            !self.dpi_denied() ==> w.is_some() && w.unwrap()@ == seq![
                (dpi / 256) as u8,
                (dpi % 256) as u8,
            ],
    {
        match &self.device_capabilities {
            Some(c) => {
                if !c.dpi {
                    return None;
                }
            },
            None => {},
        }
        Some(encode_u16_be(dpi))
    }

    /// The bytes to write to the `dpi` attribute for an X/Y pair: the two
    /// values big-endian, X then Y, with no separator; no write when the
    /// capability is denied.
    pub fn set_dpi_xy(&self, dpi_x: u16, dpi_y: u16) -> (w: Option<Vec<u8>>)
        ensures
            self.dpi_denied() ==> w.is_none(),
            !self.dpi_denied() ==> w.is_some() && w.unwrap()@ == seq![
                (dpi_x / 256) as u8,
                (dpi_x % 256) as u8,
                (dpi_y / 256) as u8,
                (dpi_y % 256) as u8,
            ],
    {
        match &self.device_capabilities {
            Some(c) => {
                if !c.dpi {
                    return None;
                }
            },
            None => {},
        }
        let mut bytes = encode_u16_be(dpi_x);
        let mut tail = encode_u16_be(dpi_y);
        bytes.append(&mut tail);
        proof {
            assert(bytes@ =~= seq![
                (dpi_x / 256) as u8,
                (dpi_x % 256) as u8,
                (dpi_y / 256) as u8,
                (dpi_y % 256) as u8,
            ]);
        }
        Some(bytes)
    }

    /// The configured maximum DPI; always from the table, never from the
    /// device.
    pub fn get_max_dpi(&self) -> (r: Option<u16>)
        ensures
            r == match self.device_capabilities {
                Some(c) => c.max_dpi,
                None => None::<u16>,
            },
    {
        match &self.device_capabilities {
            Some(c) => c.max_dpi,
            None => None,
        }
    }

    /// The decoded stage table from the raw content of the `dpi_stages`
    /// attribute: the active stage index and the ordered (x, y) pairs.
    /// Nothing when the capability is denied, the attribute is absent, or
    /// the blob is empty.
    pub fn get_dpi_stages(&self, raw: Option<&[u8]>) -> (r: Option<(u8, Vec<(u16, u16)>)>)
        ensures
            self.stages_denied() ==> r.is_none(),
            !self.stages_denied() && raw.is_none() ==> r.is_none(),
            !self.stages_denied() && raw.is_some() ==> {
                let s = raw.unwrap()@;
                &&& r.is_some() <==> s.len() > 0
                &&& r.is_some() ==> r.unwrap().0 == s[0] && r.unwrap().1@ == stage_pairs(s.skip(1))
            },
    {
        match &self.device_capabilities {
            Some(c) => {
                if !c.dpi_stages {
                    return None;
                }
            },
            None => {},
        }
        match raw {
            Some(s) => decode_dpi_stages(s),
            None => None,
        }
    }

    /// The poll rate carried by the decimal text of the `poll_rate`
    /// attribute, or nothing when denied, absent, or malformed.
    pub fn get_poll_rate(&self, raw: Option<&[u8]>) -> (r: Option<u16>)
        ensures
            r == (if self.poll_denied() {
                None::<u16>
            } else {
                match raw {
                    Some(s) => u16_from_text(s@),
                    None => None,
                }
            }),
    {
        match &self.device_capabilities {
            Some(c) => {
                if !c.poll_rate {
                    return None;
                }
            },
            None => {},
        }
        match raw {
            Some(s) => parse_u16_dec(s),
            None => None,
        }
    }

    /// The decimal text to write to the `poll_rate` attribute, or no write
    /// when the capability is denied.
    pub fn set_poll_rate(&self, poll_rate: u16) -> (w: Option<Vec<u8>>)
        ensures
            self.poll_denied() ==> w.is_none(),
            !self.poll_denied() ==> w.is_some() && w.unwrap()@ == dec_digits(poll_rate as int),
    {
        match &self.device_capabilities {
            Some(c) => {
                if !c.poll_rate {
                    return None;
                }
            },
            None => {},
        }
        Some(format_u16_dec(poll_rate))
    }

    /// The battery charge as a percentage, scaled from the raw 0..=255
    /// value in the decimal text of the `charge_level` attribute.
    pub fn get_charge_level(&self, raw: Option<&[u8]>) -> (r: Option<u16>)
        ensures
            r == (if self.battery_denied() {
                None::<u16>
            } else {
                match raw {
                    Some(s) => percent_from_text(s@),
                    None => None,
                }
            }),
    {
        match &self.device_capabilities {
            Some(c) => {
                if !c.battery {
                    return None;
                }
            },
            None => {},
        }
        match raw {
            Some(s) => str_to_percent(s),
            None => None,
        }
    }

    /// Whether the device reports that it is charging: the text of the
    /// `charge_status` attribute is exactly `1`.
    pub fn get_charge_status(&self, raw: Option<&[u8]>) -> (r: Option<bool>)
        ensures
            r == (if self.battery_denied() {
                None::<bool>
            } else {
                match raw {
                    Some(s) => Some(text_is_one(s@)),
                    None => None,
                }
            }),
    {
        match &self.device_capabilities {
            Some(c) => {
                if !c.battery {
                    return None;
                }
            },
            None => {},
        }
        match raw {
            Some(s) => Some(s.len() == 1 && s[0] == 49),
            None => None,
        }
    }

    /// The low-battery blink threshold as a percentage, scaled like the
    /// charge level from the `charge_low_threshold` attribute.
    pub fn get_low_battery_threshold(&self, raw: Option<&[u8]>) -> (r: Option<u16>)
        ensures
            r == (if self.battery_denied() {
                None::<u16>
            } else {
                match raw {
                    Some(s) => percent_from_text(s@),
                    None => None,
                }
            }),
    {
        match &self.device_capabilities {
            Some(c) => {
                if !c.battery {
                    return None;
                }
            },
            None => {},
        }
        match raw {
            Some(s) => str_to_percent(s),
            None => None,
        }
    }

    /// The decimal text to write to the `charge_low_threshold` attribute:
    /// the percentage scaled back to its raw 0..=255 byte; no write when
    /// the capability is denied.
    pub fn set_low_battery_threshold(&self, low_battery_threshold: u16) -> (w: Option<Vec<u8>>)
        requires
            low_battery_threshold <= 100,
        ensures
            self.battery_denied() ==> w.is_none(),
            !self.battery_denied() ==> w.is_some() && w.unwrap()@ == dec_digits(
                raw_of_percent(low_battery_threshold as int),
            ),
    {
        match &self.device_capabilities {
            Some(c) => {
                if !c.battery {
                    return None;
                }
            },
            None => {},
        }
        Some(percent_to_str(low_battery_threshold))
    }

    /// The idle timeout carried by the decimal text of the
    /// `device_idle_time` attribute, in device-native units.
    pub fn get_idle_time(&self, raw: Option<&[u8]>) -> (r: Option<u16>)
        ensures
            r == match raw {
                Some(s) => u16_from_text(s@),
                None => None::<u16>,
            },
    {
        match raw {
            Some(s) => parse_u16_dec(s),
            None => None,
        }
    }

    /// The decimal text to write to the `device_idle_time` attribute. No
    /// capability flag covers the idle timeout, so it is always written.
    pub fn set_idle_time(&self, idle_time: u16) -> (w: Option<Vec<u8>>)
        ensures
            w.is_some() && w.unwrap()@ == dec_digits(idle_time as int),
    {
        Some(format_u16_dec(idle_time))
    }
}

} // verus!
