//! Capability-gated control surface for Razer peripherals.
//!
//! The library translates between typed settings (DPI, poll rate, battery
//! thresholds, DPI stage tables) and their on-disk wire encodings, gated by a
//! per-model capability descriptor. Device enumeration and the actual
//! attribute-file I/O are left to the surrounding application; every function
//! here works on plain values and is verified.

use vstd::prelude::*;

pub mod args;
pub mod codec;
pub mod device;
pub mod devices;

verus! {

/// The broad class of a device, as declared by the capability table.
#[derive(Copy, Clone, Debug, Default, PartialEq, Eq, Structural)]
pub enum DeviceType {
    #[default]
    Unknown,
    Mouse,
    Keyboard,
    Headphones,
    Mousepad,
}

impl DeviceType {
    /// A short lower-case label for the class, for display.
    pub fn label(&self) -> (r: &'static str)
        ensures
            r@ == match self {
                DeviceType::Unknown => "unknown"@,
                DeviceType::Mouse => "mouse"@,
                DeviceType::Keyboard => "keyboard"@,
                DeviceType::Headphones => "headphones"@,
                DeviceType::Mousepad => "mousepad"@,
            },
    {
        match self {
            DeviceType::Unknown => "unknown",
            DeviceType::Mouse => "mouse",
            DeviceType::Keyboard => "keyboard",
            DeviceType::Headphones => "headphones",
            DeviceType::Mousepad => "mousepad",
        }
    }
}

/// What a device model supports and how each setting is encoded: the single
/// source of truth for which accessors may touch the device.
pub struct DeviceCapabilities {
    /// Human-readable model name, checked against the driver-reported name.
    pub name: String,
    pub device_type: DeviceType,
    /// Whether the DPI setting is available at all.
    pub dpi: bool,
    /// Whether DPI is an independent X/Y pair rather than one scalar.
    pub dpi_use_xy: bool,
    /// Upper DPI bound, absent when unknown.
    pub max_dpi: Option<u16>,
    pub dpi_stages: bool,
    pub poll_rate: bool,
    pub battery: bool,
}

/// The mathematical content of a capability descriptor.
#[verifier::ext_equal]
pub ghost struct CapsSpec {
    pub name: Seq<char>,
    pub device_type: DeviceType,
    pub dpi: bool,
    pub dpi_use_xy: bool,
    pub max_dpi: Option<u16>,
    pub dpi_stages: bool,
    pub poll_rate: bool,
    pub battery: bool,
}

impl View for DeviceCapabilities {
    type V = CapsSpec;

    open spec fn view(&self) -> CapsSpec {
        CapsSpec {
            name: self.name@,
            device_type: self.device_type,
            dpi: self.dpi,
            dpi_use_xy: self.dpi_use_xy,
            max_dpi: self.max_dpi,
            dpi_stages: self.dpi_stages,
            poll_rate: self.poll_rate,
            battery: self.battery,
        }
    }
}

/// A DPI value: one scalar, or an independent X/Y pair when the model
/// declares `dpi_use_xy`.
#[derive(Copy, Clone, Debug, PartialEq, Eq, Structural)]
pub enum Dpi {
    Single(u16),
    XY(u16, u16),
}

impl Dpi {
    /// The display text of a DPI value, as ASCII bytes: the plain decimal
    /// for a scalar, `(x, y)` for a pair.
    pub fn to_text(&self) -> (r: Vec<u8>)
        ensures
            r@ == match self {
                Dpi::Single(x) => codec::dec_digits(*x as int),
                Dpi::XY(x, y) => seq![40u8] + codec::dec_digits(*x as int) + seq![44u8, 32u8]
                    + codec::dec_digits(*y as int) + seq![41u8],
            },
    {
        match self {
            Dpi::Single(x) => codec::format_u16_dec(*x),
            Dpi::XY(x, y) => {
                let mut r: Vec<u8> = Vec::new();
                r.push(40);
                let mut dx = codec::format_u16_dec(*x);
                r.append(&mut dx);
                r.push(44);
                r.push(32);
                let mut dy = codec::format_u16_dec(*y);
                r.append(&mut dy);
                r.push(41);
                proof {
                    assert(r@ =~= seq![40u8] + codec::dec_digits(*x as int) + seq![44u8, 32u8]
                        + codec::dec_digits(*y as int) + seq![41u8]);
                }
                r
            },
        }
    }
}

/// A lighting region a device may expose.
#[derive(Copy, Clone, Debug, PartialEq, Eq, Structural)]
pub enum Region {
    Blank,
    Scroll,
    Logo,
    Left,
    Right,
    Backlight,
}

/// A lighting effect a device may expose.
#[derive(Copy, Clone, Debug, PartialEq, Eq, Structural)]
pub enum Effect {
    Off,
    Custom,
    Static,
    Wave,
    Spectrum,
    Reactive,
    Breath,
}

} // verus!
