//! The static capability table: which settings each known device model
//! supports, keyed by the 16-bit model identifier from the bus address.
//! Absence from the table is normal; such devices get inferred
//! capabilities instead.

use vstd::prelude::*;

use crate::CapsSpec;
use crate::DeviceCapabilities;
use crate::DeviceType;

verus! {

/// The content of the capability table: the descriptor configured for a
/// model id, or nothing for unlisted models.
pub open spec fn table_spec(device_id: u16) -> Option<CapsSpec> {
    if device_id == 0x007A {
        Some(CapsSpec {
            name: "Razer Viper Ultimate (Wired)"@,
            device_type: DeviceType::Mouse,
            dpi: true,
            dpi_use_xy: true,
            max_dpi: Some(20000),
            dpi_stages: true,
            poll_rate: true,
            battery: true,
        })
    } else if device_id == 0x007B {
        Some(CapsSpec {
            name: "Razer Viper Ultimate (Wireless)"@,
            device_type: DeviceType::Mouse,
            dpi: true,
            dpi_use_xy: true,
            max_dpi: Some(20000),
            dpi_stages: true,
            poll_rate: true,
            battery: true,
        })
    } else if device_id == 0x00B6 {
        Some(CapsSpec {
            name: "Razer DeathAdder V3 Pro (Wired)"@,
            device_type: DeviceType::Mouse,
            dpi: true,
            dpi_use_xy: true,
            max_dpi: Some(35000),
            dpi_stages: true,
            poll_rate: true,
            battery: true,
        })
    } else if device_id == 0x00B7 {
        Some(CapsSpec {
            name: "Razer DeathAdder V3 Pro (Wireless)"@,
            device_type: DeviceType::Mouse,
            dpi: true,
            dpi_use_xy: true,
            max_dpi: Some(35000),
            dpi_stages: true,
            poll_rate: true,
            battery: true,
        })
    } else {
        None
    }
}

/// Looks a model id up in the capability table. Returns a fresh descriptor
/// holding exactly the configured constants, or nothing for an unlisted
/// model.
pub fn get_device_capabilities(device_id: u16) -> (r: Option<DeviceCapabilities>)
    ensures
        r.is_some() <==> table_spec(device_id).is_some(),
        r.is_some() ==> r.unwrap()@ == table_spec(device_id).unwrap(),
{
    match device_id {
        0x007A => Some(DeviceCapabilities {
            name: "Razer Viper Ultimate (Wired)".to_owned(),
            device_type: DeviceType::Mouse,
            dpi: true,
            dpi_use_xy: true,
            max_dpi: Some(20000),
            dpi_stages: true,
            poll_rate: true,
            battery: true,
        }),
        0x007B => Some(DeviceCapabilities {
            name: "Razer Viper Ultimate (Wireless)".to_owned(),
            device_type: DeviceType::Mouse,
            dpi: true,
            dpi_use_xy: true,
            max_dpi: Some(20000),
            dpi_stages: true,
            poll_rate: true,
            battery: true,
        }),
        0x00B6 => Some(DeviceCapabilities {
            name: "Razer DeathAdder V3 Pro (Wired)".to_owned(),
            device_type: DeviceType::Mouse,
            dpi: true,
            dpi_use_xy: true,
            max_dpi: Some(35000),
            dpi_stages: true,
            poll_rate: true,
            battery: true,
        }),
        0x00B7 => Some(DeviceCapabilities {
            name: "Razer DeathAdder V3 Pro (Wireless)".to_owned(),
            device_type: DeviceType::Mouse,
            dpi: true,
            dpi_use_xy: true,
            max_dpi: Some(35000),
            dpi_stages: true,
            poll_rate: true,
            battery: true,
        }),
        _ => None,
    }
}

/// Every entry of the capability table carries exactly the display name
/// configured for its model id, so a lookup hands that literal back.
pub proof fn lemma_table_names()
    ensures
        table_spec(0x007A).unwrap().name == "Razer Viper Ultimate (Wired)"@,
        table_spec(0x007B).unwrap().name == "Razer Viper Ultimate (Wireless)"@,
        table_spec(0x00B6).unwrap().name == "Razer DeathAdder V3 Pro (Wired)"@,
        table_spec(0x00B7).unwrap().name == "Razer DeathAdder V3 Pro (Wireless)"@,
        forall|id: u16| #[trigger] table_spec(id).is_some() <==> (id == 0x007A || id == 0x007B
            || id == 0x00B6 || id == 0x00B7),
{
}

} // verus!
