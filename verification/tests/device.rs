use razer_rs::device::guess_capabilities;
use razer_rs::device::get_vendor_id_device_id;
use razer_rs::device::resolve_capabilities;
use razer_rs::device::AttributeProbe;
use razer_rs::device::NameMismatch;
use razer_rs::device::RazerDevice;
use razer_rs::DeviceCapabilities;
use razer_rs::DeviceType;
use razer_rs::Dpi;

fn mouse_caps() -> DeviceCapabilities {
    DeviceCapabilities {
        name: "Test Mouse".to_owned(),
        device_type: DeviceType::Mouse,
        dpi: true,
        dpi_use_xy: false,
        max_dpi: Some(20000),
        dpi_stages: true,
        poll_rate: true,
        battery: true,
    }
}

fn device_with(caps: DeviceCapabilities) -> RazerDevice {
    RazerDevice::new("Test Mouse".to_owned(), "/sys/test".to_owned(), Some(caps))
}

#[test]
fn get_dpi_reads_a_scalar() {
    let dev = device_with(mouse_caps());
    assert_eq!(dev.get_dpi(Some(b"800")), Some(Dpi::Single(800)));
    assert_eq!(dev.get_dpi(None), None);
    assert_eq!(dev.get_dpi(Some(b"junk")), None);
}

#[test]
fn get_dpi_reads_a_pair_in_xy_mode() {
    let mut caps = mouse_caps();
    caps.dpi_use_xy = true;
    let dev = device_with(caps);
    assert_eq!(dev.get_dpi(Some(b"800:1600")), Some(Dpi::XY(800, 1600)));
    assert_eq!(dev.get_dpi(Some(b"800")), None);
}

#[test]
fn get_dpi_is_denied_by_the_descriptor() {
    let mut caps = mouse_caps();
    caps.dpi = false;
    let dev = device_with(caps);
    assert_eq!(dev.get_dpi(Some(b"800")), None);
}

#[test]
fn get_dpi_without_a_descriptor_still_reads() {
    let dev = RazerDevice::new("X".to_owned(), "/sys/x".to_owned(), None);
    assert_eq!(dev.get_dpi(Some(b"400")), Some(Dpi::Single(400)));
}

#[test]
fn set_dpi_emits_big_endian_bytes() {
    let dev = device_with(mouse_caps());
    assert_eq!(dev.set_dpi(800), Some(vec![3, 32]));
}

#[test]
fn set_dpi_xy_concatenates_both_encodings() {
    let mut caps = mouse_caps();
    caps.dpi_use_xy = true;
    let dev = device_with(caps);
    assert_eq!(dev.set_dpi_xy(800, 1600), Some(vec![3, 32, 6, 64]));
}

#[test]
fn denied_setters_ask_for_zero_writes() {
    let mut caps = mouse_caps();
    caps.dpi = false;
    caps.poll_rate = false;
    caps.battery = false;
    let dev = device_with(caps);
    assert_eq!(dev.set_dpi(800), None);
    assert_eq!(dev.set_dpi_xy(800, 800), None);
    assert_eq!(dev.set_poll_rate(1000), None);
    assert_eq!(dev.set_low_battery_threshold(25), None);
}

#[test]
fn denied_getters_ignore_present_attributes() {
    let mut caps = mouse_caps();
    caps.dpi_stages = false;
    caps.poll_rate = false;
    caps.battery = false;
    let dev = device_with(caps);
    assert_eq!(dev.get_dpi_stages(Some(&[2, 0, 100, 0, 200])), None);
    assert_eq!(dev.get_poll_rate(Some(b"1000")), None);
    assert_eq!(dev.get_charge_level(Some(b"255")), None);
    assert_eq!(dev.get_charge_status(Some(b"1")), None);
    assert_eq!(dev.get_low_battery_threshold(Some(b"128")), None);
}

#[test]
fn get_dpi_stages_decodes_the_blob() {
    let dev = device_with(mouse_caps());
    let blob = [2u8, 0, 100, 0, 200, 0, 50, 0, 75, 9];
    assert_eq!(dev.get_dpi_stages(Some(&blob)), Some((2, vec![(100, 200), (50, 75)])));
    assert_eq!(dev.get_dpi_stages(None), None);
    assert_eq!(dev.get_dpi_stages(Some(&[])), None);
}

#[test]
fn poll_rate_round_trips_as_decimal_text() {
    let dev = device_with(mouse_caps());
    assert_eq!(dev.get_poll_rate(Some(b"1000")), Some(1000));
    assert_eq!(dev.get_poll_rate(Some(b"fast")), None);
    assert_eq!(dev.get_poll_rate(None), None);
    assert_eq!(dev.set_poll_rate(500), Some(b"500".to_vec()));
}

#[test]
fn charge_level_scales_to_percent() {
    let dev = device_with(mouse_caps());
    assert_eq!(dev.get_charge_level(Some(b"255")), Some(100));
    assert_eq!(dev.get_charge_level(Some(b"128")), Some(50));
    assert_eq!(dev.get_charge_level(Some(b"0")), Some(0));
    assert_eq!(dev.get_charge_level(Some(b"999")), None);
    assert_eq!(dev.get_charge_level(None), None);
}

#[test]
fn charge_status_is_true_only_for_the_string_one() {
    let dev = device_with(mouse_caps());
    assert_eq!(dev.get_charge_status(Some(b"1")), Some(true));
    assert_eq!(dev.get_charge_status(Some(b"0")), Some(false));
    assert_eq!(dev.get_charge_status(Some(b"2")), Some(false));
    assert_eq!(dev.get_charge_status(Some(b"11")), Some(false));
    assert_eq!(dev.get_charge_status(Some(b"")), Some(false));
    assert_eq!(dev.get_charge_status(None), None);
}

#[test]
fn low_battery_threshold_scales_both_ways() {
    let dev = device_with(mouse_caps());
    assert_eq!(dev.get_low_battery_threshold(Some(b"128")), Some(50));
    assert_eq!(dev.set_low_battery_threshold(50), Some(b"128".to_vec()));
}

#[test]
fn idle_time_is_plain_decimal_in_device_units() {
    let dev = device_with(mouse_caps());
    assert_eq!(dev.get_idle_time(Some(b"600")), Some(600));
    assert_eq!(dev.get_idle_time(Some(b"x")), None);
    assert_eq!(dev.get_idle_time(None), None);
    assert_eq!(dev.set_idle_time(900), Some(b"900".to_vec()));
}

#[test]
fn max_dpi_comes_from_the_descriptor_alone() {
    let dev = device_with(mouse_caps());
    assert_eq!(dev.get_max_dpi(), Some(20000));
    let bare = RazerDevice::new("X".to_owned(), "/sys/x".to_owned(), None);
    assert_eq!(bare.get_max_dpi(), None);
}

#[test]
fn name_syspath_and_type_are_reported() {
    let dev = device_with(mouse_caps());
    assert_eq!(dev.get_name(), "Test Mouse");
    assert_eq!(dev.get_syspath(), "/sys/test");
    assert_eq!(dev.get_type(), DeviceType::Mouse);
    let bare = RazerDevice::new("X".to_owned(), "/sys/x".to_owned(), None);
    assert_eq!(bare.get_type(), DeviceType::Unknown);
}

#[test]
fn inference_from_a_lone_xy_dpi_attribute() {
    let probe = AttributeProbe {
        dpi: Some(b"800:800".to_vec()),
        dpi_stages: false,
        poll_rate: false,
        charge_level: false,
    };
    let caps = guess_capabilities(&probe);
    assert!(caps.dpi);
    assert!(caps.dpi_use_xy);
    assert!(!caps.dpi_stages);
    assert!(!caps.poll_rate);
    assert!(!caps.battery);
    assert_eq!(caps.max_dpi, None);
    assert_eq!(caps.device_type, DeviceType::Mouse);
}

#[test]
fn inference_without_a_colon_means_scalar_dpi() {
    let probe = AttributeProbe {
        dpi: Some(b"800".to_vec()),
        dpi_stages: true,
        poll_rate: true,
        charge_level: true,
    };
    let caps = guess_capabilities(&probe);
    assert!(caps.dpi);
    assert!(!caps.dpi_use_xy);
    assert!(caps.dpi_stages);
    assert!(caps.poll_rate);
    assert!(caps.battery);
}

#[test]
fn inference_without_a_dpi_attribute() {
    let probe = AttributeProbe { dpi: None, dpi_stages: false, poll_rate: false, charge_level: true };
    let caps = guess_capabilities(&probe);
    assert!(!caps.dpi);
    assert!(!caps.dpi_use_xy);
    assert!(caps.battery);
}

#[test]
fn resolving_a_known_model_checks_the_name() {
    let probe = AttributeProbe { dpi: None, dpi_stages: false, poll_rate: false, charge_level: false };
    let name = "Razer Viper Ultimate (Wired)".to_owned();
    let caps = resolve_capabilities(0x007A, &name, &probe).unwrap();
    assert_eq!(caps.name, "Razer Viper Ultimate (Wired)");
    assert_eq!(caps.max_dpi, Some(20000));

    let wrong = "Some Other Device".to_owned();
    assert!(matches!(resolve_capabilities(0x007A, &wrong, &probe), Err(NameMismatch)));
}

#[test]
fn resolving_an_unknown_model_infers_capabilities() {
    let probe = AttributeProbe {
        dpi: Some(b"400".to_vec()),
        dpi_stages: false,
        poll_rate: true,
        charge_level: false,
    };
    let name = "Mystery Device".to_owned();
    let caps = resolve_capabilities(0xFFFF, &name, &probe).unwrap();
    assert_eq!(caps.name, "UNKNOWN");
    assert!(caps.dpi);
    assert!(!caps.dpi_use_xy);
    assert!(caps.poll_rate);
    assert!(!caps.battery);
    assert_eq!(caps.max_dpi, None);
}

#[test]
fn bus_address_parsing_extracts_vendor_and_device() {
    assert_eq!(get_vendor_id_device_id("0003:1532:00B7.0005"), Some((0x1532, 0x00B7)));
    assert_eq!(get_vendor_id_device_id("0003:046D:C52B.0001"), Some((0x046D, 0xC52B)));
    assert_eq!(get_vendor_id_device_id("garbage"), None);
    assert_eq!(get_vendor_id_device_id("0003:1532"), None);
    assert_eq!(get_vendor_id_device_id("0003:15G2:00B7.0005"), None);
    assert_eq!(get_vendor_id_device_id(""), None);
}
