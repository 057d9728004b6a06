use razer_rs::args::Args;
use razer_rs::Dpi;
use razer_rs::DeviceType;

fn args_with_device(device: Option<String>) -> Args {
    Args::new(device, false, None, None, None, None, false, false)
}

#[test]
fn device_match_without_a_filter_accepts_everything() {
    let args = args_with_device(None);
    assert!(args.device_match(&"Razer Viper Ultimate (Wired)".to_owned()));
    assert!(args.device_match(&"".to_owned()));
}

#[test]
fn device_match_with_a_filter_compares_names() {
    let args = args_with_device(Some("Razer Viper Ultimate (Wired)".to_owned()));
    assert!(args.device_match(&"Razer Viper Ultimate (Wired)".to_owned()));
    assert!(!args.device_match(&"Razer DeathAdder V3 Pro (Wired)".to_owned()));
}

#[test]
fn args_carry_each_request() {
    let args = Args::new(None, true, Some(25), Some(600), Some(800), Some(1000), true, true);
    assert!(args.battery());
    assert_eq!(args.low_battery_threshold(), Some(25));
    assert_eq!(args.idle_delay(), Some(600));
    assert_eq!(args.dpi(), Some(800));
    assert_eq!(args.poll(), Some(1000));
    assert!(args.list());
    assert!(args.syspath());
}

#[test]
fn device_type_labels_are_lower_case_words() {
    assert_eq!(DeviceType::Unknown.label(), "unknown");
    assert_eq!(DeviceType::Mouse.label(), "mouse");
    assert_eq!(DeviceType::Keyboard.label(), "keyboard");
    assert_eq!(DeviceType::Headphones.label(), "headphones");
    assert_eq!(DeviceType::Mousepad.label(), "mousepad");
}

#[test]
fn dpi_text_form_shows_scalar_or_pair() {
    assert_eq!(Dpi::Single(800).to_text(), b"800".to_vec());
    assert_eq!(Dpi::XY(100, 200).to_text(), b"(100, 200)".to_vec());
}
