use meetily::devices::friendly_names::{DeviceType, FriendlyNameGenerator};
use meetily::devices::patterns::{
    cleanup_name, extract_usb_info, format_profile, parse_alsa_plugin, parse_hw_card, parse_hw_simple,
    parse_monitor,
};
use meetily::devices::pulseaudio::{parse_pactl_list_output, query_device_descriptions, DeviceDescriptions};

fn no_cache() -> FriendlyNameGenerator {
    FriendlyNameGenerator { pulse_cache: None }
}

#[test]
fn test_generate_alsa_hardware() {
    let generator = no_cache();

    let result = generator.generate("hw:CARD=PCH,DEV=0", DeviceType::Input);
    assert_eq!(result, "Hardware: PCH (Device 0)");

    let result = generator.generate("hw:1", DeviceType::Input);
    assert_eq!(result, "Hardware Device 1");
}

#[test]
fn test_generate_alsa_plugin() {
    let generator = no_cache();

    let result = generator.generate("alsa_input.pci-0000_00_1f.3.analog-stereo", DeviceType::Input);
    assert_eq!(result, "Built-in Microphone (Analog Stereo)");

    let result = generator.generate("alsa_output.pci-0000_00_1f.3.analog-stereo", DeviceType::Output);
    assert_eq!(result, "Built-in Audio (Analog Stereo)");
}

#[test]
fn test_generate_usb_device() {
    let generator = no_cache();

    let result = generator.generate(
        "alsa_input.usb-Blue_Microphones_Yeti_Stereo_Microphone-00.analog-stereo",
        DeviceType::Input,
    );
    assert_eq!(result, "Blue Microphones Yeti Stereo Microphone (Analog Stereo)");
}

#[test]
fn test_generate_monitor_source() {
    let generator = no_cache();

    let result = generator.generate("alsa_output.pci-0000_00_1f.3.analog-stereo.monitor", DeviceType::Output);
    assert_eq!(result, "Built-in Audio Analog Stereo (System Audio)");
}

#[test]
fn test_generate_unknown_pattern() {
    let generator = no_cache();

    let result = generator.generate("some_unknown_device", DeviceType::Input);
    assert_eq!(result, "Some Unknown Device");
}

#[test]
fn test_generate_with_pulseaudio_cache() {
    let mut cache = DeviceDescriptions::new();
    cache.insert(
        "alsa_input.pci-0000_00_1f.3.analog-stereo".to_string(),
        "Built-in Audio Analog Stereo".to_string(),
    );

    let generator = FriendlyNameGenerator { pulse_cache: Some(cache) };

    // Should use PulseAudio description
    let result = generator.generate("alsa_input.pci-0000_00_1f.3.analog-stereo", DeviceType::Input);
    assert_eq!(result, "Built-in Audio Analog Stereo");

    // Should fall back to pattern parsing for uncached device
    let result = generator.generate("hw:CARD=PCH,DEV=0", DeviceType::Input);
    assert_eq!(result, "Hardware: PCH (Device 0)");
}

#[test]
fn test_generate_completeness() {
    let generator = no_cache();

    // Test that generator never returns empty string
    let test_cases = vec![
        "",
        "hw:CARD=test,DEV=0",
        "alsa_input.pci-test",
        "alsa_input.usb-test",
        "device.monitor",
        "random_device_name",
        "!!!invalid!!!",
    ];

    for test_case in test_cases {
        let result = generator.generate(test_case, DeviceType::Input);
        assert!(!result.is_empty(), "Generated empty string for: {}", test_case);
    }
}

#[test]
fn test_parse_hw_card() {
    assert_eq!(parse_hw_card("hw:CARD=PCH,DEV=0"), Some("Hardware: PCH (Device 0)".to_string()));
    assert_eq!(parse_hw_card("hw:CARD=softdadsp,DEV=3"), Some("Hardware: softdadsp (Device 3)".to_string()));
    assert_eq!(parse_hw_card("hw:0"), None);
    assert_eq!(parse_hw_card("invalid"), None);
}

#[test]
fn test_parse_hw_simple() {
    assert_eq!(parse_hw_simple("hw:0"), Some("Hardware Device 0".to_string()));
    assert_eq!(parse_hw_simple("hw:1"), Some("Hardware Device 1".to_string()));
    assert_eq!(parse_hw_simple("hw:CARD=PCH,DEV=0"), None);
}

#[test]
fn test_parse_alsa_plugin() {
    let result = parse_alsa_plugin("alsa_input.pci-0000_00_1f.3.analog-stereo");
    assert_eq!(
        result,
        Some(("Built-in".to_string(), "Microphone".to_string(), "Analog Stereo".to_string()))
    );

    let result = parse_alsa_plugin("alsa_output.pci-0000_00_1f.3.analog-stereo");
    assert_eq!(result, Some(("Built-in".to_string(), "Audio".to_string(), "Analog Stereo".to_string())));

    // USB devices should return None (handled by extract_usb_info)
    assert_eq!(parse_alsa_plugin("alsa_input.usb-Blue_Microphones_Yeti-00.analog-stereo"), None);
}

#[test]
fn test_parse_monitor() {
    let result = parse_monitor("alsa_output.pci-0000_00_1f.3.analog-stereo.monitor");
    assert_eq!(result, Some("Built-in Audio Analog Stereo (System Audio)".to_string()));

    let result = parse_monitor("some_device.monitor");
    assert_eq!(result, Some("Some Device (System Audio)".to_string()));

    assert_eq!(parse_monitor("not_a_monitor"), None);
}

#[test]
fn test_extract_usb_info() {
    let result = extract_usb_info("alsa_input.usb-Blue_Microphones_Yeti_Stereo_Microphone-00.analog-stereo");
    assert_eq!(
        result,
        Some((
            "Blue".to_string(),
            "Microphones Yeti Stereo Microphone".to_string(),
            "Analog Stereo".to_string()
        ))
    );

    let result = extract_usb_info("alsa_output.usb-Logitech_USB_Headset-00.analog-stereo");
    assert_eq!(result, Some(("Logitech".to_string(), "USB Headset".to_string(), "Analog Stereo".to_string())));

    assert_eq!(extract_usb_info("alsa_input.pci-0000_00_1f.3.analog-stereo"), None);
}

#[test]
fn test_cleanup_name() {
    assert_eq!(cleanup_name("alsa_input"), "Alsa Input");
    assert_eq!(cleanup_name("some_device_name"), "Some Device Name");
    assert_eq!(cleanup_name("pulse"), "Pulse");
    assert_eq!(cleanup_name("alsa_output.pci-0000"), "Alsa Output");
}

#[test]
fn test_format_profile() {
    assert_eq!(format_profile("analog-stereo"), "Analog Stereo");
    assert_eq!(format_profile("hdmi-stereo"), "HDMI Stereo");
    assert_eq!(format_profile("iec958-stereo"), "IEC958 Stereo");
    assert_eq!(format_profile("usb-audio"), "USB Audio");
}

#[test]
fn test_parse_pactl_list_output() {
    let sample_output = r#"
Source #0
    State: SUSPENDED
    Name: alsa_input.pci-0000_00_1f.3.analog-stereo
    Description: Built-in Audio Analog Stereo
    Driver: PipeWire
    Sample Specification: s32le 2ch 48000Hz

Source #1
    State: RUNNING
    Name: alsa_output.pci-0000_00_1f.3.analog-stereo.monitor
    Description: Monitor of Built-in Audio Analog Stereo
    Driver: PipeWire
    Sample Specification: s32le 2ch 48000Hz
"#;

    let result = parse_pactl_list_output(sample_output).unwrap();

    assert_eq!(result.len(), 2);
    assert_eq!(
        result.get("alsa_input.pci-0000_00_1f.3.analog-stereo"),
        Some(&"Built-in Audio Analog Stereo".to_string())
    );
    assert_eq!(
        result.get("alsa_output.pci-0000_00_1f.3.analog-stereo.monitor"),
        Some(&"Monitor of Built-in Audio Analog Stereo".to_string())
    );
}

#[test]
fn test_parse_pactl_list_output_empty() {
    let result = parse_pactl_list_output("").unwrap();
    assert_eq!(result.len(), 0);
}

#[test]
fn test_parse_pactl_list_output_malformed() {
    let malformed_output = r#"
Some random text
Name: device1
More random text
Description: Device 1 Description
Name: device2
"#;

    let result = parse_pactl_list_output(malformed_output).unwrap();

    // Should still parse what it can
    assert_eq!(result.len(), 1);
    assert_eq!(result.get("device1"), Some(&"Device 1 Description".to_string()));
}

#[test]
fn test_parse_pactl_list_output_no_description() {
    let output = r#"
Source #0
    Name: device_without_description
    Driver: PipeWire
"#;

    let result = parse_pactl_list_output(output).unwrap();
    assert_eq!(result.len(), 0);
}

// ----- further cases -----

#[test]
fn empty_names_become_unknown_devices() {
    let generator = no_cache();
    assert_eq!(generator.generate("   ", DeviceType::Input), "Unknown Input Device");
    assert_eq!(generator.generate("", DeviceType::Output), "Unknown Output Device");
}

#[test]
fn cleanup_leaving_nothing_gives_unknown_device() {
    let generator = no_cache();
    assert_eq!(generator.generate("...", DeviceType::Output), "Unknown Output Device");
}

#[test]
fn query_adds_monitor_for_every_sink() {
    let sinks = "Sink #0\n  Name: alsa_output.usb-Headset\n  Description: USB Headset\n";
    let sources = "Source #0\n  Name: alsa_input.usb-Headset\n  Description: Headset Mic\n";
    let table = query_device_descriptions(Some(sources), Some(sinks)).unwrap();
    assert_eq!(table.len(), 3);
    assert_eq!(table.get("alsa_output.usb-Headset.monitor"), Some(&"Monitor of USB Headset".to_string()));
    assert_eq!(table.get("alsa_input.usb-Headset"), Some(&"Headset Mic".to_string()));
    let nothing = query_device_descriptions(None, None).unwrap();
    assert!(nothing.is_empty());
}

#[test]
fn table_insert_then_get_reads_back() {
    let mut table = DeviceDescriptions::new();
    table.insert("a".to_string(), "first".to_string());
    table.insert("b".to_string(), "second".to_string());
    table.insert("a".to_string(), "third".to_string());
    assert_eq!(table.len(), 2);
    assert_eq!(table.get("a"), Some(&"third".to_string()));
    assert_eq!(table.get("b"), Some(&"second".to_string()));
    assert_eq!(table.get("c"), None);
    let (first_name, first_desc) = table.entry(0);
    assert_eq!((first_name.as_str(), first_desc.as_str()), ("a", "third"));
}

#[test]
fn card_match_uses_sink_description_for_monitor() {
    let mut cache = DeviceDescriptions::new();
    cache.insert("alsa_output.pci-0000_00_1f.3.analog-stereo".to_string(), "Speakers".to_string());
    let generator = FriendlyNameGenerator::new(Ok(cache));
    let found = generator.find_pulseaudio_match_by_card("hw:CARD=pci-0000_00_1f.3,DEV=0.monitor", &DeviceType::Output);
    assert_eq!(found, Some("Monitor of Speakers".to_string()));
    let found = generator.find_pulseaudio_match_by_card("hw:CARD=PCI-0000_00_1F.3,DEV=0", &DeviceType::Output);
    assert_eq!(found, Some("Speakers".to_string()));
}

#[test]
fn name_variants_swap_and_strip_prefixes() {
    let generator = no_cache();
    let v = generator.generate_name_variants("alsa_input.usb-mic", &DeviceType::Input);
    assert_eq!(v, vec!["usb-mic".to_string(), "alsa_output.usb-mic".to_string()]);
    let v = generator.generate_name_variants("usb-mic", &DeviceType::Output);
    assert_eq!(v, vec!["alsa_output.usb-mic".to_string()]);
}

#[test]
fn variant_lookup_finds_description_under_prefixed_name() {
    let mut cache = DeviceDescriptions::new();
    cache.insert("alsa_input.usb-mic".to_string(), "Desk Mic".to_string());
    let generator = FriendlyNameGenerator::new(Ok(cache));
    assert_eq!(generator.generate("usb-mic", DeviceType::Input), "Desk Mic");
}

#[test]
fn generator_without_descriptions_has_no_cache() {
    let generator = FriendlyNameGenerator::new(Ok(DeviceDescriptions::new()));
    assert!(generator.pulse_cache.is_none());
    let generator = FriendlyNameGenerator::new(Err("pactl missing".to_string()));
    assert!(generator.pulse_cache.is_none());
}

#[test]
fn cleaned_names_are_stable_and_clean() {
    for raw in ["alsa_output.pci-0000_00_1f.3", "some__weird--name", "  usb-Blue  ", "plain"] {
        let once = cleanup_name(raw);
        assert_eq!(cleanup_name(&once), once);
        assert!(!once.contains('_') && !once.contains('-') && !once.contains('.'));
        assert!(!once.contains("  "));
        assert_eq!(once.trim(), once);
    }
}

#[test]
fn profiles_are_formatted_word_by_word() {
    assert_eq!(format_profile("hdmi-surround-71"), format!("{} {}", format_profile("hdmi"), format_profile("surround-71")));
    assert_eq!(format_profile("analog-stereo"), "Analog Stereo");
}

#[test]
fn pactl_names_pair_with_the_next_description() {
    let out = "Source #0\n    Name: a\n    Description: First\nSource #1\n    Name: b\n    Driver: x\n";
    let table = parse_pactl_list_output(out).unwrap();
    assert_eq!(table.get("a").map(|s| s.as_str()), Some("First"));
    assert_eq!(table.get("b"), None);
    assert!(parse_pactl_list_output("").unwrap().is_empty());
}

#[test]
fn cleaned_name_is_empty_only_without_a_word_before_the_dot() {
    assert_eq!(cleanup_name("__ -- .usb"), "");
    assert_eq!(cleanup_name(".analog"), "");
    assert_eq!(cleanup_name("_a_.b"), "A");
}
