use meetily::devices::friendly_names::{DeviceType, FriendlyNameGenerator};
use meetily::devices::platform::{linux_audio_devices, monitor_sources, source_description};

const SOURCES: &str = "Source #0\n\tName: alsa_input.pci-0000_00_1f.3.analog-stereo\n\tDescription: Built-in Audio Analog Stereo\n\nSource #1\n\tName: alsa_output.pci-0000_00_1f.3.analog-stereo.monitor\n\tDescription: Monitor of Built-in Audio Analog Stereo\n";

#[test]
fn description_of_named_source() {
    assert_eq!(
        source_description(SOURCES, "alsa_output.pci-0000_00_1f.3.analog-stereo.monitor"),
        Some("Monitor of Built-in Audio Analog Stereo".to_string())
    );
    assert_eq!(
        source_description(SOURCES, "alsa_input.pci-0000_00_1f.3.analog-stereo"),
        Some("Built-in Audio Analog Stereo".to_string())
    );
    assert_eq!(source_description(SOURCES, "missing"), None);
}

#[test]
fn monitors_from_short_listing() {
    let short = "0\talsa_input.pci-0000_00_1f.3.analog-stereo\tPipeWire\ts32le 2ch 48000Hz\tSUSPENDED\n\
                 1\talsa_output.pci-0000_00_1f.3.analog-stereo.monitor\tPipeWire\ts32le 2ch 48000Hz\tRUNNING\n\
                 garbage\n";
    assert_eq!(monitor_sources(short), vec!["alsa_output.pci-0000_00_1f.3.analog-stereo.monitor".to_string()]);
    assert!(monitor_sources("").is_empty());
}

#[test]
fn device_list_skips_monitors_and_duplicates() {
    let generator = FriendlyNameGenerator { pulse_cache: None };
    let inputs = vec![
        "hw:CARD=PCH,DEV=0".to_string(),
        "hw:CARD=PCH,DEV=0".to_string(),
        "something.monitor".to_string(),
        "pulse".to_string(),
    ];
    let monitors = vec![
        ("alsa_output.a.monitor".to_string(), Some("Monitor of Speakers".to_string())),
        ("alsa_output.b.monitor".to_string(), Some("Monitor of Speakers".to_string())),
        ("alsa_output.c.monitor".to_string(), None),
    ];
    let list = linux_audio_devices(&generator, &inputs, &monitors);
    assert_eq!(
        list,
        vec![
            ("hw:CARD=PCH,DEV=0".to_string(), "Hardware: PCH (Device 0)".to_string(), DeviceType::Input),
            ("pulse".to_string(), "Pulse".to_string(), DeviceType::Input),
            ("alsa_output.a.monitor".to_string(), "Monitor of Speakers".to_string(), DeviceType::Output),
            ("alsa_output.c.monitor".to_string(), "alsa_output.c.monitor".to_string(), DeviceType::Output),
        ]
    );
}
