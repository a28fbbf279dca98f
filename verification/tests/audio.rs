use panotti::audio::resolve;
use panotti::audio::AudioDevice;
use panotti::audio::AudioHost;
use panotti::nodebug::NoDebug;

fn named(name: &str) -> Option<AudioDevice> {
    Some(AudioDevice { name: Some(name.to_string()) })
}

fn unnamed() -> Option<AudioDevice> {
    Some(AudioDevice { name: None })
}

#[test]
fn device_name_is_handed_out() {
    let device = AudioDevice { name: Some("Built-in Microphone".to_string()) };
    assert_eq!(device.name(), Some(&"Built-in Microphone".to_string()));
    let silent = AudioDevice { name: None };
    assert_eq!(silent.name(), None);
}

#[test]
fn host_hands_out_its_default_devices() {
    let host = AudioHost { input: named("mic"), output: None };
    assert_eq!(host.default_input_device().unwrap().name(), Some(&"mic".to_string()));
    assert!(host.default_output_device().is_none());
}

#[test]
fn input_status_names_the_device() {
    let host = AudioHost { input: named("Built-in Microphone"), output: None };
    assert_eq!(host.input_status_line(), "Default input device: Built-in Microphone");
}

#[test]
fn input_status_without_a_device() {
    let host = AudioHost { input: None, output: named("speakers") };
    assert_eq!(host.input_status_line(), "No audio input device?");
}

#[test]
fn input_status_when_the_name_cannot_be_read() {
    let host = AudioHost { input: unnamed(), output: None };
    assert_eq!(host.input_status_line(), "input device: name unavailable");
}

#[test]
fn output_status_names_the_device() {
    let host = AudioHost { input: None, output: named("HDMI") };
    assert_eq!(host.output_status_line(), "Default output device: HDMI");
}

#[test]
fn output_status_without_a_device() {
    let host = AudioHost { input: named("mic"), output: None };
    assert_eq!(host.output_status_line(), "No default output device?");
}

#[test]
fn output_status_when_the_name_cannot_be_read() {
    let host = AudioHost { input: None, output: unnamed() };
    assert_eq!(host.output_status_line(), "output device: name unavailable");
}

#[test]
fn resolve_gives_input_then_output() {
    let host = Some(NoDebug::from(AudioHost { input: named("mic"), output: named("speakers") }));
    assert_eq!(
        resolve(&host),
        vec!["Default input device: mic".to_string(), "Default output device: speakers".to_string()]
    );
}

#[test]
fn resolve_with_missing_hardware_gives_two_fallbacks() {
    let host = Some(NoDebug::from(AudioHost { input: None, output: None }));
    assert_eq!(
        resolve(&host),
        vec!["No audio input device?".to_string(), "No default output device?".to_string()]
    );
}

#[test]
fn resolve_without_a_host_gives_one_fallback() {
    assert_eq!(resolve(&None), vec!["No audio host?".to_string()]);
}

#[test]
fn an_empty_device_name_is_still_a_name() {
    let host = AudioHost { input: named(""), output: named("") };
    assert_eq!(host.input_status_line(), "Default input device: ");
    assert_eq!(host.output_status_line(), "Default output device: ");
}
