use midi_clock::registry::DeviceRegistry;

#[test]
fn registry_keeps_names_in_order() {
    let names = vec![
        "Reserved".to_string(),
        "Synth A".to_string(),
        "Synth B".to_string(),
    ];
    let reg = DeviceRegistry::new(names);
    assert_eq!(reg.device_count(), 3);
    assert_eq!(reg.name(0), "Reserved");
    assert_eq!(reg.name(1), "Synth A");
    assert_eq!(reg.name(2), "Synth B");
}

#[test]
fn registry_may_be_empty() {
    let reg = DeviceRegistry::new(Vec::new());
    assert_eq!(reg.device_count(), 0);
}
