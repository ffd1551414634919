use talos_pilot::talosctl::{
    machine_config_from_fields, parse_machine_config_yaml, parse_volume_status_yaml, volume_from_fields,
    TalosError,
};

#[test]
fn test_parse_volume_status() {
    let yaml = r#"
node: 10.5.0.2
metadata:
    namespace: runtime
    type: VolumeStatuses.block.talos.dev
    id: STATE
    version: "1"
    phase: running
spec:
    phase: ready
    location: /dev/sda6
    encryptionProvider: luks2
    filesystem: xfs
    mountLocation: /system/state
    prettySize: 100 MiB
---
node: 10.5.0.2
metadata:
    namespace: runtime
    type: VolumeStatuses.block.talos.dev
    id: EPHEMERAL
    version: "1"
    phase: running
spec:
    phase: ready
    location: /dev/sda5
    filesystem: xfs
    mountLocation: /var
    prettySize: 10 GiB
"#;

    let volumes = parse_volume_status_yaml(yaml).unwrap();
    assert_eq!(volumes.len(), 2);
    assert_eq!(volumes[0].id, "STATE");
    assert_eq!(volumes[0].encryption_provider, Some("luks2".to_string()));
    assert_eq!(volumes[1].id, "EPHEMERAL");
    assert_eq!(volumes[1].encryption_provider, None);
}

#[test]
fn test_parse_machine_config() {
    let yaml = r#"
node: 10.5.0.2
metadata:
    namespace: config
    type: MachineConfigs.config.talos.dev
    id: v1alpha1
    version: "5"
spec:
    machine:
        type: controlplane
"#;

    let config = parse_machine_config_yaml(yaml).unwrap();
    assert_eq!(config.version, "5");
    assert_eq!(config.machine_type, Some("controlplane".to_string()));
}

#[test]
fn volume_documents_without_id_or_unparsable_are_skipped() {
    let yaml = "metadata:\n  id: A\nspec:\n  prettySize: 1 GiB\n---\n\n---\nmetadata: {}\n---\n: : [\n---\nmetadata:\n  id: \"\"\n";
    let volumes = parse_volume_status_yaml(yaml).unwrap();
    assert_eq!(volumes.len(), 1);
    assert_eq!(volumes[0].id, "A");
    assert_eq!(volumes[0].phase, "unknown");
    assert_eq!(volumes[0].size, "1 GiB");
    assert!(parse_volume_status_yaml("").unwrap().is_empty());
}

#[test]
fn machine_config_errors_and_defaults() {
    match parse_machine_config_yaml("a: [") {
        Err(TalosError::Connection(m)) => assert!(m.starts_with("Failed to parse YAML: ")),
        other => panic!("unexpected {:?}", other),
    }
    let config = parse_machine_config_yaml("spec: {}").unwrap();
    assert_eq!(config.version, "");
    assert!(config.machine_type.is_none());
    assert_eq!(TalosError::Connection("x".to_string()).message(), "Connection failed: x");
    assert_eq!(TalosError::NoHomeDirectory.message(), "Could not determine home directory");
}

#[test]
fn field_defaults() {
    assert!(volume_from_fields(None, None, None, None, None, None).is_none());
    assert!(volume_from_fields(Some(String::new()), None, None, None, None, None).is_none());
    let v = volume_from_fields(Some("STATE".to_string()), None, Some("ready".to_string()), None, None, None).unwrap();
    assert_eq!(v.phase, "ready");
    assert_eq!(v.size, "");
    let m = machine_config_from_fields(Some("3".to_string()), None);
    assert_eq!(m.version, "3");
}
