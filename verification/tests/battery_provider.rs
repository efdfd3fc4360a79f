use kairpods_service::battery_provider::{
    address_to_dev, apply_percentage, bluez_device_path, bluez_device_path_text, find_adapter,
    provider_object_path, provider_object_path_text, provider_root_path, BatteryObjects,
    PROVIDER_ROOT,
};

const ADDR: [u8; 6] = [0xAA, 0xBB, 0xCC, 0x0D, 0x1E, 0xFF];

#[test]
fn device_component_of_an_address() {
    assert_eq!(address_to_dev(ADDR), "dev_AA_BB_CC_0D_1E_FF");
    assert_eq!(address_to_dev([0, 1, 2, 3, 4, 5]), "dev_00_01_02_03_04_05");
}

#[test]
fn object_paths() {
    assert_eq!(
        provider_object_path_text(ADDR),
        "/org/kairpods/battery/dev_AA_BB_CC_0D_1E_FF"
    );
    assert_eq!(
        bluez_device_path_text("/org/bluez/hci0", ADDR),
        "/org/bluez/hci0/dev_AA_BB_CC_0D_1E_FF"
    );
    assert_eq!(
        provider_object_path(ADDR).as_str(),
        "/org/kairpods/battery/dev_AA_BB_CC_0D_1E_FF"
    );
    assert_eq!(
        bluez_device_path("/org/bluez/hci1", ADDR).as_str(),
        "/org/bluez/hci1/dev_AA_BB_CC_0D_1E_FF"
    );
    assert_eq!(provider_root_path().as_str(), PROVIDER_ROOT);
}

#[test]
fn adapter_is_the_first_with_the_manager_interface() {
    let objects = vec![
        vec!["org.freedesktop.DBus.Introspectable".to_string()],
        vec![
            "org.bluez.Adapter1".to_string(),
            "org.bluez.BatteryProviderManager1".to_string(),
        ],
        vec!["org.bluez.BatteryProviderManager1".to_string()],
    ];
    assert_eq!(find_adapter(&objects), Some(1));
    assert_eq!(find_adapter(&objects[..1].to_vec()), None);
    assert_eq!(find_adapter(&Vec::new()), None);
}

#[test]
fn registry_insert_remove() {
    let mut objects = BatteryObjects::new();
    assert!(!objects.contains(ADDR));
    objects.insert(ADDR);
    objects.insert([1, 2, 3, 4, 5, 6]);
    assert!(objects.contains(ADDR));
    let mut all = objects.addresses();
    all.sort();
    assert_eq!(all, vec![[1, 2, 3, 4, 5, 6], ADDR]);
    assert_eq!(
        objects.remove(ADDR),
        Some("/org/kairpods/battery/dev_AA_BB_CC_0D_1E_FF".to_string())
    );
    assert_eq!(objects.remove(ADDR), None);
    assert!(!objects.contains(ADDR));
    assert_eq!(objects.addresses(), vec![[1, 2, 3, 4, 5, 6]]);
}

#[test]
fn percentage_changes_are_reported_once() {
    let mut current = 40u8;
    assert!(apply_percentage(&mut current, 35));
    assert_eq!(current, 35);
    assert!(!apply_percentage(&mut current, 35));
    assert_eq!(current, 35);
}

#[test]
fn distinct_devices_get_distinct_paths() {
    assert_ne!(
        provider_object_path_text([0, 0, 0, 0, 0, 1]),
        provider_object_path_text([0, 0, 0, 0, 1, 0])
    );
    assert_ne!(address_to_dev([0x10, 0, 0, 0, 0, 0]), address_to_dev([0x01, 0, 0, 0, 0, 0]));
}

#[test]
fn only_served_objects_are_recorded() {
    let mut objects = BatteryObjects::new();
    objects.record_served(ADDR, false);
    assert!(!objects.contains(ADDR));
    objects.record_served(ADDR, true);
    assert!(objects.contains(ADDR));
}
