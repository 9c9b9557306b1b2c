use bptimer_core::device::clean_device_name;
use bptimer_core::device::select_best_device;
use bptimer_core::device::DeviceDescriptor;
use bptimer_core::device::InterfaceKind;
use bptimer_core::regions::get_mob_timers_region_from_prefix;
use bptimer_core::regions::get_region_display_name;
use bptimer_core::regions::get_region_info;
use bptimer_core::regions::get_region_string;
use bptimer_core::regions::get_topic_name;
use bptimer_core::regions::is_prefix_known_but_disabled;
use bptimer_core::settings::MobTimersRegion;

fn device(name: &str, kind: InterfaceKind, default_route: bool, up: bool) -> DeviceDescriptor {
    DeviceDescriptor {
        name: name.to_string(),
        description: None,
        has_interface: true,
        is_default_route: default_route,
        is_up: up,
        has_valid_ipv4: up,
        kind,
    }
}

#[test]
fn default_route_interface_wins() {
    let devices = vec![
        device("eth0", InterfaceKind::Ethernet, false, true),
        device("eth1", InterfaceKind::Ethernet, true, true),
    ];
    assert_eq!(select_best_device(&devices), Some(1));
}

#[test]
fn ethernet_beats_wireless() {
    let devices = vec![
        device("wlan0", InterfaceKind::Wireless, false, true),
        device("eth0", InterfaceKind::Ethernet, false, true),
    ];
    assert_eq!(select_best_device(&devices), Some(1));
}

#[test]
fn wireless_is_taken_when_no_ethernet_is_usable() {
    let devices = vec![
        device("eth0", InterfaceKind::Ethernet, false, false),
        device("wlan0", InterfaceKind::Wireless, false, true),
    ];
    assert_eq!(select_best_device(&devices), Some(1));
}

#[test]
fn denylist_fallback_skips_virtual_adapters() {
    let mut vpn = device("VPN Tunnel Adapter", InterfaceKind::Other, false, false);
    vpn.has_interface = false;
    let mut plain = device("enp3s0", InterfaceKind::Other, false, false);
    plain.has_interface = false;
    let devices = vec![vpn, plain];
    assert_eq!(select_best_device(&devices), Some(1));
}

#[test]
fn denylist_matches_descriptions_case_insensitively() {
    let mut d = device("dev7", InterfaceKind::Other, false, false);
    d.has_interface = false;
    d.description = Some("WAN Miniport (IP)".to_string());
    let devices = vec![d];
    assert_eq!(select_best_device(&devices), None);
}

#[test]
fn nothing_usable_selects_nothing() {
    let devices: Vec<DeviceDescriptor> = Vec::new();
    assert_eq!(select_best_device(&devices), None);
}

#[test]
fn device_names_keep_braced_non_guids() {
    let name = r"\Device\NPF_{not-a-guid}";
    assert_eq!(clean_device_name(name, Some("desc")), "{not-a-guid}");
}

#[test]
fn guid_device_names_fall_back_to_the_description() {
    let name = r"\Device\NPF_{12345678-1234-1234-1234-123456789012}";
    assert_eq!(clean_device_name(name, Some("Intel(R) Ethernet")), "Intel(R) Ethernet");
    assert_eq!(clean_device_name(name, None), "Unknown device");
}

#[test]
fn unbraced_device_names_fall_back_to_the_description() {
    assert_eq!(clean_device_name("eth0", Some("builtin")), "builtin");
    assert_eq!(clean_device_name("eth0", None), "Unknown device");
}

#[test]
fn account_prefixes_select_served_regions() {
    assert_eq!(get_mob_timers_region_from_prefix("4_"), Some(MobTimersRegion::NA));
    assert_eq!(get_mob_timers_region_from_prefix("6_"), Some(MobTimersRegion::SEA));
    assert_eq!(get_mob_timers_region_from_prefix("5_"), None);
    assert_eq!(get_mob_timers_region_from_prefix("x"), None);
}

#[test]
fn known_but_unserved_prefixes_are_recognised() {
    assert!(is_prefix_known_but_disabled("0_"));
    assert!(is_prefix_known_but_disabled("5_"));
    assert!(!is_prefix_known_but_disabled("4_"));
    assert!(!is_prefix_known_but_disabled("9_"));
}

#[test]
fn region_tables_answer_names_and_topics() {
    let info = get_region_info(&MobTimersRegion::JPKR).unwrap();
    assert_eq!(info.prefix, "5_");
    assert_eq!(info.name, "JPKR");
    assert_eq!(info.display_name, "JP/KR");
    assert!(!info.enabled);
    assert_eq!(get_region_string(&MobTimersRegion::SEA), "SEA");
    assert_eq!(get_topic_name(&MobTimersRegion::NA, "mob_hp_updates"), "mob_hp_updates");
    assert_eq!(get_topic_name(&MobTimersRegion::SEA, "mob_hp_updates"), "mob_hp_updates_sea");
    assert_eq!(get_region_display_name(&None), "Auto");
    assert_eq!(get_region_display_name(&Some(MobTimersRegion::JPKR)), "JP/KR");
}
