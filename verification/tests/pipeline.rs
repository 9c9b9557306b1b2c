use bptimer_core::endpoint::ServerEndpoint;
use bptimer_core::extract::extract_hp_from_attrs;
use bptimer_core::messages::Attr;
use bptimer_core::messages::AttrCollection;
use bptimer_core::mobs::get_boss_or_magical_creature_name;
use bptimer_core::mobs::get_class_name;
use bptimer_core::mobs::get_location_name;
use bptimer_core::mobs::is_location_tracked_mob;
use bptimer_core::mobs::requires_location_number;
use bptimer_core::modules::extract_modules;
use bptimer_core::modules::is_valid_effect_id;
use bptimer_core::messages::Item;
use bptimer_core::messages::ItemEntry;
use bptimer_core::messages::ItemPackage;
use bptimer_core::messages::ModData;
use bptimer_core::messages::ModInfo;
use bptimer_core::messages::ModInfoEntry;
use bptimer_core::messages::ModNewAttr;
use bptimer_core::messages::Package;
use bptimer_core::messages::SyncContainerData;
use bptimer_core::messages::VData;
use bptimer_core::player::PlayerInfoCache;
use bptimer_core::player::PlayerState;
use bptimer_core::protocol::extract_type;
use bptimer_core::protocol::get_player_uid;
use bptimer_core::protocol::is_compressed;
use bptimer_core::protocol::is_player;
use bptimer_core::protocol::MessageMethod;
use bptimer_core::protocol::MessageType;
use bptimer_core::reassembly::TcpStreamProcessor;

fn endpoint() -> ServerEndpoint {
    ServerEndpoint::new(String::from("10.0.0.1"), 5555, String::from("192.168.1.2"), 7777)
}

fn login_return_payload() -> Vec<u8> {
    let mut p = vec![0u8; 98];
    p[..10].copy_from_slice(&[0x00, 0x00, 0x00, 0x62, 0x00, 0x03, 0x00, 0x00, 0x00, 0x01]);
    p[14..20].copy_from_slice(&[0x00, 0x00, 0x00, 0x00, 0x0a, 0x4e]);
    p
}

fn notify_frame() -> Vec<u8> {
    let mut body = 0x63335342u64.to_be_bytes().to_vec();
    body.extend_from_slice(&[0, 0, 0, 0]);
    body.extend_from_slice(&0x2Du32.to_be_bytes());
    body.extend_from_slice(b"payload");
    let len = (body.len() + 6) as u32;
    let mut f = len.to_be_bytes().to_vec();
    f.extend_from_slice(&2u16.to_be_bytes());
    f.extend_from_slice(&body);
    f
}

#[test]
fn endpoint_renders_and_reverses() {
    let ep = endpoint();
    assert_eq!(ep.to_string(), "10.0.0.1:5555 -> 192.168.1.2:7777");
    let rev = ep.reverse();
    assert_eq!(rev.to_string(), "192.168.1.2:7777 -> 10.0.0.1:5555");
    assert!(ep.same_conversation(&rev));
    assert!(ep.same_conversation(&ep.clone_endpoint()));
    assert!(ep == ep.clone_endpoint());
    assert!(!(ep == rev));
    let other = ServerEndpoint::new(String::from("10.0.0.1"), 5555, String::from("192.168.1.2"), 80);
    assert!(!ep.same_conversation(&other));
}

#[test]
fn detection_packet_becomes_the_current_conversation() {
    let mut p = TcpStreamProcessor::new();
    let outcome = p.process_packet(&endpoint(), 1000, &login_return_payload(), 0);
    assert!(outcome.frames.is_empty());
    let change = outcome.server_change.expect("a server change");
    assert_eq!(change.server_endpoint, "10.0.0.1:5555 -> 192.168.1.2:7777");
    assert!(p.current_server.is_some());
    assert_eq!(p.next_seq, Some(1098));
}

#[test]
fn frames_flow_after_detection() {
    let mut p = TcpStreamProcessor::new();
    p.process_packet(&endpoint(), 1000, &login_return_payload(), 0);
    let frame = notify_frame();
    let outcome = p.process_packet(&endpoint().reverse(), 1098, &frame, 10);
    assert!(outcome.server_change.is_none());
    assert_eq!(outcome.frames, vec![frame]);
}

#[test]
fn foreign_packets_are_ignored_while_a_conversation_is_current() {
    let mut p = TcpStreamProcessor::new();
    p.process_packet(&endpoint(), 1000, &login_return_payload(), 0);
    let stranger = ServerEndpoint::new(String::from("8.8.8.8"), 53, String::from("10.0.0.1"), 9999);
    let outcome = p.process_packet(&stranger, 77, &login_return_payload(), 1);
    assert!(outcome.frames.is_empty());
    assert!(outcome.server_change.is_none());
    assert_eq!(p.next_seq, Some(1098));
}

#[test]
fn idle_timeout_drops_the_conversation() {
    let mut p = TcpStreamProcessor::new();
    p.process_packet(&endpoint(), 1000, &login_return_payload(), 0);
    let outcome = p.process_packet(&endpoint(), 1098, &notify_frame(), 20_000);
    assert!(outcome.frames.is_empty());
    assert!(outcome.server_change.is_none());
    assert!(p.current_server.is_none());
}

#[test]
fn idle_timeout_with_a_signature_rebases_the_conversation() {
    let mut p = TcpStreamProcessor::new();
    p.process_packet(&endpoint(), 1000, &login_return_payload(), 0);
    let outcome = p.process_packet(&endpoint(), 5000, &login_return_payload(), 20_000);
    assert!(outcome.server_change.is_some());
    assert_eq!(p.next_seq, Some(5098));
}

#[test]
fn packet_type_helpers_read_the_packed_word() {
    assert!(is_compressed(0x8002));
    assert!(!is_compressed(0x0002));
    assert_eq!(extract_type(0x8002), 2);
    assert_eq!(extract_type(0x7FFF), 0x7FFF);
    assert_eq!(MessageType::from_u16(2), MessageType::Notify);
    assert_eq!(MessageType::from_u16(6), MessageType::FrameDown);
    assert_eq!(MessageType::from_u16(77), MessageType::Unknown);
    assert_eq!(MessageMethod::from_u32(0x2D), Some(MessageMethod::SyncNearDeltaInfo));
    assert_eq!(MessageMethod::from_u32(0x15), Some(MessageMethod::SyncContainerData));
    assert_eq!(MessageMethod::from_u32(0x999), None);
}

#[test]
fn entity_ids_carry_the_player_discriminant() {
    let uuid = (42i64 << 16) | 640;
    assert!(is_player(uuid));
    assert_eq!(get_player_uid(uuid), 42);
    let monster = (42i64 << 16) | 64;
    assert!(!is_player(monster));
    assert_eq!(get_player_uid(-1 << 16 | 640), -1);
}

#[test]
fn player_state_records_identity() {
    let mut s = PlayerState::new();
    assert_eq!(s.get_uid(), None);
    assert_eq!(s.get_line_id(), 0);
    s.set_account_info(String::from("4_abc"), 42);
    s.set_line_id(7);
    assert_eq!(s.get_account_id(), Some(String::from("4_abc")));
    assert_eq!(s.get_uid(), Some(42));
    assert_eq!(s.get_line_id(), 7);
}

#[test]
fn player_cache_stores_and_defaults_names() {
    let mut c = PlayerInfoCache::new();
    assert_eq!(c.get_name(42), None);
    assert_eq!(c.get_name_or_default(42), "Player 42");
    assert_eq!(c.get_name_or_default(-5), "Player -5");
    c.set_name(42, String::from("Hero"));
    c.set_name(42, String::new());
    assert_eq!(c.get_name(42), Some(String::from("Hero")));
    assert_eq!(c.get_name_or_default(42), "Hero");
    c.set_class(42, 3);
    c.set_class(42, 0);
    c.set_ability_score(42, 1500);
    let m = c.get(42);
    assert_eq!(m.name, Some(String::from("Hero")));
    assert_eq!(m.class_id, Some(3));
    assert_eq!(m.ability_score, Some(1500));
    let empty = c.get(7);
    assert_eq!(empty.name, None);
    assert_eq!(empty.class_id, None);
}

#[test]
fn mob_tables_answer_known_ids() {
    assert!(is_location_tracked_mob(10007));
    assert!(is_location_tracked_mob(10904));
    assert!(!is_location_tracked_mob(123));
    assert!(requires_location_number(10900));
    assert!(!requires_location_number(10007));
    assert_eq!(get_location_name(10904, 1), Some("Cliff Ruins"));
    assert_eq!(get_location_name(10900, 5), Some("Brigand Leader"));
    assert_eq!(get_location_name(10901, 11), Some("Ruins E"));
    assert_eq!(get_location_name(10904, 99), None);
    assert_eq!(get_location_name(10007, 1), None);
    assert_eq!(get_boss_or_magical_creature_name(10085), Some("Lizardman King"));
    assert_eq!(get_boss_or_magical_creature_name(1), None);
    assert_eq!(get_class_name(5), Some("Verdant Oracle"));
    assert_eq!(get_class_name(6), None);
}

#[test]
fn effect_ids_are_filtered_by_the_known_list() {
    assert!(is_valid_effect_id(1110));
    assert!(is_valid_effect_id(2406));
    assert!(!is_valid_effect_id(1115));
    assert!(!is_valid_effect_id(0));
}

#[test]
fn modules_pair_parts_with_link_levels() {
    let sync = SyncContainerData {
        v_data: Some(VData {
            char_id: 42,
            char_base: None,
            scene_data: None,
            item_package: Some(ItemPackage {
                packages: vec![Package {
                    items: vec![
                        ItemEntry {
                            key: 7,
                            item: Item {
                                mod_new_attr: Some(ModNewAttr { mod_parts: vec![1110, 9999, 1205] }),
                            },
                        },
                        ItemEntry {
                            key: 8,
                            item: Item {
                                mod_new_attr: Some(ModNewAttr { mod_parts: vec![9999] }),
                            },
                        },
                    ],
                }],
            }),
            mod_data: Some(ModData {
                mod_infos: vec![ModInfoEntry {
                    key: 7,
                    info: ModInfo { init_link_nums: vec![3, 4, 5] },
                }],
            }),
        }),
    };
    let modules = extract_modules(&sync);
    assert_eq!(modules.len(), 1);
    assert_eq!(modules[0].effects.len(), 2);
    assert_eq!(modules[0].effects[0].id, 1110);
    assert_eq!(modules[0].effects[0].level, 3);
    assert_eq!(modules[0].effects[1].id, 1205);
    assert_eq!(modules[0].effects[1].level, 5);
}

#[test]
fn hp_attributes_decode_as_varints() {
    let attrs = Some(AttrCollection {
        attrs: vec![
            Attr { id: 0x2C2E, raw_data: vec![0xAC, 0x02] },
            Attr { id: 0x2C38, raw_data: vec![0xE8, 0x07] },
        ],
    });
    let (cur, max) = extract_hp_from_attrs(&attrs);
    assert_eq!(cur, Some(300));
    assert_eq!(max, Some(1000));
    let (cur, max) = extract_hp_from_attrs(&None);
    assert_eq!(cur, None);
    assert_eq!(max, None);
}

#[test]
fn detection_prefilter_rejects_large_tls_records() {
    let mut payload = vec![0u8; 1500];
    // An embedded server signature inside the first sub-packet.
    payload[10..14].copy_from_slice(&15u32.to_be_bytes());
    payload[19..25].copy_from_slice(&[0x00, 0x63, 0x33, 0x53, 0x42, 0x00]);
    let https = ServerEndpoint::new(String::from("10.0.0.1"), 50000, String::from("1.2.3.4"), 443);
    let mut p = TcpStreamProcessor::new();
    let outcome = p.process_packet(&https, 1, &payload, 0);
    assert!(outcome.server_change.is_none());
    let plain = ServerEndpoint::new(String::from("10.0.0.1"), 50000, String::from("1.2.3.4"), 80);
    let outcome = p.process_packet(&plain, 1, &payload, 0);
    assert!(outcome.server_change.is_some());
}

#[test]
fn detection_prefilter_rejects_oversized_payloads() {
    let mut payload = vec![0u8; 2500];
    payload[10..14].copy_from_slice(&15u32.to_be_bytes());
    payload[19..25].copy_from_slice(&[0x00, 0x63, 0x33, 0x53, 0x42, 0x00]);
    let ep = ServerEndpoint::new(String::from("10.0.0.1"), 50000, String::from("1.2.3.4"), 80);
    let mut p = TcpStreamProcessor::new();
    let outcome = p.process_packet(&ep, 1, &payload, 0);
    assert!(outcome.server_change.is_none());
}

#[test]
fn endpoint_text_renders_every_port_digit() {
    let ep = ServerEndpoint::new(String::from("0.0.0.0"), 0, String::from("255.255.255.255"), 65535);
    assert_eq!(ep.to_string(), "0.0.0.0:0 -> 255.255.255.255:65535");
}
