use satisfactory_map_tracker::save_parser::max_overclock_percent;
use satisfactory_map_tracker::reader::HeaderError;
use satisfactory_map_tracker::save_header::parse_save_file_info;
use satisfactory_map_tracker::save_parser::{
    inventory_potential_indices, is_conveyor_chain, is_foundation_buildable,
    is_lightweight_subsystem, is_rail_track, is_resource_extractor, power_shard_count, PropList,
    Property, PropertyValue,
};

#[test]
fn recognizes_miner_actor_types() {
    assert!(is_resource_extractor("/Game/Build_MinerMk3.Build_MinerMk3_C"));
    assert!(is_resource_extractor(
        "/Game/FactoryGame/Buildable/Factory/OilPump/Build_OilPump.Build_OilPump_C"
    ));
    assert!(is_resource_extractor(
        "/Game/FactoryGame/Buildable/Factory/FrackingExtractor/Build_FrackingExtractor.Build_FrackingExtractor_C"
    ));
    assert!(is_resource_extractor(
        "/Game/FactoryGame/Buildable/Factory/FrackingSmasher/Build_FrackingSmasher.Build_FrackingSmasher_C"
    ));
    assert!(!is_resource_extractor("/Game/Equip_ResourceMiner.Equip_ResourceMiner_C"));
    assert!(!is_resource_extractor("/Game/Build_Constructor.Build_Constructor_C"));
    assert!(!is_resource_extractor(
        "/Game/FactoryGame/Buildable/Factory/OilRefinery/Build_OilRefinery.Build_OilRefinery_C"
    ));
    assert!(!is_resource_extractor("/Game/FactoryGame/Resource/BP_FrackingCore.BP_FrackingCore_C"));
}

#[test]
fn recognizes_other_buildable_kinds() {
    assert!(is_rail_track(
        "/Game/FactoryGame/Buildable/Factory/Train/Track/Build_RailroadTrack.Build_RailroadTrack_C"
    ));
    assert!(!is_rail_track("/Game/Build_ConveyorBeltMk1.Build_ConveyorBeltMk1_C"));
    assert!(is_foundation_buildable(
        "/Game/FactoryGame/Buildable/Building/Foundation/Build_Foundation_8x4_01.Build_Foundation_8x4_01_C"
    ));
    assert!(is_lightweight_subsystem(
        "/Script/FactoryGame.FGLightweightBuildableSubsystem"
    ));
    assert!(is_conveyor_chain("/Script/FactoryGame.FGConveyorChainActor"));
    assert!(!is_conveyor_chain("/Script/FactoryGame.FGConveyorBelt"));
}

fn stack(item: &str, count: i32) -> PropList {
    PropList {
        props: vec![
            Property {
                name: "Item".to_string(),
                value: PropertyValue::InventoryItem { item_name: item.to_string() },
            },
            Property { name: "NumItems".to_string(), value: PropertyValue::Int(count) },
        ],
    }
}

#[test]
fn power_shards_are_counted_up_to_three() {
    let inventory = PropList {
        props: vec![Property {
            name: "mInventoryStacks".to_string(),
            value: PropertyValue::StructArray(vec![
                stack("/Game/Desc_CrystalShard.Desc_CrystalShard_C", 2),
                stack("/Game/Desc_IronPlate.Desc_IronPlate_C", 50),
            ]),
        }],
    };
    assert_eq!(power_shard_count(&inventory), Some(2));

    let full = PropList {
        props: vec![Property {
            name: "mInventoryStacks".to_string(),
            value: PropertyValue::StructArray(vec![
                stack("/Game/Desc_CrystalShard.Desc_CrystalShard_C", 2),
                stack("/Game/Desc_CrystalShard.Desc_CrystalShard_C", 5),
            ]),
        }],
    };
    assert_eq!(power_shard_count(&full), Some(3));

    let negative = PropList {
        props: vec![Property {
            name: "mInventoryStacks".to_string(),
            value: PropertyValue::StructArray(vec![stack(
                "/Game/Desc_CrystalShard.Desc_CrystalShard_C",
                -4,
            )]),
        }],
    };
    assert_eq!(power_shard_count(&negative), Some(0));

    let no_inventory = PropList { props: vec![] };
    assert_eq!(power_shard_count(&no_inventory), None);
}

#[test]
fn inventory_index_keeps_the_last_position_of_each_name() {
    let levels = vec![
        vec![
            "Persistent_Level:PersistentLevel.Build_MinerMk1_C_1.InventoryPotential".to_string(),
            "Persistent_Level:PersistentLevel.Build_Constructor_C_2".to_string(),
        ],
        vec!["Persistent_Level:PersistentLevel.Build_MinerMk1_C_1.InventoryPotential".to_string()],
    ];
    let entries = inventory_potential_indices(&levels);
    assert_eq!(entries.len(), 1);
    assert_eq!(
        entries[0],
        (
            "Persistent_Level:PersistentLevel.Build_MinerMk1_C_1.InventoryPotential".to_string(),
            1,
            0
        )
    );
}

fn push_u32(bytes: &mut Vec<u8>, value: u32) {
    bytes.extend_from_slice(&value.to_le_bytes());
}

fn push_u64(bytes: &mut Vec<u8>, value: u64) {
    bytes.extend_from_slice(&value.to_le_bytes());
}

fn push_latin1(bytes: &mut Vec<u8>, text: &str) {
    if text.is_empty() {
        push_u32(bytes, 0);
        return;
    }
    push_u32(bytes, text.len() as u32 + 1);
    bytes.extend_from_slice(text.as_bytes());
    bytes.push(0);
}

fn push_utf16(bytes: &mut Vec<u8>, text: &str) {
    let units: Vec<u16> = text.encode_utf16().collect();
    let length = -(units.len() as i32 + 1);
    bytes.extend_from_slice(&length.to_le_bytes());
    for unit in units {
        bytes.extend_from_slice(&unit.to_le_bytes());
    }
    bytes.extend_from_slice(&[0, 0]);
}

fn header_bytes() -> Vec<u8> {
    let mut bytes = Vec::new();
    push_u32(&mut bytes, 14);
    push_u32(&mut bytes, 52);
    push_u32(&mut bytes, 376_353);
    push_latin1(&mut bytes, "Factory");
    push_latin1(&mut bytes, "Persistent_Level");
    push_latin1(&mut bytes, "?startloc=Grass Fields");
    push_utf16(&mut bytes, "Fabrik Ä");
    push_u32(&mut bytes, 7_260);
    push_u64(&mut bytes, 638_000_000_000_000_000);
    bytes.push(1);
    push_u32(&mut bytes, 40);
    push_latin1(&mut bytes, "");
    push_u32(&mut bytes, 0);
    push_latin1(&mut bytes, "abc");
    push_u32(&mut bytes, 1);
    push_u32(&mut bytes, 1);
    push_u64(&mut bytes, 11);
    push_u64(&mut bytes, 22);
    push_u32(&mut bytes, 1);
    bytes
}

#[test]
fn parses_a_save_header() {
    let mut bytes = header_bytes();
    let header_length = bytes.len();
    bytes.extend_from_slice(&[0xC1, 0x83, 0x2A, 0x9E]);
    let (info, offset) = parse_save_file_info(&bytes).expect("header should parse");
    assert_eq!(offset, header_length);
    assert_eq!(info.save_header_type, 14);
    assert_eq!(info.save_version, 52);
    assert_eq!(info.build_version, 376_353);
    assert_eq!(info.save_name, "Factory");
    assert_eq!(info.map_name, "Persistent_Level");
    assert_eq!(info.map_options, "?startloc=Grass Fields");
    assert_eq!(info.session_name, "Fabrik Ä");
    assert_eq!(info.play_duration_in_seconds, 7_260);
    assert_eq!(info.save_date_time_in_ticks, 638_000_000_000_000_000);
    assert_eq!(info.session_visibility, 1);
    assert_eq!(info.editor_object_version, 40);
    assert_eq!(info.mod_metadata, "");
    assert!(!info.is_modded_save);
    assert_eq!(info.save_identifier, "abc");
    assert_eq!(info.save_data_hash, [11, 22]);
    assert!(info.is_creative_mode_enabled);
}

#[test]
fn header_errors_name_the_problem() {
    let bytes = header_bytes();
    assert!(matches!(parse_save_file_info(&bytes[..10]), Err(HeaderError::UnexpectedEnd)));

    let mut wrong_type = bytes.clone();
    wrong_type[0] = 99;
    assert!(matches!(
        parse_save_file_info(&wrong_type),
        Err(HeaderError::UnsupportedHeaderType(99))
    ));

    let mut wrong_version = bytes.clone();
    wrong_version[4] = 7;
    assert!(matches!(
        parse_save_file_info(&wrong_version),
        Err(HeaderError::UnsupportedSaveVersion(7))
    ));

    let tail = bytes.len() - 4;
    let mut wrong_bool = bytes.clone();
    wrong_bool[tail] = 2;
    assert!(matches!(parse_save_file_info(&wrong_bool), Err(HeaderError::InvalidBool(2))));

    let marker = bytes.len() - 4 - 16 - 8;
    let mut wrong_marker = bytes.clone();
    wrong_marker[marker] = 0;
    assert!(matches!(
        parse_save_file_info(&wrong_marker),
        Err(HeaderError::UnexpectedValue { expected: 1, found: 0 })
    ));

    let mut lone_surrogate = Vec::new();
    push_u32(&mut lone_surrogate, 14);
    push_u32(&mut lone_surrogate, 52);
    push_u32(&mut lone_surrogate, 1);
    lone_surrogate.extend_from_slice(&(-2i32).to_le_bytes());
    lone_surrogate.extend_from_slice(&[0x00, 0xD8, 0, 0]);
    assert!(matches!(
        parse_save_file_info(&lone_surrogate),
        Err(HeaderError::InvalidString)
    ));
}

#[test]
fn header_parse_ignores_the_body() {
    let header = header_bytes();
    let mut with_body = header.clone();
    with_body.extend_from_slice(&[1, 2, 3, 4, 5]);
    let (short, short_offset) = parse_save_file_info(&header).expect("header parses");
    let (long, long_offset) = parse_save_file_info(&with_body).expect("header parses");
    assert_eq!(short_offset, long_offset);
    assert_eq!(short.session_name, long.session_name);
    assert_eq!(short.save_data_hash, long.save_data_hash);
}

#[test]
fn power_shards_define_the_expected_overclock_limits() {
    let max_overclock_for_shards = |shards: u8| f32::from(max_overclock_percent(shards)) / 100.0;
    assert_eq!(max_overclock_for_shards(0), 1.0);
    assert_eq!(max_overclock_for_shards(1), 1.5);
    assert_eq!(max_overclock_for_shards(2), 2.0);
    assert_eq!(max_overclock_for_shards(3), 2.5);
    assert_eq!(max_overclock_percent(200), 250);
}
