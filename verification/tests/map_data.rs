use satisfactory_map_tracker::map::purity_percent;
use satisfactory_map_tracker::foundation::{foundation_outlines, simplify_outline};
use satisfactory_map_tracker::map::{
    claimed_background_rgb, extraction_method_label, extractor_normal_rate, miner_base_rate,
    move_resource, normalize_purity_filter, normalize_resource_filter, occupancy_rgb, purity_rgb,
    reconcile_resource_order, resource_icon_files, short_type_name, ALL_PURITY_FILTER,
    ALL_RESOURCES_FILTER,
};
use satisfactory_map_tracker::storage::Language;
use satisfactory_map_tracker::timing::{auto_refresh, loading_frame_index, AutoRefresh};
use satisfactory_map_tracker::world_data::{
    capitalize, display_name_from_descriptor, extraction_method, ExtractionMethod,
};

fn strings(items: &[&str]) -> Vec<String> {
    items.iter().map(|item| item.to_string()).collect()
}

/// A square foundation of `size` world units at `min_x`, in the grid of
/// hundredths of a unit that the outline tracing works on.
fn square(min_x: i64, size: i64) -> [(i64, i64); 4] {
    let x = min_x * 100;
    let s = size * 100;
    [(x, 0), (x + s, 0), (x + s, s), (x, s)]
}

#[test]
fn foundation_clusters_merge_neighbouring_areas() {
    let quads = vec![square(0, 8_000), square(8_000, 8_000)];
    let contours = foundation_outlines(&quads);
    assert_eq!(contours.len(), 1);
    let corners = simplify_outline(&contours[0]);
    assert_eq!(corners.len(), 4);
    let xs: Vec<i64> = corners.iter().map(|point| point.0).collect();
    assert_eq!(*xs.iter().min().unwrap(), 0);
    assert_eq!(*xs.iter().max().unwrap(), 1_600_000);
}

#[test]
fn foundation_clusters_keep_separate_areas_separate() {
    let quads = vec![square(0, 1_000), square(5_000, 1_000)];
    let contours = foundation_outlines(&quads);
    assert_eq!(contours.len(), 2);
}

#[test]
fn a_single_foundation_is_its_own_outline() {
    let contours = foundation_outlines(&vec![square(0, 800)]);
    assert_eq!(contours.len(), 1);
    assert_eq!(contours[0].len(), 4);
    assert!(foundation_outlines(&vec![]).is_empty());
}

#[test]
fn occupancy_ring_uses_requested_colors() {
    assert_eq!(occupancy_rgb(false), (0xB9, 0xC2, 0xC6));
    assert_eq!(occupancy_rgb(true), (0x08, 0xC4, 0x62));
    assert_eq!(claimed_background_rgb(false), (0x7A, 0x88, 0x95));
    assert_eq!(claimed_background_rgb(true), (0x34, 0x3F, 0x49));
}

#[test]
fn purity_colors_and_rates() {
    assert_eq!(purity_rgb("Pure"), (0x09, 0xE5, 0x89));
    assert_eq!(purity_rgb("Impure"), (0xEA, 0x6E, 0x7F));
    assert_eq!(purity_rgb("Normal"), (0xEA, 0xD5, 0x6E));
    assert_eq!(miner_base_rate(1), 60);
    assert_eq!(miner_base_rate(2), 120);
    assert_eq!(miner_base_rate(3), 240);
    assert_eq!(miner_base_rate(9), 240);
    assert_eq!(extractor_normal_rate("/Game/Build_OilPump.Build_OilPump_C"), 120);
    assert_eq!(extractor_normal_rate("/Game/Build_FrackingExtractor.Build_FrackingExtractor_C"), 60);
    assert_eq!(extractor_normal_rate("/Game/Build_FrackingSmasher.Build_FrackingSmasher_C"), 0);
    assert_eq!(extractor_normal_rate("/Game/Build_MinerMk3.Build_MinerMk3_C"), 240);
    assert_eq!(extractor_normal_rate("/Game/Build_MinerMk2.Build_MinerMk2_C"), 120);
    assert_eq!(extractor_normal_rate("/Game/Build_MinerMk1.Build_MinerMk1_C"), 60);
}

#[test]
fn filters_accept_the_old_localized_labels() {
    assert_eq!(normalize_resource_filter("alle ressourcen"), ALL_RESOURCES_FILTER);
    assert_eq!(normalize_resource_filter("TODOS LOS RECURSOS"), ALL_RESOURCES_FILTER);
    assert_eq!(normalize_resource_filter(ALL_RESOURCES_FILTER), ALL_RESOURCES_FILTER);
    assert_eq!(normalize_resource_filter("Iron Ore"), "Iron Ore");
    assert_eq!(normalize_purity_filter("All purities"), ALL_PURITY_FILTER);
    assert_eq!(normalize_purity_filter("Toutes les puretés"), ALL_PURITY_FILTER);
    assert_eq!(normalize_purity_filter("Pure"), "Pure");
    let once = normalize_resource_filter("Alle Ressourcen");
    assert_eq!(normalize_resource_filter(&once), once);
}

#[test]
fn short_type_names_and_icons() {
    assert_eq!(short_type_name("/Game/FactoryGame/Build_MinerMk1.Build_MinerMk1_C"), "Build_MinerMk1.Build_MinerMk1_C");
    assert_eq!(short_type_name("NoSlash"), "NoSlash");
    assert_eq!(short_type_name("ends/"), "");
    let icons = resource_icon_files();
    assert_eq!(icons.len(), 13);
    assert_eq!(icons[9], ("SAM", "SAM_Ore.webp"));
}

#[test]
fn resource_order_follows_the_summary() {
    let order = strings(&["Coal", "Gone", "Iron Ore"]);
    let present = strings(&["Bauxite", "Coal", "Iron Ore"]);
    assert_eq!(
        reconcile_resource_order(&order, &present),
        strings(&["Coal", "Iron Ore", "Bauxite"])
    );
    assert_eq!(
        reconcile_resource_order(&vec![], &present),
        present
    );
}

#[test]
fn dragging_a_resource_moves_it_before_the_target() {
    let mut order = strings(&["A", "B", "C", "D"]);
    assert!(move_resource(&mut order, "D", "B"));
    assert_eq!(order, strings(&["A", "D", "B", "C"]));
    assert!(move_resource(&mut order, "A", "C"));
    assert_eq!(order, strings(&["D", "B", "A", "C"]));
    assert!(!move_resource(&mut order, "X", "C"));
    assert_eq!(order, strings(&["D", "B", "A", "C"]));
}

#[test]
fn extraction_methods_of_the_world_table() {
    assert_eq!(extraction_method("Nitrogen Gas", "frackingSatellite"), ExtractionMethod::ResourceWellExtractor);
    assert_eq!(extraction_method("Water", "frackingCore"), ExtractionMethod::ResourceWellCore);
    assert_eq!(extraction_method("Iron Ore", "deposit"), ExtractionMethod::ManualDeposit);
    assert_eq!(extraction_method("Crude Oil", "node"), ExtractionMethod::OilExtractor);
    assert_eq!(extraction_method("Coal", "node"), ExtractionMethod::Miner);
    assert_eq!(ExtractionMethod::default(), ExtractionMethod::Miner);
    assert_eq!(
        extraction_method_label(ExtractionMethod::ResourceWellCore, Language::German),
        "Resource Well Pressurizer"
    );
}

#[test]
fn descriptor_names_become_display_names() {
    assert_eq!(display_name_from_descriptor("Desc_OreIron_C"), " OreIron");
    assert_eq!(display_name_from_descriptor("Desc_Coal_C"), "Coal");
    assert_eq!(display_name_from_descriptor("Stone"), "Stone");
    assert_eq!(capitalize("iron"), "Iron");
    assert_eq!(capitalize("ärger"), "Ärger");
    assert_eq!(capitalize(""), "");
}

#[test]
fn loading_animation_loops_over_its_frames() {
    let frames = vec![100_u128, 0, 50];
    assert_eq!(loading_frame_index(&frames, 0), 0);
    assert_eq!(loading_frame_index(&frames, 99), 0);
    assert_eq!(loading_frame_index(&frames, 100), 1);
    assert_eq!(loading_frame_index(&frames, 101), 2);
    assert_eq!(loading_frame_index(&frames, 150), 2);
    assert_eq!(loading_frame_index(&frames, 151), 0);
    assert_eq!(loading_frame_index(&vec![5], 1_000), 0);
    assert_eq!(loading_frame_index(&vec![], 1_000), 0);
}

#[test]
fn automatic_refresh_waits_for_its_interval() {
    let minute: u128 = 60_000_000_000;
    assert_eq!(auto_refresh(false, 5, 10 * minute, false), AutoRefresh::NoSource);
    assert_eq!(auto_refresh(true, 5, 5 * minute, false), AutoRefresh::Due);
    assert_eq!(auto_refresh(true, 5, 5 * minute, true), AutoRefresh::WaitNanos(0));
    assert_eq!(auto_refresh(true, 0, minute, false), AutoRefresh::Due);
    assert_eq!(auto_refresh(true, 5, minute, false), AutoRefresh::WaitNanos(1_000_000_000));
    assert_eq!(
        auto_refresh(true, 1, minute - 400_000_000, false),
        AutoRefresh::WaitNanos(400_000_000)
    );
}

#[test]
fn purity_scales_the_yield() {
    assert_eq!(purity_percent("Impure"), 50);
    assert_eq!(purity_percent("Pure"), 200);
    assert_eq!(purity_percent("Normal"), 100);
    assert_eq!(purity_percent("pure"), 100);
}

#[test]
fn straight_runs_of_an_outline_are_dropped() {
    let outline = vec![(0, 0), (50, 0), (100, 0), (100, 100), (0, 100)];
    assert_eq!(simplify_outline(&outline), vec![(0, 0), (100, 0), (100, 100), (0, 100)]);
    let flat = vec![(0, 0), (5, 0), (10, 0)];
    assert_eq!(simplify_outline(&flat), flat);
    let short = vec![(0, 0), (1, 1)];
    assert_eq!(simplify_outline(&short), short);
}
