use satisfactory_map_tracker::annotations::{
    MapAnnotation, MapArrow, MapCircle, MapRectangle, MapStroke, MapText,
};
use satisfactory_map_tracker::map_view::MapView;
use satisfactory_map_tracker::profiles::{ProfileMap, SaveProfiles};
use satisfactory_map_tracker::storage::Language;

fn bits(value: f32) -> u32 {
    value.to_bits()
}

fn rectangle(min_x: f32, max_x: f32) -> MapRectangle {
    MapRectangle {
        min_world_x: bits(min_x),
        min_world_y: bits(0.0),
        max_world_x: bits(max_x),
        max_world_y: bits(10.0),
    }
}

fn circle(radius: f32) -> MapCircle {
    MapCircle { center_world_x: bits(1.0), center_world_y: bits(2.0), radius_world: bits(radius) }
}

fn arrow(end: f32) -> MapArrow {
    MapArrow {
        start_world_x: bits(0.0),
        start_world_y: bits(0.0),
        end_world_x: bits(end),
        end_world_y: bits(end),
    }
}

#[test]
fn a_new_panel_is_idle() {
    let view = MapView::new();
    assert!(!view.rectangle_tool_active());
    assert!(!view.circle_tool_active());
    assert!(!view.arrow_tool_active());
    assert!(!view.text_tool_active());
    assert_eq!(view.unclaimed_miner_tier(), 3);
    assert!(view.resource_summary_stale());
    assert_eq!(view.language(), Language::English);
    let (resource, purity, only_used, only_partial) = view.filter_settings();
    assert_eq!(resource, "__all_resources__");
    assert_eq!(purity, "__all_purities__");
    assert!(!only_used && !only_partial);
    assert!(view.drawing_history().is_empty());
}

#[test]
fn tool_buttons_switch_between_tools() {
    let mut view = MapView::new();
    view.toggle_rectangle_tool();
    assert!(view.rectangle_tool_active());
    view.toggle_circle_tool();
    assert!(view.circle_tool_active());
    assert!(!view.rectangle_tool_active());
    view.toggle_text_tool();
    assert!(view.text_tool_active());
    assert!(!view.circle_tool_active());
    view.toggle_text_tool();
    assert!(!view.text_tool_active());
    view.toggle_arrow_tool();
    view.toggle_arrow_tool();
    let tools = view.tools();
    assert!(!tools.rectangle && !tools.circle && !tools.arrow && !tools.text);
    assert!(tools.drag_start.is_none());
}

#[test]
fn undo_takes_back_the_latest_drawing() {
    let mut view = MapView::new();
    view.add_rectangle(rectangle(0.0, 5.0));
    view.add_circle(circle(3.0));
    view.add_arrow(arrow(4.0));
    assert_eq!(view.drawings().rectangles().len(), 1);
    assert_eq!(view.drawing_history().len(), 3);

    assert!(view.undo_last_rectangle());
    assert!(view.drawings().arrows().is_empty());
    assert!(view.undo_last_rectangle());
    assert!(view.drawings().circles().is_empty());
    assert!(view.undo_last_rectangle());
    assert!(view.drawings().rectangles().is_empty());
    assert!(!view.undo_last_rectangle());
}

#[test]
fn undo_without_history_removes_the_last_rectangle() {
    let mut view = MapView::new();
    view.set_rectangles(vec![rectangle(0.0, 1.0), rectangle(2.0, 3.0)]);
    assert!(view.take_rectangle_save().is_none());
    assert!(view.undo_last_rectangle());
    assert_eq!(view.drawings().rectangles().len(), 1);
    assert_eq!(view.drawings().rectangles()[0], rectangle(0.0, 1.0));
    let saved = view.take_rectangle_save().expect("the removal is to be saved");
    assert_eq!(saved, vec![rectangle(0.0, 1.0)]);
    assert!(view.take_rectangle_save().is_none());
}

#[test]
fn undo_while_drawing_cancels_the_tool() {
    let mut view = MapView::new();
    view.add_rectangle(rectangle(0.0, 5.0));
    view.toggle_rectangle_tool();
    view.begin_drag(Some((bits(1.0), bits(1.0))));
    assert!(view.undo_last_rectangle());
    assert!(!view.rectangle_tool_active());
    assert!(view.tools().drag_start.is_none());
    assert_eq!(view.drawings().rectangles().len(), 1);
}

#[test]
fn the_undo_history_keeps_fifteen_drawings() {
    let mut view = MapView::new();
    for index in 0..20 {
        view.add_rectangle(rectangle(index as f32, index as f32 + 1.0));
    }
    assert_eq!(view.drawing_history().len(), 15);
    match &view.drawing_history()[0] {
        MapAnnotation::Rectangle(first) => assert_eq!(*first, rectangle(5.0, 6.0)),
        other => panic!("unexpected history entry {other:?}"),
    }
    let long: Vec<MapAnnotation> =
        (0..18).map(|index| MapAnnotation::Circle(circle(index as f32))).collect();
    view.set_drawing_history(long);
    assert_eq!(view.drawing_history().len(), 15);
    assert!(view.take_drawing_history_save().is_none());
}

#[test]
fn committed_texts_are_trimmed() {
    let mut view = MapView::new();
    view.toggle_text_tool();
    view.begin_text_edit((bits(7.0), bits(8.0)));
    assert!(!view.text_tool_active());
    view.set_editor_text("  Iron hub  ".to_string());
    view.commit_text_edit();
    assert_eq!(view.drawings().texts().len(), 1);
    assert_eq!(view.drawings().texts()[0].text, "Iron hub");
    assert_eq!(view.drawings().texts()[0].world_x, bits(7.0));
    assert!(view.editor_position().is_none());
    let saved = view.take_text_save().expect("texts are to be saved");
    assert_eq!(saved.len(), 1);

    view.begin_text_edit((bits(1.0), bits(1.0)));
    view.set_editor_text("   ".to_string());
    view.commit_text_edit();
    assert_eq!(view.drawings().texts().len(), 1);
    assert!(view.take_text_save().is_none());
}

#[test]
fn deleting_a_selected_drawing_forgets_its_undo_entry() {
    let mut view = MapView::new();
    view.add_rectangle(rectangle(0.0, 5.0));
    view.add_rectangle(rectangle(6.0, 9.0));
    view.select_rectangle(0, None);
    view.delete_selected_rectangle();
    assert_eq!(view.drawings().rectangles().len(), 1);
    assert_eq!(view.drawing_history().len(), 1);
    assert!(view.selection().rectangle.is_none());

    view.add_circle(circle(2.0));
    view.add_text_for_test();
    view.select_circle(0, Some((bits(3.0), bits(4.0))));
    view.delete_selected_annotation();
    assert!(view.drawings().circles().is_empty());
    assert!(view.selection().popup_position.is_none());
}

trait AddText {
    fn add_text_for_test(&mut self);
}

impl AddText for MapView {
    fn add_text_for_test(&mut self) {
        self.begin_text_edit((bits(0.0), bits(0.0)));
        self.set_editor_text("note".to_string());
        self.commit_text_edit();
    }
}

#[test]
fn moving_a_rectangle_asks_for_a_save() {
    let mut view = MapView::new();
    view.set_rectangles(vec![rectangle(0.0, 2.0)]);
    view.select_rectangle(0, None);
    view.move_selected_rectangle();
    assert_eq!(view.selection().moving_rectangle, Some(0));
    view.set_move_offset(Some((bits(0.5), bits(0.5))));
    view.move_rectangle_to(0, rectangle(10.0, 12.0));
    view.finish_rectangle_move();
    assert!(view.selection().moving_rectangle.is_none());
    assert_eq!(view.take_rectangle_save(), Some(vec![rectangle(10.0, 12.0)]));
}

#[test]
fn escape_closes_one_thing_at_a_time() {
    let mut view = MapView::new();
    view.set_rectangles(vec![rectangle(0.0, 2.0)]);
    view.select_node("node-1".to_string());
    view.mark_allocation_edited();
    view.select_rectangle(0, None);
    view.handle_escape();
    assert!(view.selection().rectangle.is_none());
    assert_eq!(view.selected_node(), Some("node-1"));
    view.handle_escape();
    assert_eq!(view.selected_node(), None);
    assert!(view.take_allocation_save_request());
    assert!(!view.take_allocation_save_request());
}

#[test]
fn leaving_an_edited_node_asks_for_a_save() {
    let mut view = MapView::new();
    view.select_node("a".to_string());
    view.select_node("b".to_string());
    assert!(!view.take_allocation_save_request());
    view.mark_allocation_edited();
    view.select_node("c".to_string());
    assert!(view.take_allocation_save_request());
    view.close_node_popup();
    assert!(!view.take_allocation_save_request());
    view.select_node("d".to_string());
    view.mark_allocation_edited();
    view.close_popup_for_background();
    assert!(view.take_allocation_save_request());
}

#[test]
fn miner_tier_is_clamped() {
    let mut view = MapView::new();
    view.set_resource_summary_stale(false);
    view.set_unclaimed_miner_tier(0);
    assert_eq!(view.unclaimed_miner_tier(), 1);
    assert!(view.resource_summary_stale());
    view.set_resource_summary_stale(false);
    view.set_unclaimed_miner_tier(1);
    assert!(!view.resource_summary_stale());
    view.set_unclaimed_miner_tier(9);
    assert_eq!(view.unclaimed_miner_tier(), 3);
}

#[test]
fn filter_panel_changes_are_reported_once() {
    let mut view = MapView::new();
    view.set_filter_settings("Alle Ressourcen".to_string(), "Pure".to_string(), true, false);
    assert!(!view.take_filter_settings_changed());
    let (resource, purity, only_used, _) = view.filter_settings();
    assert_eq!(resource, "__all_resources__");
    assert_eq!(purity, "Pure");
    assert!(only_used);
    view.apply_filter_panel("__all_resources__".to_string(), "Pure".to_string(), true, false, false);
    assert!(!view.take_filter_settings_changed());
    view.apply_filter_panel("Coal".to_string(), "Pure".to_string(), true, false, true);
    assert!(view.take_filter_settings_changed());
    assert!(!view.take_filter_settings_changed());
    assert!(view.show_grid());
}

#[test]
fn resource_order_is_reconciled_and_reordered() {
    let mut view = MapView::new();
    view.set_resource_order(vec!["Coal".to_string(), "Gone".to_string()]);
    let present = vec!["Bauxite".to_string(), "Coal".to_string()];
    assert!(view.reconcile_resource_order(&present));
    assert_eq!(view.resource_order(), vec!["Coal".to_string(), "Bauxite".to_string()]);
    assert!(!view.reconcile_resource_order(&present));
    assert!(view.move_resource("Bauxite", "Coal"));
    assert_eq!(view.resource_order(), vec!["Bauxite".to_string(), "Coal".to_string()]);
}

#[test]
fn display_switches_and_play_time() {
    let mut view = MapView::new();
    view.set_show_node_names(true);
    view.set_show_rails(true);
    view.set_show_foundations(true);
    view.set_show_belts(true);
    assert!(view.show_node_names() && view.show_rails() && view.show_foundations() && view.show_belts());
    view.set_play_duration_in_seconds(3_600);
    assert_eq!(view.play_duration_in_seconds(), 3_600);
    view.set_language(Language::Spanish);
    assert_eq!(view.language(), Language::Spanish);
}

#[test]
fn notes_saved_for_a_save_are_read_back() {
    let mut profiles = SaveProfiles::new();
    assert_eq!(profiles.active_profile_key(), "__no_save__");
    assert_eq!(profiles.active_miner_tier(), 3);
    profiles.source_path = Some("C:\\Saves\\Base.SAV".to_string());
    assert_eq!(profiles.active_profile_key(), "c:\\saves\\base.sav");
    profiles.save_active_miner_tier(7);
    assert_eq!(profiles.active_miner_tier(), 3);
    profiles.save_active_miner_tier(2);
    assert_eq!(profiles.active_miner_tier(), 2);
    profiles.save_active_rectangles(vec![rectangle(0.0, 1.0)]);
    assert_eq!(profiles.active_rectangles(), vec![rectangle(0.0, 1.0)]);
    profiles.save_active_texts(vec![MapText { world_x: 1, world_y: 2, text: "hub".to_string() }]);
    assert_eq!(profiles.active_texts()[0].text, "hub");
    profiles.save_active_resource_order(vec!["Coal".to_string()]);
    assert_eq!(profiles.active_resource_order(), vec!["Coal".to_string()]);
    profiles.save_active_strokes(vec![MapStroke { points: vec![(1, 2), (3, 4)] }]);
    assert_eq!(profiles.active_strokes()[0].points, vec![(1, 2), (3, 4)]);
    profiles.save_active_drawing_history(vec![MapAnnotation::Arrow(arrow(2.0))]);
    assert_eq!(profiles.active_drawing_history().len(), 1);
    profiles.save_active_circles(vec![circle(1.0)]);
    profiles.save_active_arrows(vec![arrow(1.0)]);

    profiles.source_path = Some("C:\\Saves\\Other.sav".to_string());
    assert!(profiles.active_rectangles().is_empty());
    assert!(profiles.active_circles().is_empty());
    assert!(profiles.active_arrows().is_empty());
    assert_eq!(profiles.active_miner_tier(), 3);

    profiles.source_path = Some("c:\\saves\\base.sav".to_string());
    assert_eq!(profiles.active_circles(), vec![circle(1.0)]);
    assert_eq!(profiles.active_arrows(), vec![arrow(1.0)]);

    profiles.delete_all_notes();
    assert!(profiles.source_path.is_none());
    assert!(profiles.active_rectangles().is_empty());
}

#[test]
fn profile_maps_replace_values() {
    let mut map: ProfileMap<u8> = ProfileMap::new();
    map.insert("a".to_string(), 1);
    map.insert("b".to_string(), 2);
    map.insert("a".to_string(), 3);
    assert_eq!(map.get("a"), Some(&3));
    assert_eq!(map.get("b"), Some(&2));
    assert_eq!(map.get("c"), None);
    assert_eq!(map.entries().len(), 2);
    map.clear();
    assert_eq!(map.get("a"), None);
}

#[test]
fn filters_decide_which_nodes_are_shown() {
    let mut view = MapView::new();
    assert!(view.shows_node("Coal", "Pure", false, false));
    view.set_filter_settings("Coal".to_string(), "Pure".to_string(), true, true);
    assert!(view.shows_node("Coal", "Pure", true, true));
    assert!(!view.shows_node("Iron Ore", "Pure", true, true));
    assert!(!view.shows_node("Coal", "Normal", true, true));
    assert!(!view.shows_node("Coal", "Pure", false, true));
    assert!(!view.shows_node("Coal", "Pure", true, false));
}
