use satisfactory_map_tracker::storage::{
    allocation_profile_key, current_state_version, default_pause_map_when_unfocused,
    default_purity_filter, default_resource_filter, default_show_annotations,
    default_show_node_names, no_save_profile_key, refresh_outcome, save_extension_accepted,
    startup_copy_needed, startup_diff, state_schema_migration, DiffSummary, Language,
    RefreshResult, SaveSnapshot, SaveState, CURRENT_STATE_VERSION,
};

#[test]
fn diff_counts_changed_bytes_and_ranges() {
    let old = [0_u8, 1, 2, 3, 4, 5, 6];
    let new = [0_u8, 9, 8, 3, 4, 7, 6, 10];

    let diff = DiffSummary::between(&old, &new);

    assert_eq!(diff.changed_bytes, 4);
    assert_eq!(diff.changed_ranges, 3);
    assert_eq!(diff.first_changed_offset, Some(1));
}

#[test]
fn identical_files_have_empty_diff() {
    let data = [1_u8, 2, 3];
    let diff = DiffSummary::between(&data, &data);

    assert_eq!(diff.changed_bytes, 0);
    assert_eq!(diff.changed_ranges, 0);
    assert_eq!(diff.first_changed_offset, None);
}

#[test]
fn diff_is_the_same_in_both_directions() {
    let a = [5_u8, 5, 5, 5];
    let b = [5_u8, 6, 5];
    let forward = DiffSummary::between(&a, &b);
    let backward = DiffSummary::between(&b, &a);
    assert_eq!(forward.changed_bytes, 2);
    assert_eq!(forward.changed_ranges, 2);
    assert_eq!(forward.first_changed_offset, Some(1));
    assert_eq!(backward.changed_bytes, forward.changed_bytes);
    assert_eq!(backward.changed_ranges, forward.changed_ranges);
    assert_eq!(backward.first_changed_offset, forward.first_changed_offset);
}

#[test]
fn diff_against_an_empty_file_counts_every_byte() {
    let diff = DiffSummary::between(&[], &[1_u8, 2, 3]);
    assert_eq!(diff.changed_bytes, 3);
    assert_eq!(diff.changed_ranges, 1);
    assert_eq!(diff.first_changed_offset, Some(0));
}

#[test]
fn snapshots_carry_length_and_sha256() {
    let snapshot = SaveSnapshot::from_bytes("save.sav".to_string(), b"abc");
    assert_eq!(snapshot.file_name, "save.sav");
    assert_eq!(snapshot.byte_length, 3);
    assert_eq!(
        snapshot.sha256,
        "ba7816bf8f01cfea414140de5dae2223b00361a396177a9cb410ff61f20015ad"
    );
    let empty = SaveSnapshot::from_bytes("empty.sav".to_string(), b"");
    assert_eq!(
        empty.sha256,
        "e3b0c44298fc1c149afbf4c8996fb92427ae41e4649b934ca495991b7852b855"
    );
    assert!(snapshot.same_as(&SaveSnapshot::from_bytes("save.sav".to_string(), b"abc")));
    assert!(!snapshot.same_as(&SaveSnapshot::from_bytes("save.sav".to_string(), b"abd")));
    assert!(!snapshot.same_as(&SaveSnapshot::from_bytes("other.sav".to_string(), b"abc")));
}

#[test]
fn refresh_reports_unchanged_and_updated_saves() {
    let current = Some(SaveSnapshot::from_bytes("save.sav".to_string(), &[1, 2, 3]));
    let same = SaveSnapshot::from_bytes("save.sav".to_string(), &[1, 2, 3]);
    assert!(matches!(
        refresh_outcome(&current, &same, &[1, 2, 3], &[1, 2, 3]),
        RefreshResult::Unchanged
    ));
    let changed = SaveSnapshot::from_bytes("save.sav".to_string(), &[1, 9, 3]);
    match refresh_outcome(&current, &changed, &[1, 2, 3], &[1, 9, 3]) {
        RefreshResult::Updated(diff) => {
            assert_eq!(diff.changed_bytes, 1);
            assert_eq!(diff.changed_ranges, 1);
            assert_eq!(diff.first_changed_offset, Some(1));
        }
        RefreshResult::Unchanged => panic!("a changed save must be reported as updated"),
    }
    assert!(matches!(
        refresh_outcome(&None, &same, &[1, 2, 3], &[1, 2, 3]),
        RefreshResult::Updated(_)
    ));
}

#[test]
fn startup_diff_is_empty_without_a_stored_copy() {
    let diff = startup_diff(&[], &[1, 2]);
    assert_eq!(diff.changed_bytes, 0);
    assert_eq!(diff.changed_ranges, 0);
    assert_eq!(diff.first_changed_offset, None);
    let diff = startup_diff(&[1, 2], &[1, 3]);
    assert_eq!(diff.changed_bytes, 1);
}

#[test]
fn unversioned_state_is_upgraded_to_current_schema() {
    let (version, migrated) = state_schema_migration(None, None);
    assert!(migrated);
    assert_eq!(version, 1);
    assert_eq!(current_state_version(), CURRENT_STATE_VERSION);
}

#[test]
fn state_versions_are_read_from_either_field() {
    assert_eq!(state_schema_migration(Some(Some(2)), None), (2, false));
    assert_eq!(state_schema_migration(Some(Some(999)), None), (999, true));
    assert_eq!(state_schema_migration(None, Some(Some(2))), (2, true));
    assert_eq!(state_schema_migration(Some(None), Some(Some(2))), (1, true));
    assert_eq!(
        state_schema_migration(Some(Some(u64::MAX)), None),
        (u32::MAX, true)
    );
}

#[test]
fn profile_keys_follow_the_save_path() {
    assert_eq!(
        allocation_profile_key("C:\\Saves\\Factory_AUTOSAVE.sav"),
        "c:\\saves\\factory_autosave.sav"
    );
    assert_eq!(no_save_profile_key(), "__no_save__");
}

#[test]
fn new_settings_defaults() {
    assert!(!default_show_node_names());
    assert!(default_pause_map_when_unfocused());
    assert!(default_show_annotations());
    assert_eq!(default_resource_filter(), "Alle Ressourcen");
    assert_eq!(default_purity_filter(), "Alle Reinheiten");
    assert_eq!(Language::default(), Language::English);
    assert_eq!(Language::French.native_name(), "Français");
    assert_eq!(Language::German.native_name(), "Deutsch");
}

#[test]
fn only_sav_files_are_accepted() {
    assert!(save_extension_accepted(Some("sav")));
    assert!(save_extension_accepted(Some("SAV")));
    assert!(save_extension_accepted(Some("Sav")));
    assert!(!save_extension_accepted(Some("json")));
    assert!(!save_extension_accepted(Some("")));
    assert!(!save_extension_accepted(None));
}

#[test]
fn the_stored_copy_is_renewed_when_the_save_changed_or_is_missing() {
    let current = Some(SaveSnapshot::from_bytes("a.sav".to_string(), &[1, 2]));
    let same = SaveSnapshot::from_bytes("a.sav".to_string(), &[1, 2]);
    let changed = SaveSnapshot::from_bytes("a.sav".to_string(), &[1, 3]);
    assert!(!startup_copy_needed(&current, &same, true));
    assert!(startup_copy_needed(&current, &same, false));
    assert!(startup_copy_needed(&current, &changed, true));
    assert!(startup_copy_needed(&None, &same, true));
}

#[test]
fn tracked_save_keeps_its_previous_snapshot() {
    let mut state = SaveState::new();
    let first = SaveSnapshot::from_bytes("a.sav".to_string(), &[1]);
    let second = SaveSnapshot::from_bytes("a.sav".to_string(), &[2]);
    state.install("C:\\a.sav".to_string(), first.clone());
    assert_eq!(state.source_path.as_deref(), Some("C:\\a.sav"));
    assert!(state.previous_snapshot.is_none());
    assert!(state.last_diff.is_none());
    let diff = DiffSummary::between(&[1], &[2]);
    state.record_update(second.clone(), diff);
    assert!(state.current_snapshot.as_ref().unwrap().same_as(&second));
    assert!(state.previous_snapshot.as_ref().unwrap().same_as(&first));
    assert_eq!(state.last_diff.unwrap().changed_bytes, 1);
    assert!(matches!(
        refresh_outcome(&state.current_snapshot, &second, &[2], &[2]),
        RefreshResult::Unchanged
    ));
    state.clear();
    assert!(state.source_path.is_none());
    assert!(state.current_snapshot.is_none());
    assert!(state.previous_snapshot.is_none());
    assert!(state.last_diff.is_none());
}
