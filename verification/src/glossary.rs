//! The interface texts of each language on their own: one glossary per
//! language, and the laws that the dictionary lookup gives, for every key,
//! the glossary text of the chosen language.

use crate::localization::{spec_text, text_entries_0, text_entries_1, text_entries_2,
    text_entries_3, text_entries_4, text_entries_5, text_entries_6, text_entries_7};
use crate::storage::Language;
use vstd::prelude::*;

verus! {

/// English texts, part 1.
pub open spec fn english_glossary_0(key: Seq<char>) -> Option<Seq<char>> {
    if key == "ready"@ {
        Some("Ready"@)
    } else if key == "loading"@ {
        Some("Loading…"@)
    } else if key == "save_stored"@ {
        Some("New savegame stored"@)
    } else if key == "no_changes"@ {
        Some("No changes found"@)
    } else if key == "analyzing_save"@ {
        Some("Analyzing savegame …"@)
    } else if key == "save_analyzed"@ {
        Some("Savegame analyzed"@)
    } else if key == "analysis_failed"@ {
        Some("Savegame could not be analyzed"@)
    } else if key == "analysis_stopped"@ {
        Some("Savegame analysis stopped"@)
    } else if key == "save_updated"@ {
        Some("Savegame updated"@)
    } else if key == "node_data_saved"@ {
        Some("Node data saved"@)
    } else if key == "initialization_failed"@ {
        Some("Initialization failed"@)
    } else if key == "upload_save"@ {
        Some("↑  Upload savegame"@)
    } else if key == "refresh"@ {
        Some("↻  Refresh"@)
    } else if key == "remove_save"@ {
        Some("×  Remove savegame"@)
    } else if key == "settings"@ {
        Some("Settings"@)
    } else if key == "settings_application"@ {
        Some("Application"@)
    } else if key == "settings_map"@ {
        Some("Map & nodes"@)
    } else if key == "settings_display"@ {
        Some("Display & performance"@)
    } else if key == "settings_testing"@ {
        Some("Testing stuff"@)
    } else if key == "language"@ {
        Some("Language"@)
    } else {
        None
    }
}

/// English texts, part 2.
pub open spec fn english_glossary_1(key: Seq<char>) -> Option<Seq<char>> {
    if key == "node_names"@ {
        Some("Show node names"@)
    } else if key == "debug_mode"@ {
        Some("Debug mode"@)
    } else if key == "pause_background"@ {
        Some("Do not render map when unfocused"@)
    } else if key == "auto_refresh"@ {
        Some("Auto-refresh (minutes)"@)
    } else if key == "analysis_duration"@ {
        Some("Analysis"@)
    } else if key == "last_updated"@ {
        Some("Last update"@)
    } else if key == "show_annotations"@ {
        Some("Show drawings and shapes"@)
    } else if key == "more"@ {
        Some("More"@)
    } else if key == "delete_all_smt_notes"@ {
        Some("Delete All SMT Notes"@)
    } else if key == "delete_all_smt_notes_title"@ {
        Some("Delete All SMT Notes?"@)
    } else if key == "delete_all_smt_notes_warning"@ {
        Some("This removes all SMT data for every savegame and unloads the current save. Original Satisfactory save files are not modified."@)
    } else if key == "delete_all_smt_notes_confirm"@ {
        Some("Delete everything"@)
    } else if key == "cancel"@ {
        Some("Cancel"@)
    } else if key == "rails_wip"@ {
        Some("Show rails"@)
    } else if key == "show_foundations"@ {
        Some("Show foundations"@)
    } else if key == "show_belts"@ {
        Some("Show belts"@)
    } else if key == "node_size"@ {
        Some("Node size"@)
    } else if key == "background_throttle"@ {
        Some("Rendering is automatically throttled in the background."@)
    } else if key == "map_panel"@ {
        Some("Map panel"@)
    } else if key == "panel_open_hint"@ {
        Some("Move the cursor to the right edge to open."@)
    } else {
        None
    }
}

/// English texts, part 3.
pub open spec fn english_glossary_2(key: Seq<char>) -> Option<Seq<char>> {
    if key == "close_panel"@ {
        Some("×  Close panel"@)
    } else if key == "resource_nodes"@ {
        Some("Resource nodes"@)
    } else if key == "nodes"@ {
        Some("nodes"@)
    } else if key == "nodes_loaded"@ {
        Some("nodes loaded"@)
    } else if key == "visible_nodes"@ {
        Some("visible nodes"@)
    } else if key == "remaining_short"@ {
        Some("remaining"@)
    } else if key == "zoom"@ {
        Some("Zoom"@)
    } else if key == "cursor_world"@ {
        Some("Cursor · World"@)
    } else if key == "rails"@ {
        Some("rails"@)
    } else if key == "foundation_count"@ {
        Some("foundations"@)
    } else if key == "belt_count"@ {
        Some("belts"@)
    } else if key == "belts"@ {
        Some("belts"@)
    } else if key == "claimed_nodes"@ {
        Some("claimed nodes"@)
    } else if key == "belts_laid"@ {
        Some("Belts laid"@)
    } else if key == "rails_laid"@ {
        Some("Rails laid"@)
    } else if key == "playtime"@ {
        Some("Playtime"@)
    } else if key == "save_file"@ {
        Some("Save"@)
    } else if key == "max_unclaimed"@ {
        Some("Maximum capacity of unclaimed nodes"@)
    } else if key == "unclaimed_hint"@ {
        Some("Unclaimed nodes use the selected miner at the maximum 250% clock."@)
    } else if key == "panel_resize_hint"@ {
        Some("Drag the left edge to resize. Push it to the right edge to close."@)
    } else {
        None
    }
}

/// English texts, part 4.
pub open spec fn english_glossary_3(key: Seq<char>) -> Option<Seq<char>> {
    if key == "app_title"@ {
        Some("Satisfactory Map Tracker"@)
    } else if key == "draw_rectangle"@ {
        Some("▭  Draw rectangle"@)
    } else if key == "drawing_toolbar"@ {
        Some("Draw"@)
    } else if key == "tool_rectangle"@ {
        Some("Rectangle"@)
    } else if key == "cancel_rectangle"@ {
        Some("×  Cancel drawing"@)
    } else if key == "draw_circle"@ {
        Some("○  Draw circle"@)
    } else if key == "tool_circle"@ {
        Some("Circle"@)
    } else if key == "cancel_circle"@ {
        Some("×  Cancel circle"@)
    } else if key == "draw_arrow"@ {
        Some("➜  Draw arrow"@)
    } else if key == "tool_arrow"@ {
        Some("Arrow"@)
    } else if key == "cancel_arrow"@ {
        Some("×  Cancel arrow"@)
    } else if key == "draw_ruler"@ {
        Some("⌁  Ruler"@)
    } else if key == "tool_ruler"@ {
        Some("Ruler"@)
    } else if key == "cancel_ruler"@ {
        Some("×  Stop ruler"@)
    } else if key == "draw_text"@ {
        Some("T  Add text"@)
    } else if key == "tool_text"@ {
        Some("Text"@)
    } else if key == "cancel_text"@ {
        Some("×  Cancel text"@)
    } else if key == "draw_pen"@ {
        Some("✎  Draw"@)
    } else if key == "tool_pen"@ {
        Some("Pen"@)
    } else if key == "cancel_pen"@ {
        Some("×  Stop pen"@)
    } else {
        None
    }
}

/// English texts, part 5.
pub open spec fn english_glossary_4(key: Seq<char>) -> Option<Seq<char>> {
    if key == "draw_eraser"@ {
        Some("⌫  Eraser"@)
    } else if key == "tool_eraser"@ {
        Some("Eraser"@)
    } else if key == "cancel_eraser"@ {
        Some("×  Stop eraser"@)
    } else if key == "text_label"@ {
        Some("Text"@)
    } else if key == "save_text"@ {
        Some("Save"@)
    } else if key == "cancel_text_edit"@ {
        Some("Cancel"@)
    } else if key == "rectangle"@ {
        Some("Rectangle"@)
    } else if key == "circle"@ {
        Some("Circle"@)
    } else if key == "arrow"@ {
        Some("Arrow"@)
    } else if key == "ruler"@ {
        Some("Ruler"@)
    } else if key == "distance"@ {
        Some("Distance"@)
    } else if key == "delete_annotation"@ {
        Some("Delete drawing"@)
    } else if key == "move_annotation"@ {
        Some("Move"@)
    } else if key == "move_rectangle"@ {
        Some("Move"@)
    } else if key == "delete_rectangle"@ {
        Some("Delete"@)
    } else if key == "error"@ {
        Some("Error"@)
    } else if key == "not_initialized"@ {
        Some("The application could not be initialized."@)
    } else if key == "no_save"@ {
        Some("No Satisfactory savegame selected."@)
    } else if key == "upload_hint"@ {
        Some("Please upload a savegame above."@)
    } else if key == "map_paused"@ {
        Some("Map rendering is paused while the window is in the background."@)
    } else {
        None
    }
}

/// English texts, part 6.
pub open spec fn english_glossary_5(key: Seq<char>) -> Option<Seq<char>> {
    if key == "change_in_settings"@ {
        Some("(Can be changed in Settings)"@)
    } else if key == "save_status"@ {
        Some("Savegame status"@)
    } else if key == "no_saved_save"@ {
        Some("No savegame stored yet."@)
    } else if key == "local_copy"@ {
        Some("Local copy"@)
    } else if key == "resource_remaining"@ {
        Some("Resources used"@)
    } else if key == "no_extractors"@ {
        Some("No placed extractor data loaded yet."@)
    } else if key == "available_per_minute"@ {
        Some("available per minute"@)
    } else if key == "not_fully_used"@ {
        Some("not fully used"@)
    } else if key == "resource"@ {
        Some("Resource"@)
    } else if key == "purity"@ {
        Some("Purity"@)
    } else if key == "all_resources"@ {
        Some("All resources"@)
    } else if key == "no_resources_selected"@ {
        Some("No resources selected"@)
    } else if key == "resources_selected"@ {
        Some("selected"@)
    } else if key == "activate_all"@ {
        Some("Activate all"@)
    } else if key == "deactivate_all"@ {
        Some("Deactivate all"@)
    } else if key == "all_purities"@ {
        Some("All purities"@)
    } else if key == "claimed_only"@ {
        Some("Claimed nodes only"@)
    } else if key == "partial_only"@ {
        Some("Partially used nodes only"@)
    } else if key == "planned_only"@ {
        Some("Planned nodes only"@)
    } else if key == "grid"@ {
        Some("Show coordinate grid"@)
    } else {
        None
    }
}

/// English texts, part 7.
pub open spec fn english_glossary_6(key: Seq<char>) -> Option<Seq<char>> {
    if key == "detailed_png_map"@ {
        Some("Use detailed PNG map"@)
    } else if key == "world_data_hint"@ {
        Some("The map and positions come from local world data."@)
    } else if key == "reset_view"@ {
        Some("Reset view"@)
    } else if key == "close"@ {
        Some("Close"@)
    } else if key == "usage"@ {
        Some("Usage"@)
    } else if key == "note"@ {
        Some("Note"@)
    } else if key == "yield"@ {
        Some("Yield"@)
    } else if key == "theoretical_yield"@ {
        Some("Theoretical miner yield"@)
    } else if key == "maximum_settable"@ {
        Some("Maximum settable"@)
    } else if key == "max_value"@ {
        Some("Max"@)
    } else if key == "max_possible"@ {
        Some("Max possible"@)
    } else if key == "powershards_clock"@ {
        Some("Powershards"@)
    } else if key == "used_per_minute"@ {
        Some("used per minute"@)
    } else if key == "free_per_minute"@ {
        Some("Free"@)
    } else if key == "occupancy"@ {
        Some("Occupancy"@)
    } else if key == "node_id"@ {
        Some("Node ID"@)
    } else if key == "world"@ {
        Some("World"@)
    } else if key == "extractor_unknown"@ {
        Some("Extractor not found in savegame"@)
    } else if key == "method"@ {
        Some("Method"@)
    } else if key == "rate_per_satellite"@ {
        Some("Rate applies per resource-well satellite."@)
    } else {
        None
    }
}

/// English texts, part 8.
pub open spec fn english_glossary_7(key: Seq<char>) -> Option<Seq<char>> {
    if key == "well_core"@ {
        Some("Central resource-well core"@)
    } else if key == "well_yield_hint"@ {
        Some("Yield comes from the connected satellite nodes."@)
    } else if key == "manual_deposit"@ {
        Some("Manual deposit – no miner extractor"@)
    } else if key == "your_entry"@ {
        Some("Your entry"@)
    } else if key == "satellite_usage"@ {
        Some("Usage"@)
    } else if key == "oil_extractor"@ {
        Some("Oil Extractor"@)
    } else if key == "well_extractor"@ {
        Some("Resource Well Extractor"@)
    } else if key == "miner"@ {
        Some("Miner"@)
    } else if key == "theoretical"@ {
        Some("Theoretical"@)
    } else if key == "output"@ {
        Some("Output"@)
    } else if key == "satellites_total"@ {
        Some("Total satellites"@)
    } else if key == "satellites_in_well"@ {
        Some("satellites in well"@)
    } else if key == "claimed"@ {
        Some("●  Claimed"@)
    } else if key == "unclaimed"@ {
        Some("○  Unclaimed"@)
    } else {
        None
    }
}

/// The English text of `key`; unknown keys have an empty text.
pub open spec fn english_glossary(key: Seq<char>) -> Seq<char> {
    if english_glossary_0(key) is Some {
        english_glossary_0(key)->Some_0
    } else if english_glossary_1(key) is Some {
        english_glossary_1(key)->Some_0
    } else if english_glossary_2(key) is Some {
        english_glossary_2(key)->Some_0
    } else if english_glossary_3(key) is Some {
        english_glossary_3(key)->Some_0
    } else if english_glossary_4(key) is Some {
        english_glossary_4(key)->Some_0
    } else if english_glossary_5(key) is Some {
        english_glossary_5(key)->Some_0
    } else if english_glossary_6(key) is Some {
        english_glossary_6(key)->Some_0
    } else if english_glossary_7(key) is Some {
        english_glossary_7(key)->Some_0
    } else {
        Seq::empty()
    }
}

/// German texts, part 1.
pub open spec fn german_glossary_0(key: Seq<char>) -> Option<Seq<char>> {
    if key == "ready"@ {
        Some("Bereit"@)
    } else if key == "loading"@ {
        Some("Laden…"@)
    } else if key == "save_stored"@ {
        Some("Neues Savegame gespeichert"@)
    } else if key == "no_changes"@ {
        Some("Keine Änderungen gefunden"@)
    } else if key == "analyzing_save"@ {
        Some("Savegame wird analysiert …"@)
    } else if key == "save_analyzed"@ {
        Some("Savegame analysiert"@)
    } else if key == "analysis_failed"@ {
        Some("Savegame konnte nicht analysiert werden"@)
    } else if key == "analysis_stopped"@ {
        Some("Savegame-Analyse wurde beendet"@)
    } else if key == "save_updated"@ {
        Some("Savegame aktualisiert"@)
    } else if key == "node_data_saved"@ {
        Some("Node-Daten gespeichert"@)
    } else if key == "initialization_failed"@ {
        Some("Initialisierung fehlgeschlagen"@)
    } else if key == "upload_save"@ {
        Some("↑  Savegame hochladen"@)
    } else if key == "refresh"@ {
        Some("↻  Refresh"@)
    } else if key == "remove_save"@ {
        Some("×  Savegame entfernen"@)
    } else if key == "settings"@ {
        Some("Einstellungen"@)
    } else if key == "settings_application"@ {
        Some("Anwendung"@)
    } else if key == "settings_map"@ {
        Some("Karte & Nodes"@)
    } else if key == "settings_display"@ {
        Some("Darstellung & Performance"@)
    } else if key == "settings_testing"@ {
        Some("Testing stuff"@)
    } else if key == "language"@ {
        Some("Sprache"@)
    } else {
        None
    }
}

/// German texts, part 2.
pub open spec fn german_glossary_1(key: Seq<char>) -> Option<Seq<char>> {
    if key == "node_names"@ {
        Some("Node-Namen anzeigen"@)
    } else if key == "debug_mode"@ {
        Some("Debug-Modus"@)
    } else if key == "pause_background"@ {
        Some("Map bei Alt-Tab nicht rendern"@)
    } else if key == "auto_refresh"@ {
        Some("Auto-Refresh (Minuten)"@)
    } else if key == "analysis_duration"@ {
        Some("Analyse"@)
    } else if key == "last_updated"@ {
        Some("Letzte Aktualisierung"@)
    } else if key == "show_annotations"@ {
        Some("Gemaltes und Formen anzeigen"@)
    } else if key == "more"@ {
        Some("Mehr"@)
    } else if key == "delete_all_smt_notes"@ {
        Some("Alle SMT-Notizen löschen"@)
    } else if key == "delete_all_smt_notes_title"@ {
        Some("Alle SMT-Notizen löschen?"@)
    } else if key == "delete_all_smt_notes_warning"@ {
        Some("Dadurch werden alle SMT-Daten für jedes Savegame gelöscht und das aktuelle Savegame entladen. Originale Satisfactory-Savegames werden nicht verändert."@)
    } else if key == "delete_all_smt_notes_confirm"@ {
        Some("Alles löschen"@)
    } else if key == "cancel"@ {
        Some("Abbrechen"@)
    } else if key == "rails_wip"@ {
        Some("Rails anzeigen"@)
    } else if key == "show_foundations"@ {
        Some("Foundations anzeigen"@)
    } else if key == "show_belts"@ {
        Some("Belts anzeigen"@)
    } else if key == "node_size"@ {
        Some("Node-Größe"@)
    } else if key == "background_throttle"@ {
        Some("Im Hintergrund wird die Darstellung automatisch gedrosselt."@)
    } else if key == "map_panel"@ {
        Some("Map-Panel"@)
    } else if key == "panel_open_hint"@ {
        Some("Zum Öffnen den Cursor an den rechten Fensterrand bewegen."@)
    } else {
        None
    }
}

/// German texts, part 3.
pub open spec fn german_glossary_2(key: Seq<char>) -> Option<Seq<char>> {
    if key == "close_panel"@ {
        Some("×  Panel schließen"@)
    } else if key == "resource_nodes"@ {
        Some("Resource-Nodes"@)
    } else if key == "nodes"@ {
        Some("Nodes"@)
    } else if key == "nodes_loaded"@ {
        Some("Nodes geladen"@)
    } else if key == "visible_nodes"@ {
        Some("sichtbare Nodes"@)
    } else if key == "remaining_short"@ {
        Some("übrig"@)
    } else if key == "zoom"@ {
        Some("Zoom"@)
    } else if key == "cursor_world"@ {
        Some("Cursor · Welt"@)
    } else if key == "rails"@ {
        Some("Schienen"@)
    } else if key == "foundation_count"@ {
        Some("Foundations"@)
    } else if key == "belt_count"@ {
        Some("Belts"@)
    } else if key == "belts"@ {
        Some("Belts"@)
    } else if key == "claimed_nodes"@ {
        Some("geclaimte Nodes"@)
    } else if key == "belts_laid"@ {
        Some("Belts verlegt"@)
    } else if key == "rails_laid"@ {
        Some("Schienen verlegt"@)
    } else if key == "playtime"@ {
        Some("Spielzeit"@)
    } else if key == "save_file"@ {
        Some("Savegame"@)
    } else if key == "max_unclaimed"@ {
        Some("Maximale Kapazität unclaimed Nodes"@)
    } else if key == "unclaimed_hint"@ {
        Some("Unclaimed werden mit dem gewählten Miner bei maximal 250% berechnet."@)
    } else if key == "panel_resize_hint"@ {
        Some("Panelbreite durch Ziehen der linken Kante ändern. Ganz nach rechts zusammenschieben schließt es."@)
    } else {
        None
    }
}

/// German texts, part 4.
pub open spec fn german_glossary_3(key: Seq<char>) -> Option<Seq<char>> {
    if key == "app_title"@ {
        Some("Satisfactory Map Tracker"@)
    } else if key == "draw_rectangle"@ {
        Some("▭  Rechteck zeichnen"@)
    } else if key == "drawing_toolbar"@ {
        Some("Zeichnen"@)
    } else if key == "tool_rectangle"@ {
        Some("Rechteck"@)
    } else if key == "cancel_rectangle"@ {
        Some("×  Zeichnen abbrechen"@)
    } else if key == "draw_circle"@ {
        Some("○  Kreis zeichnen"@)
    } else if key == "tool_circle"@ {
        Some("Kreis"@)
    } else if key == "cancel_circle"@ {
        Some("×  Kreis abbrechen"@)
    } else if key == "draw_arrow"@ {
        Some("➜  Pfeil zeichnen"@)
    } else if key == "tool_arrow"@ {
        Some("Pfeil"@)
    } else if key == "cancel_arrow"@ {
        Some("×  Pfeil abbrechen"@)
    } else if key == "draw_ruler"@ {
        Some("⌁  Lineal"@)
    } else if key == "tool_ruler"@ {
        Some("Lineal"@)
    } else if key == "cancel_ruler"@ {
        Some("×  Lineal stoppen"@)
    } else if key == "draw_text"@ {
        Some("T  Text hinzufügen"@)
    } else if key == "tool_text"@ {
        Some("Text"@)
    } else if key == "cancel_text"@ {
        Some("×  Text abbrechen"@)
    } else if key == "draw_pen"@ {
        Some("✎  Stift"@)
    } else if key == "tool_pen"@ {
        Some("Stift"@)
    } else if key == "cancel_pen"@ {
        Some("×  Stift stoppen"@)
    } else {
        None
    }
}

/// German texts, part 5.
pub open spec fn german_glossary_4(key: Seq<char>) -> Option<Seq<char>> {
    if key == "draw_eraser"@ {
        Some("⌫  Radierer"@)
    } else if key == "tool_eraser"@ {
        Some("Radierer"@)
    } else if key == "cancel_eraser"@ {
        Some("×  Radierer stoppen"@)
    } else if key == "text_label"@ {
        Some("Text"@)
    } else if key == "save_text"@ {
        Some("Speichern"@)
    } else if key == "cancel_text_edit"@ {
        Some("Abbrechen"@)
    } else if key == "rectangle"@ {
        Some("Rechteck"@)
    } else if key == "circle"@ {
        Some("Kreis"@)
    } else if key == "arrow"@ {
        Some("Pfeil"@)
    } else if key == "ruler"@ {
        Some("Lineal"@)
    } else if key == "distance"@ {
        Some("Distanz"@)
    } else if key == "delete_annotation"@ {
        Some("Zeichnung löschen"@)
    } else if key == "move_annotation"@ {
        Some("Verschieben"@)
    } else if key == "move_rectangle"@ {
        Some("Verschieben"@)
    } else if key == "delete_rectangle"@ {
        Some("Löschen"@)
    } else if key == "error"@ {
        Some("Fehler"@)
    } else if key == "not_initialized"@ {
        Some("Die Anwendung konnte nicht initialisiert werden."@)
    } else if key == "no_save"@ {
        Some("Kein Satisfactory-Savegame ausgewählt."@)
    } else if key == "upload_hint"@ {
        Some("Bitte oben ein Savegame hochladen."@)
    } else if key == "map_paused"@ {
        Some("Karten-Rendering pausiert, solange das Fenster im Hintergrund ist."@)
    } else {
        None
    }
}

/// German texts, part 6.
pub open spec fn german_glossary_5(key: Seq<char>) -> Option<Seq<char>> {
    if key == "change_in_settings"@ {
        Some("(In den Einstellungen änderbar)"@)
    } else if key == "save_status"@ {
        Some("Savegame-Status"@)
    } else if key == "no_saved_save"@ {
        Some("Noch kein Savegame gespeichert."@)
    } else if key == "local_copy"@ {
        Some("Lokale Kopie"@)
    } else if key == "resource_remaining"@ {
        Some("Verwendete Ressourcen"@)
    } else if key == "no_extractors"@ {
        Some("Noch keine platzierten Extractor-Daten geladen."@)
    } else if key == "available_per_minute"@ {
        Some("pro Minute verfügbar"@)
    } else if key == "not_fully_used"@ {
        Some("nicht vollständig genutzt"@)
    } else if key == "resource"@ {
        Some("Ressource"@)
    } else if key == "purity"@ {
        Some("Reinheit"@)
    } else if key == "all_resources"@ {
        Some("Alle Ressourcen"@)
    } else if key == "no_resources_selected"@ {
        Some("Keine Ressourcen ausgewählt"@)
    } else if key == "resources_selected"@ {
        Some("ausgewählt"@)
    } else if key == "activate_all"@ {
        Some("Alle aktivieren"@)
    } else if key == "deactivate_all"@ {
        Some("Alle deaktivieren"@)
    } else if key == "all_purities"@ {
        Some("Alle Reinheiten"@)
    } else if key == "claimed_only"@ {
        Some("Nur geclaimte Nodes"@)
    } else if key == "partial_only"@ {
        Some("Nur nicht vollständig genutzte Nodes"@)
    } else if key == "planned_only"@ {
        Some("Nur geplante Nodes"@)
    } else if key == "grid"@ {
        Some("Koordinatenraster anzeigen"@)
    } else {
        None
    }
}

/// German texts, part 7.
pub open spec fn german_glossary_6(key: Seq<char>) -> Option<Seq<char>> {
    if key == "detailed_png_map"@ {
        Some("Detaillierte PNG-Karte verwenden"@)
    } else if key == "world_data_hint"@ {
        Some("Karte und Positionen stammen aus den lokalen Welt-Daten."@)
    } else if key == "reset_view"@ {
        Some("Ansicht zurücksetzen"@)
    } else if key == "close"@ {
        Some("Schließen"@)
    } else if key == "usage"@ {
        Some("Ressourcenverbrauch"@)
    } else if key == "note"@ {
        Some("Notiz"@)
    } else if key == "yield"@ {
        Some("Ertrag"@)
    } else if key == "theoretical_yield"@ {
        Some("Theoretischer Miner-Ertrag"@)
    } else if key == "maximum_settable"@ {
        Some("Maximal einstellbar"@)
    } else if key == "max_value"@ {
        Some("Max"@)
    } else if key == "max_possible"@ {
        Some("Maximal möglich"@)
    } else if key == "powershards_clock"@ {
        Some("Powershards"@)
    } else if key == "used_per_minute"@ {
        Some("pro Minute verwendet"@)
    } else if key == "free_per_minute"@ {
        Some("Frei"@)
    } else if key == "occupancy"@ {
        Some("Belegung"@)
    } else if key == "node_id"@ {
        Some("Node-ID"@)
    } else if key == "world"@ {
        Some("Welt"@)
    } else if key == "extractor_unknown"@ {
        Some("Extractor keiner in der Save-Datei erkannt"@)
    } else if key == "method"@ {
        Some("Methode"@)
    } else if key == "rate_per_satellite"@ {
        Some("Rate gilt pro Resource-Well-Satellit."@)
    } else {
        None
    }
}

/// German texts, part 8.
pub open spec fn german_glossary_7(key: Seq<char>) -> Option<Seq<char>> {
    if key == "well_core"@ {
        Some("Zentraler Resource-Well-Kern"@)
    } else if key == "well_yield_hint"@ {
        Some("Die Ausbeute kommt von den verbundenen Satelliten-Nodes."@)
    } else if key == "manual_deposit"@ {
        Some("Manuelles Deposit – kein Miner-Extractor"@)
    } else if key == "your_entry"@ {
        Some("Dein Eintrag"@)
    } else if key == "satellite_usage"@ {
        Some("Nutzung"@)
    } else if key == "oil_extractor"@ {
        Some("Oil Extractor"@)
    } else if key == "well_extractor"@ {
        Some("Resource Well Extractor"@)
    } else if key == "miner"@ {
        Some("Miner"@)
    } else if key == "theoretical"@ {
        Some("Theoretischer"@)
    } else if key == "output"@ {
        Some("Output"@)
    } else if key == "satellites_total"@ {
        Some("Satelliten gesamt"@)
    } else if key == "satellites_in_well"@ {
        Some("Satelliten im Well"@)
    } else if key == "claimed"@ {
        Some("●  Geclaimt"@)
    } else if key == "unclaimed"@ {
        Some("○  Nicht geclaimt"@)
    } else {
        None
    }
}

/// The German text of `key`; unknown keys have an empty text.
pub open spec fn german_glossary(key: Seq<char>) -> Seq<char> {
    if german_glossary_0(key) is Some {
        german_glossary_0(key)->Some_0
    } else if german_glossary_1(key) is Some {
        german_glossary_1(key)->Some_0
    } else if german_glossary_2(key) is Some {
        german_glossary_2(key)->Some_0
    } else if german_glossary_3(key) is Some {
        german_glossary_3(key)->Some_0
    } else if german_glossary_4(key) is Some {
        german_glossary_4(key)->Some_0
    } else if german_glossary_5(key) is Some {
        german_glossary_5(key)->Some_0
    } else if german_glossary_6(key) is Some {
        german_glossary_6(key)->Some_0
    } else if german_glossary_7(key) is Some {
        german_glossary_7(key)->Some_0
    } else {
        Seq::empty()
    }
}

/// French texts, part 1.
pub open spec fn french_glossary_0(key: Seq<char>) -> Option<Seq<char>> {
    if key == "ready"@ {
        Some("Prêt"@)
    } else if key == "loading"@ {
        Some("Chargement…"@)
    } else if key == "save_stored"@ {
        Some("Nouvelle sauvegarde enregistrée"@)
    } else if key == "no_changes"@ {
        Some("Aucune modification trouvée"@)
    } else if key == "analyzing_save"@ {
        Some("Analyse de la sauvegarde …"@)
    } else if key == "save_analyzed"@ {
        Some("Sauvegarde analysée"@)
    } else if key == "analysis_failed"@ {
        Some("Impossible d'analyser la sauvegarde"@)
    } else if key == "analysis_stopped"@ {
        Some("Analyse de la sauvegarde arrêtée"@)
    } else if key == "save_updated"@ {
        Some("Sauvegarde mise à jour"@)
    } else if key == "node_data_saved"@ {
        Some("Données des nodes enregistrées"@)
    } else if key == "initialization_failed"@ {
        Some("Échec de l'initialisation"@)
    } else if key == "upload_save"@ {
        Some("↑  Charger une sauvegarde"@)
    } else if key == "refresh"@ {
        Some("↻  Actualiser"@)
    } else if key == "remove_save"@ {
        Some("×  Retirer la sauvegarde"@)
    } else if key == "settings"@ {
        Some("Paramètres"@)
    } else if key == "settings_application"@ {
        Some("Application"@)
    } else if key == "settings_map"@ {
        Some("Carte et nodes"@)
    } else if key == "settings_display"@ {
        Some("Affichage et performances"@)
    } else if key == "settings_testing"@ {
        Some("Fonctions de test"@)
    } else if key == "language"@ {
        Some("Langue"@)
    } else {
        None
    }
}

/// French texts, part 2.
pub open spec fn french_glossary_1(key: Seq<char>) -> Option<Seq<char>> {
    if key == "node_names"@ {
        Some("Afficher les noms des nodes"@)
    } else if key == "debug_mode"@ {
        Some("Mode débogage"@)
    } else if key == "pause_background"@ {
        Some("Ne pas afficher la carte en arrière-plan"@)
    } else if key == "auto_refresh"@ {
        Some("Actualisation automatique (minutes)"@)
    } else if key == "analysis_duration"@ {
        Some("Analyse"@)
    } else if key == "last_updated"@ {
        Some("Dernière mise à jour"@)
    } else if key == "show_annotations"@ {
        Some("Afficher les dessins et formes"@)
    } else if key == "more"@ {
        Some("Plus"@)
    } else if key == "delete_all_smt_notes"@ {
        Some("Supprimer toutes les notes SMT"@)
    } else if key == "delete_all_smt_notes_title"@ {
        Some("Supprimer toutes les notes SMT ?"@)
    } else if key == "delete_all_smt_notes_warning"@ {
        Some("Toutes les données SMT de chaque sauvegarde seront supprimées et la sauvegarde actuelle sera déchargée. Les fichiers Satisfactory originaux ne sont pas modifiés."@)
    } else if key == "delete_all_smt_notes_confirm"@ {
        Some("Tout supprimer"@)
    } else if key == "cancel"@ {
        Some("Annuler"@)
    } else if key == "rails_wip"@ {
        Some("Afficher les rails"@)
    } else if key == "show_foundations"@ {
        Some("Afficher les fondations"@)
    } else if key == "show_belts"@ {
        Some("Mostrar les convoyeurs"@)
    } else if key == "node_size"@ {
        Some("Taille des nodes"@)
    } else if key == "background_throttle"@ {
        Some("Le rendu est automatiquement limité en arrière-plan."@)
    } else if key == "map_panel"@ {
        Some("Panneau de carte"@)
    } else if key == "panel_open_hint"@ {
        Some("Placez le curseur sur le bord droit pour ouvrir."@)
    } else {
        None
    }
}

/// French texts, part 3.
pub open spec fn french_glossary_2(key: Seq<char>) -> Option<Seq<char>> {
    if key == "close_panel"@ {
        Some("×  Fermer le panneau"@)
    } else if key == "resource_nodes"@ {
        Some("Nodes de ressources"@)
    } else if key == "nodes"@ {
        Some("nodes"@)
    } else if key == "nodes_loaded"@ {
        Some("nodes chargés"@)
    } else if key == "visible_nodes"@ {
        Some("nodes visibles"@)
    } else if key == "remaining_short"@ {
        Some("restantes"@)
    } else if key == "zoom"@ {
        Some("Zoom"@)
    } else if key == "cursor_world"@ {
        Some("Curseur · Monde"@)
    } else if key == "rails"@ {
        Some("rails"@)
    } else if key == "foundation_count"@ {
        Some("fondations"@)
    } else if key == "belt_count"@ {
        Some("convoyeurs"@)
    } else if key == "belts"@ {
        Some("convoyeurs"@)
    } else if key == "claimed_nodes"@ {
        Some("nodes revendiqués"@)
    } else if key == "belts_laid"@ {
        Some("Convoyeurs posés"@)
    } else if key == "rails_laid"@ {
        Some("Rails posés"@)
    } else if key == "playtime"@ {
        Some("Temps de jeu"@)
    } else if key == "save_file"@ {
        Some("Sauvegarde"@)
    } else if key == "max_unclaimed"@ {
        Some("Capacité maximale des nodes non revendiqués"@)
    } else if key == "unclaimed_hint"@ {
        Some("Les nodes non revendiqués utilisent le mineur choisi à 250% maximum."@)
    } else if key == "panel_resize_hint"@ {
        Some("Tirez le bord gauche pour redimensionner. Repoussez-le vers le bord droit pour fermer."@)
    } else {
        None
    }
}

/// French texts, part 4.
pub open spec fn french_glossary_3(key: Seq<char>) -> Option<Seq<char>> {
    if key == "app_title"@ {
        Some("Satisfactory Map Tracker"@)
    } else if key == "draw_rectangle"@ {
        Some("▭  Dessiner un rectangle"@)
    } else if key == "drawing_toolbar"@ {
        Some("Dessiner"@)
    } else if key == "tool_rectangle"@ {
        Some("Rectangle"@)
    } else if key == "cancel_rectangle"@ {
        Some("×  Annuler le dessin"@)
    } else if key == "draw_circle"@ {
        Some("○  Dessiner un cercle"@)
    } else if key == "tool_circle"@ {
        Some("Cercle"@)
    } else if key == "cancel_circle"@ {
        Some("×  Annuler le cercle"@)
    } else if key == "draw_arrow"@ {
        Some("➜  Dessiner une flèche"@)
    } else if key == "tool_arrow"@ {
        Some("Flèche"@)
    } else if key == "cancel_arrow"@ {
        Some("×  Annuler la flèche"@)
    } else if key == "draw_ruler"@ {
        Some("⌁  Règle"@)
    } else if key == "tool_ruler"@ {
        Some("Règle"@)
    } else if key == "cancel_ruler"@ {
        Some("×  Arrêter la règle"@)
    } else if key == "draw_text"@ {
        Some("T  Ajouter du texte"@)
    } else if key == "tool_text"@ {
        Some("Texte"@)
    } else if key == "cancel_text"@ {
        Some("×  Annuler le texte"@)
    } else if key == "draw_pen"@ {
        Some("✎  Dessiner"@)
    } else if key == "tool_pen"@ {
        Some("Stylo"@)
    } else if key == "cancel_pen"@ {
        Some("×  Arrêter le stylo"@)
    } else {
        None
    }
}

/// French texts, part 5.
pub open spec fn french_glossary_4(key: Seq<char>) -> Option<Seq<char>> {
    if key == "draw_eraser"@ {
        Some("⌫  Gomme"@)
    } else if key == "tool_eraser"@ {
        Some("Gomme"@)
    } else if key == "cancel_eraser"@ {
        Some("×  Arrêter la gomme"@)
    } else if key == "text_label"@ {
        Some("Texte"@)
    } else if key == "save_text"@ {
        Some("Enregistrer"@)
    } else if key == "cancel_text_edit"@ {
        Some("Annuler"@)
    } else if key == "rectangle"@ {
        Some("Rectangle"@)
    } else if key == "circle"@ {
        Some("Cercle"@)
    } else if key == "arrow"@ {
        Some("Flèche"@)
    } else if key == "ruler"@ {
        Some("Règle"@)
    } else if key == "distance"@ {
        Some("Distance"@)
    } else if key == "delete_annotation"@ {
        Some("Supprimer le dessin"@)
    } else if key == "move_annotation"@ {
        Some("Déplacer"@)
    } else if key == "move_rectangle"@ {
        Some("Déplacer"@)
    } else if key == "delete_rectangle"@ {
        Some("Supprimer"@)
    } else if key == "error"@ {
        Some("Erreur"@)
    } else if key == "not_initialized"@ {
        Some("L'application n'a pas pu être initialisée."@)
    } else if key == "no_save"@ {
        Some("Aucune sauvegarde Satisfactory sélectionnée."@)
    } else if key == "upload_hint"@ {
        Some("Chargez une sauvegarde ci-dessus."@)
    } else if key == "map_paused"@ {
        Some("Le rendu de la carte est en pause lorsque la fenêtre est en arrière-plan."@)
    } else {
        None
    }
}

/// French texts, part 6.
pub open spec fn french_glossary_5(key: Seq<char>) -> Option<Seq<char>> {
    if key == "change_in_settings"@ {
        Some("(Modifiable dans les paramètres)"@)
    } else if key == "save_status"@ {
        Some("État de la sauvegarde"@)
    } else if key == "no_saved_save"@ {
        Some("Aucune sauvegarde enregistrée."@)
    } else if key == "local_copy"@ {
        Some("Copie locale"@)
    } else if key == "resource_remaining"@ {
        Some("Ressources utilisées"@)
    } else if key == "no_extractors"@ {
        Some("Aucune donnée d'extracteur placé n'est encore chargée."@)
    } else if key == "available_per_minute"@ {
        Some("disponibles par minute"@)
    } else if key == "not_fully_used"@ {
        Some("non utilisés complètement"@)
    } else if key == "resource"@ {
        Some("Ressource"@)
    } else if key == "purity"@ {
        Some("Pureté"@)
    } else if key == "all_resources"@ {
        Some("Toutes les ressources"@)
    } else if key == "no_resources_selected"@ {
        Some("Aucune ressource sélectionnée"@)
    } else if key == "resources_selected"@ {
        Some("sélectionnées"@)
    } else if key == "activate_all"@ {
        Some("Tout activer"@)
    } else if key == "deactivate_all"@ {
        Some("Tout désactiver"@)
    } else if key == "all_purities"@ {
        Some("Toutes les puretés"@)
    } else if key == "claimed_only"@ {
        Some("Nodes revendiqués uniquement"@)
    } else if key == "partial_only"@ {
        Some("Nodes partiellement utilisés uniquement"@)
    } else if key == "planned_only"@ {
        Some("Nodes planifiés uniquement"@)
    } else if key == "grid"@ {
        Some("Afficher la grille de coordonnées"@)
    } else {
        None
    }
}

/// French texts, part 7.
pub open spec fn french_glossary_6(key: Seq<char>) -> Option<Seq<char>> {
    if key == "detailed_png_map"@ {
        Some("Utiliser la carte PNG détaillée"@)
    } else if key == "world_data_hint"@ {
        Some("La carte et les positions proviennent des données locales du monde."@)
    } else if key == "reset_view"@ {
        Some("Réinitialiser la vue"@)
    } else if key == "close"@ {
        Some("Fermer"@)
    } else if key == "usage"@ {
        Some("Utilisation"@)
    } else if key == "note"@ {
        Some("Note"@)
    } else if key == "yield"@ {
        Some("Rendement"@)
    } else if key == "theoretical_yield"@ {
        Some("Rendement théorique du mineur"@)
    } else if key == "maximum_settable"@ {
        Some("Maximum réglable"@)
    } else if key == "max_value"@ {
        Some("Max"@)
    } else if key == "max_possible"@ {
        Some("Maximum possible"@)
    } else if key == "powershards_clock"@ {
        Some("Powershards"@)
    } else if key == "used_per_minute"@ {
        Some("utilisés par minute"@)
    } else if key == "free_per_minute"@ {
        Some("Libre"@)
    } else if key == "occupancy"@ {
        Some("Occupation"@)
    } else if key == "node_id"@ {
        Some("ID du node"@)
    } else if key == "world"@ {
        Some("Monde"@)
    } else if key == "extractor_unknown"@ {
        Some("Extracteur introuvable dans la sauvegarde"@)
    } else if key == "method"@ {
        Some("Méthode"@)
    } else if key == "rate_per_satellite"@ {
        Some("Le débit s'applique par satellite du puits."@)
    } else {
        None
    }
}

/// French texts, part 8.
pub open spec fn french_glossary_7(key: Seq<char>) -> Option<Seq<char>> {
    if key == "well_core"@ {
        Some("Cœur central du puits de ressources"@)
    } else if key == "well_yield_hint"@ {
        Some("Le rendement vient des nodes satellites connectés."@)
    } else if key == "manual_deposit"@ {
        Some("Gisement manuel – aucun extracteur"@)
    } else if key == "your_entry"@ {
        Some("Votre saisie"@)
    } else if key == "satellite_usage"@ {
        Some("Utilisation"@)
    } else if key == "oil_extractor"@ {
        Some("Extracteur de pétrole"@)
    } else if key == "well_extractor"@ {
        Some("Extracteur de puits de ressources"@)
    } else if key == "miner"@ {
        Some("Mineur"@)
    } else if key == "theoretical"@ {
        Some("Théorique"@)
    } else if key == "output"@ {
        Some("Sortie"@)
    } else if key == "satellites_total"@ {
        Some("Total des satellites"@)
    } else if key == "satellites_in_well"@ {
        Some("satellites dans le puits"@)
    } else if key == "claimed"@ {
        Some("●  Revendiqué"@)
    } else if key == "unclaimed"@ {
        Some("○  Non revendiqué"@)
    } else {
        None
    }
}

/// The French text of `key`; unknown keys have an empty text.
pub open spec fn french_glossary(key: Seq<char>) -> Seq<char> {
    if french_glossary_0(key) is Some {
        french_glossary_0(key)->Some_0
    } else if french_glossary_1(key) is Some {
        french_glossary_1(key)->Some_0
    } else if french_glossary_2(key) is Some {
        french_glossary_2(key)->Some_0
    } else if french_glossary_3(key) is Some {
        french_glossary_3(key)->Some_0
    } else if french_glossary_4(key) is Some {
        french_glossary_4(key)->Some_0
    } else if french_glossary_5(key) is Some {
        french_glossary_5(key)->Some_0
    } else if french_glossary_6(key) is Some {
        french_glossary_6(key)->Some_0
    } else if french_glossary_7(key) is Some {
        french_glossary_7(key)->Some_0
    } else {
        Seq::empty()
    }
}

/// Spanish texts, part 1.
pub open spec fn spanish_glossary_0(key: Seq<char>) -> Option<Seq<char>> {
    if key == "ready"@ {
        Some("Listo"@)
    } else if key == "loading"@ {
        Some("Cargando…"@)
    } else if key == "save_stored"@ {
        Some("Nueva partida guardada"@)
    } else if key == "no_changes"@ {
        Some("No se encontraron cambios"@)
    } else if key == "analyzing_save"@ {
        Some("Analizando partida …"@)
    } else if key == "save_analyzed"@ {
        Some("Partida analizada"@)
    } else if key == "analysis_failed"@ {
        Some("No se pudo analizar la partida"@)
    } else if key == "analysis_stopped"@ {
        Some("Análisis de partida detenido"@)
    } else if key == "save_updated"@ {
        Some("Partida actualizada"@)
    } else if key == "node_data_saved"@ {
        Some("Datos de nodos guardados"@)
    } else if key == "initialization_failed"@ {
        Some("Error de inicialización"@)
    } else if key == "upload_save"@ {
        Some("↑  Cargar partida"@)
    } else if key == "refresh"@ {
        Some("↻  Actualizar"@)
    } else if key == "remove_save"@ {
        Some("×  Quitar partida"@)
    } else if key == "settings"@ {
        Some("Ajustes"@)
    } else if key == "settings_application"@ {
        Some("Aplicación"@)
    } else if key == "settings_map"@ {
        Some("Mapa y nodos"@)
    } else if key == "settings_display"@ {
        Some("Pantalla y rendimiento"@)
    } else if key == "settings_testing"@ {
        Some("Funciones de prueba"@)
    } else if key == "language"@ {
        Some("Idioma"@)
    } else {
        None
    }
}

/// Spanish texts, part 2.
pub open spec fn spanish_glossary_1(key: Seq<char>) -> Option<Seq<char>> {
    if key == "node_names"@ {
        Some("Mostrar nombres de nodos"@)
    } else if key == "debug_mode"@ {
        Some("Modo de depuración"@)
    } else if key == "pause_background"@ {
        Some("No renderizar el mapa en segundo plano"@)
    } else if key == "auto_refresh"@ {
        Some("Actualización automática (minutos)"@)
    } else if key == "analysis_duration"@ {
        Some("Análisis"@)
    } else if key == "last_updated"@ {
        Some("Última actualización"@)
    } else if key == "show_annotations"@ {
        Some("Mostrar dibujos y formas"@)
    } else if key == "more"@ {
        Some("Más"@)
    } else if key == "delete_all_smt_notes"@ {
        Some("Eliminar todas las notas de SMT"@)
    } else if key == "delete_all_smt_notes_title"@ {
        Some("¿Eliminar todas las notas de SMT?"@)
    } else if key == "delete_all_smt_notes_warning"@ {
        Some("Esto elimina todos los datos de SMT de cada partida y descarga la partida actual. Los archivos originales de Satisfactory no se modifican."@)
    } else if key == "delete_all_smt_notes_confirm"@ {
        Some("Eliminar todo"@)
    } else if key == "cancel"@ {
        Some("Cancelar"@)
    } else if key == "rails_wip"@ {
        Some("Mostrar raíles"@)
    } else if key == "show_foundations"@ {
        Some("Mostrar cimientos"@)
    } else if key == "show_belts"@ {
        Some("Mostrar cintas"@)
    } else if key == "node_size"@ {
        Some("Tamaño de los nodos"@)
    } else if key == "background_throttle"@ {
        Some("El renderizado se ralentiza automáticamente en segundo plano."@)
    } else if key == "map_panel"@ {
        Some("Panel del mapa"@)
    } else if key == "panel_open_hint"@ {
        Some("Mueve el cursor al borde derecho para abrirlo."@)
    } else {
        None
    }
}

/// Spanish texts, part 3.
pub open spec fn spanish_glossary_2(key: Seq<char>) -> Option<Seq<char>> {
    if key == "close_panel"@ {
        Some("×  Cerrar panel"@)
    } else if key == "resource_nodes"@ {
        Some("Nodos de recursos"@)
    } else if key == "nodes"@ {
        Some("nodos"@)
    } else if key == "nodes_loaded"@ {
        Some("nodos cargados"@)
    } else if key == "visible_nodes"@ {
        Some("nodos visibles"@)
    } else if key == "remaining_short"@ {
        Some("restantes"@)
    } else if key == "zoom"@ {
        Some("Zoom"@)
    } else if key == "cursor_world"@ {
        Some("Cursor · Mundo"@)
    } else if key == "rails"@ {
        Some("raíles"@)
    } else if key == "foundation_count"@ {
        Some("cimientos"@)
    } else if key == "belt_count"@ {
        Some("cintas"@)
    } else if key == "belts"@ {
        Some("cintas"@)
    } else if key == "claimed_nodes"@ {
        Some("nodos reclamados"@)
    } else if key == "belts_laid"@ {
        Some("Cintas instaladas"@)
    } else if key == "rails_laid"@ {
        Some("Raíles instalados"@)
    } else if key == "playtime"@ {
        Some("Tiempo de juego"@)
    } else if key == "save_file"@ {
        Some("Guardado"@)
    } else if key == "max_unclaimed"@ {
        Some("Capacidad máxima de nodos sin reclamar"@)
    } else if key == "unclaimed_hint"@ {
        Some("Los nodos sin reclamar usan el minero seleccionado al 250% máximo."@)
    } else if key == "panel_resize_hint"@ {
        Some("Arrastra el borde izquierdo para cambiar el tamaño. Llévalo al borde derecho para cerrarlo."@)
    } else {
        None
    }
}

/// Spanish texts, part 4.
pub open spec fn spanish_glossary_3(key: Seq<char>) -> Option<Seq<char>> {
    if key == "app_title"@ {
        Some("Satisfactory Map Tracker"@)
    } else if key == "draw_rectangle"@ {
        Some("▭  Dibujar rectángulo"@)
    } else if key == "drawing_toolbar"@ {
        Some("Dibujar"@)
    } else if key == "tool_rectangle"@ {
        Some("Rectángulo"@)
    } else if key == "cancel_rectangle"@ {
        Some("×  Cancelar dibujo"@)
    } else if key == "draw_circle"@ {
        Some("○  Dibujar círculo"@)
    } else if key == "tool_circle"@ {
        Some("Círculo"@)
    } else if key == "cancel_circle"@ {
        Some("×  Cancelar círculo"@)
    } else if key == "draw_arrow"@ {
        Some("➜  Dibujar flecha"@)
    } else if key == "tool_arrow"@ {
        Some("Flecha"@)
    } else if key == "cancel_arrow"@ {
        Some("×  Cancelar flecha"@)
    } else if key == "draw_ruler"@ {
        Some("⌁  Regla"@)
    } else if key == "tool_ruler"@ {
        Some("Regla"@)
    } else if key == "cancel_ruler"@ {
        Some("×  Detener regla"@)
    } else if key == "draw_text"@ {
        Some("T  Añadir texto"@)
    } else if key == "tool_text"@ {
        Some("Texto"@)
    } else if key == "cancel_text"@ {
        Some("×  Cancelar texto"@)
    } else if key == "draw_pen"@ {
        Some("✎  Dibujar"@)
    } else if key == "tool_pen"@ {
        Some("Lápiz"@)
    } else if key == "cancel_pen"@ {
        Some("×  Detener lápiz"@)
    } else {
        None
    }
}

/// Spanish texts, part 5.
pub open spec fn spanish_glossary_4(key: Seq<char>) -> Option<Seq<char>> {
    if key == "draw_eraser"@ {
        Some("⌫  Borrador"@)
    } else if key == "tool_eraser"@ {
        Some("Borrador"@)
    } else if key == "cancel_eraser"@ {
        Some("×  Detener borrador"@)
    } else if key == "text_label"@ {
        Some("Texto"@)
    } else if key == "save_text"@ {
        Some("Guardar"@)
    } else if key == "cancel_text_edit"@ {
        Some("Cancelar"@)
    } else if key == "rectangle"@ {
        Some("Rectángulo"@)
    } else if key == "circle"@ {
        Some("Círculo"@)
    } else if key == "arrow"@ {
        Some("Flecha"@)
    } else if key == "ruler"@ {
        Some("Regla"@)
    } else if key == "distance"@ {
        Some("Distancia"@)
    } else if key == "delete_annotation"@ {
        Some("Eliminar dibujo"@)
    } else if key == "move_annotation"@ {
        Some("Mover"@)
    } else if key == "move_rectangle"@ {
        Some("Mover"@)
    } else if key == "delete_rectangle"@ {
        Some("Eliminar"@)
    } else if key == "error"@ {
        Some("Error"@)
    } else if key == "not_initialized"@ {
        Some("No se pudo inicializar la aplicación."@)
    } else if key == "no_save"@ {
        Some("No hay ninguna partida de Satisfactory seleccionada."@)
    } else if key == "upload_hint"@ {
        Some("Carga una partida arriba."@)
    } else if key == "map_paused"@ {
        Some("El renderizado del mapa está pausado cuando la ventana está en segundo plano."@)
    } else {
        None
    }
}

/// Spanish texts, part 6.
pub open spec fn spanish_glossary_5(key: Seq<char>) -> Option<Seq<char>> {
    if key == "change_in_settings"@ {
        Some("(Se puede cambiar en Ajustes)"@)
    } else if key == "save_status"@ {
        Some("Estado de la partida"@)
    } else if key == "no_saved_save"@ {
        Some("Todavía no hay ninguna partida guardada."@)
    } else if key == "local_copy"@ {
        Some("Copia local"@)
    } else if key == "resource_remaining"@ {
        Some("Recursos utilizados"@)
    } else if key == "no_extractors"@ {
        Some("Aún no se han cargado extractores colocados."@)
    } else if key == "available_per_minute"@ {
        Some("disponibles por minuto"@)
    } else if key == "not_fully_used"@ {
        Some("no utilizados por completo"@)
    } else if key == "resource"@ {
        Some("Recurso"@)
    } else if key == "purity"@ {
        Some("Pureza"@)
    } else if key == "all_resources"@ {
        Some("Todos los recursos"@)
    } else if key == "no_resources_selected"@ {
        Some("No hay recursos seleccionados"@)
    } else if key == "resources_selected"@ {
        Some("seleccionados"@)
    } else if key == "activate_all"@ {
        Some("Activar todos"@)
    } else if key == "deactivate_all"@ {
        Some("Desactivar todos"@)
    } else if key == "all_purities"@ {
        Some("Todas las purezas"@)
    } else if key == "claimed_only"@ {
        Some("Solo nodos reclamados"@)
    } else if key == "partial_only"@ {
        Some("Solo nodos parcialmente usados"@)
    } else if key == "planned_only"@ {
        Some("Solo nodos planificados"@)
    } else if key == "grid"@ {
        Some("Mostrar cuadrícula de coordenadas"@)
    } else {
        None
    }
}

/// Spanish texts, part 7.
pub open spec fn spanish_glossary_6(key: Seq<char>) -> Option<Seq<char>> {
    if key == "detailed_png_map"@ {
        Some("Usar mapa PNG detallado"@)
    } else if key == "world_data_hint"@ {
        Some("El mapa y las posiciones proceden de los datos locales del mundo."@)
    } else if key == "reset_view"@ {
        Some("Restablecer vista"@)
    } else if key == "close"@ {
        Some("Cerrar"@)
    } else if key == "usage"@ {
        Some("Uso"@)
    } else if key == "note"@ {
        Some("Nota"@)
    } else if key == "yield"@ {
        Some("Producción"@)
    } else if key == "theoretical_yield"@ {
        Some("Producción teórica del minero"@)
    } else if key == "maximum_settable"@ {
        Some("Máximo configurable"@)
    } else if key == "max_value"@ {
        Some("Máx."@)
    } else if key == "max_possible"@ {
        Some("Máximo posible"@)
    } else if key == "powershards_clock"@ {
        Some("Powershards"@)
    } else if key == "used_per_minute"@ {
        Some("usados por minuto"@)
    } else if key == "free_per_minute"@ {
        Some("Libre"@)
    } else if key == "occupancy"@ {
        Some("Ocupación"@)
    } else if key == "node_id"@ {
        Some("ID del nodo"@)
    } else if key == "world"@ {
        Some("Mundo"@)
    } else if key == "extractor_unknown"@ {
        Some("Extractor no encontrado en la partida"@)
    } else if key == "method"@ {
        Some("Método"@)
    } else if key == "rate_per_satellite"@ {
        Some("La tasa se aplica por satélite del pozo."@)
    } else {
        None
    }
}

/// Spanish texts, part 8.
pub open spec fn spanish_glossary_7(key: Seq<char>) -> Option<Seq<char>> {
    if key == "well_core"@ {
        Some("Núcleo central del pozo de recursos"@)
    } else if key == "well_yield_hint"@ {
        Some("La producción procede de los nodos satélite conectados."@)
    } else if key == "manual_deposit"@ {
        Some("Depósito manual – sin extractor minero"@)
    } else if key == "your_entry"@ {
        Some("Tu entrada"@)
    } else if key == "satellite_usage"@ {
        Some("Uso"@)
    } else if key == "oil_extractor"@ {
        Some("Extractor de petróleo"@)
    } else if key == "well_extractor"@ {
        Some("Extractor de pozo de recursos"@)
    } else if key == "miner"@ {
        Some("Minero"@)
    } else if key == "theoretical"@ {
        Some("Teórico"@)
    } else if key == "output"@ {
        Some("Producción"@)
    } else if key == "satellites_total"@ {
        Some("Satélites totales"@)
    } else if key == "satellites_in_well"@ {
        Some("satélites en el pozo"@)
    } else if key == "claimed"@ {
        Some("●  Reclamado"@)
    } else if key == "unclaimed"@ {
        Some("○  Sin reclamar"@)
    } else {
        None
    }
}

/// The Spanish text of `key`; unknown keys have an empty text.
pub open spec fn spanish_glossary(key: Seq<char>) -> Seq<char> {
    if spanish_glossary_0(key) is Some {
        spanish_glossary_0(key)->Some_0
    } else if spanish_glossary_1(key) is Some {
        spanish_glossary_1(key)->Some_0
    } else if spanish_glossary_2(key) is Some {
        spanish_glossary_2(key)->Some_0
    } else if spanish_glossary_3(key) is Some {
        spanish_glossary_3(key)->Some_0
    } else if spanish_glossary_4(key) is Some {
        spanish_glossary_4(key)->Some_0
    } else if spanish_glossary_5(key) is Some {
        spanish_glossary_5(key)->Some_0
    } else if spanish_glossary_6(key) is Some {
        spanish_glossary_6(key)->Some_0
    } else if spanish_glossary_7(key) is Some {
        spanish_glossary_7(key)->Some_0
    } else {
        Seq::empty()
    }
}

/// Every key looked up in English gives the English glossary text.
pub proof fn law_english_texts_come_from_the_english_glossary(key: Seq<char>)
    ensures
        spec_text(Language::English, key) == english_glossary(key),
{
    assert(text_entries_0(key) is Some <==> english_glossary_0(key) is Some);
    assert(text_entries_0(key) is Some ==> text_entries_0(key)->Some_0.0 == english_glossary_0(key)->Some_0);
    assert(text_entries_1(key) is Some <==> english_glossary_1(key) is Some);
    assert(text_entries_1(key) is Some ==> text_entries_1(key)->Some_0.0 == english_glossary_1(key)->Some_0);
    assert(text_entries_2(key) is Some <==> english_glossary_2(key) is Some);
    assert(text_entries_2(key) is Some ==> text_entries_2(key)->Some_0.0 == english_glossary_2(key)->Some_0);
    assert(text_entries_3(key) is Some <==> english_glossary_3(key) is Some);
    assert(text_entries_3(key) is Some ==> text_entries_3(key)->Some_0.0 == english_glossary_3(key)->Some_0);
    assert(text_entries_4(key) is Some <==> english_glossary_4(key) is Some);
    assert(text_entries_4(key) is Some ==> text_entries_4(key)->Some_0.0 == english_glossary_4(key)->Some_0);
    assert(text_entries_5(key) is Some <==> english_glossary_5(key) is Some);
    assert(text_entries_5(key) is Some ==> text_entries_5(key)->Some_0.0 == english_glossary_5(key)->Some_0);
    assert(text_entries_6(key) is Some <==> english_glossary_6(key) is Some);
    assert(text_entries_6(key) is Some ==> text_entries_6(key)->Some_0.0 == english_glossary_6(key)->Some_0);
    assert(text_entries_7(key) is Some <==> english_glossary_7(key) is Some);
    assert(text_entries_7(key) is Some ==> text_entries_7(key)->Some_0.0 == english_glossary_7(key)->Some_0);
}

/// Every key looked up in German gives the German glossary text.
pub proof fn law_german_texts_come_from_the_german_glossary(key: Seq<char>)
    ensures
        spec_text(Language::German, key) == german_glossary(key),
{
    assert(text_entries_0(key) is Some <==> german_glossary_0(key) is Some);
    assert(text_entries_0(key) is Some ==> text_entries_0(key)->Some_0.1 == german_glossary_0(key)->Some_0);
    assert(text_entries_1(key) is Some <==> german_glossary_1(key) is Some);
    assert(text_entries_1(key) is Some ==> text_entries_1(key)->Some_0.1 == german_glossary_1(key)->Some_0);
    assert(text_entries_2(key) is Some <==> german_glossary_2(key) is Some);
    assert(text_entries_2(key) is Some ==> text_entries_2(key)->Some_0.1 == german_glossary_2(key)->Some_0);
    assert(text_entries_3(key) is Some <==> german_glossary_3(key) is Some);
    assert(text_entries_3(key) is Some ==> text_entries_3(key)->Some_0.1 == german_glossary_3(key)->Some_0);
    assert(text_entries_4(key) is Some <==> german_glossary_4(key) is Some);
    assert(text_entries_4(key) is Some ==> text_entries_4(key)->Some_0.1 == german_glossary_4(key)->Some_0);
    assert(text_entries_5(key) is Some <==> german_glossary_5(key) is Some);
    assert(text_entries_5(key) is Some ==> text_entries_5(key)->Some_0.1 == german_glossary_5(key)->Some_0);
    assert(text_entries_6(key) is Some <==> german_glossary_6(key) is Some);
    assert(text_entries_6(key) is Some ==> text_entries_6(key)->Some_0.1 == german_glossary_6(key)->Some_0);
    assert(text_entries_7(key) is Some <==> german_glossary_7(key) is Some);
    assert(text_entries_7(key) is Some ==> text_entries_7(key)->Some_0.1 == german_glossary_7(key)->Some_0);
}

/// Every key looked up in French gives the French glossary text.
pub proof fn law_french_texts_come_from_the_french_glossary(key: Seq<char>)
    ensures
        spec_text(Language::French, key) == french_glossary(key),
{
    assert(text_entries_0(key) is Some <==> french_glossary_0(key) is Some);
    assert(text_entries_0(key) is Some ==> text_entries_0(key)->Some_0.2 == french_glossary_0(key)->Some_0);
    assert(text_entries_1(key) is Some <==> french_glossary_1(key) is Some);
    assert(text_entries_1(key) is Some ==> text_entries_1(key)->Some_0.2 == french_glossary_1(key)->Some_0);
    assert(text_entries_2(key) is Some <==> french_glossary_2(key) is Some);
    assert(text_entries_2(key) is Some ==> text_entries_2(key)->Some_0.2 == french_glossary_2(key)->Some_0);
    assert(text_entries_3(key) is Some <==> french_glossary_3(key) is Some);
    assert(text_entries_3(key) is Some ==> text_entries_3(key)->Some_0.2 == french_glossary_3(key)->Some_0);
    assert(text_entries_4(key) is Some <==> french_glossary_4(key) is Some);
    assert(text_entries_4(key) is Some ==> text_entries_4(key)->Some_0.2 == french_glossary_4(key)->Some_0);
    assert(text_entries_5(key) is Some <==> french_glossary_5(key) is Some);
    assert(text_entries_5(key) is Some ==> text_entries_5(key)->Some_0.2 == french_glossary_5(key)->Some_0);
    assert(text_entries_6(key) is Some <==> french_glossary_6(key) is Some);
    assert(text_entries_6(key) is Some ==> text_entries_6(key)->Some_0.2 == french_glossary_6(key)->Some_0);
    assert(text_entries_7(key) is Some <==> french_glossary_7(key) is Some);
    assert(text_entries_7(key) is Some ==> text_entries_7(key)->Some_0.2 == french_glossary_7(key)->Some_0);
}

/// Every key looked up in Spanish gives the Spanish glossary text.
pub proof fn law_spanish_texts_come_from_the_spanish_glossary(key: Seq<char>)
    ensures
        spec_text(Language::Spanish, key) == spanish_glossary(key),
{
    assert(text_entries_0(key) is Some <==> spanish_glossary_0(key) is Some);
    assert(text_entries_0(key) is Some ==> text_entries_0(key)->Some_0.3 == spanish_glossary_0(key)->Some_0);
    assert(text_entries_1(key) is Some <==> spanish_glossary_1(key) is Some);
    assert(text_entries_1(key) is Some ==> text_entries_1(key)->Some_0.3 == spanish_glossary_1(key)->Some_0);
    assert(text_entries_2(key) is Some <==> spanish_glossary_2(key) is Some);
    assert(text_entries_2(key) is Some ==> text_entries_2(key)->Some_0.3 == spanish_glossary_2(key)->Some_0);
    assert(text_entries_3(key) is Some <==> spanish_glossary_3(key) is Some);
    assert(text_entries_3(key) is Some ==> text_entries_3(key)->Some_0.3 == spanish_glossary_3(key)->Some_0);
    assert(text_entries_4(key) is Some <==> spanish_glossary_4(key) is Some);
    assert(text_entries_4(key) is Some ==> text_entries_4(key)->Some_0.3 == spanish_glossary_4(key)->Some_0);
    assert(text_entries_5(key) is Some <==> spanish_glossary_5(key) is Some);
    assert(text_entries_5(key) is Some ==> text_entries_5(key)->Some_0.3 == spanish_glossary_5(key)->Some_0);
    assert(text_entries_6(key) is Some <==> spanish_glossary_6(key) is Some);
    assert(text_entries_6(key) is Some ==> text_entries_6(key)->Some_0.3 == spanish_glossary_6(key)->Some_0);
    assert(text_entries_7(key) is Some <==> spanish_glossary_7(key) is Some);
    assert(text_entries_7(key) is Some ==> text_entries_7(key)->Some_0.3 == spanish_glossary_7(key)->Some_0);
}

} // verus!
