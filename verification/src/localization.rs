//! User interface texts in the four supported languages and
//! language-dependent number formatting.

use crate::reader::push_char;
use crate::storage::Language;
use crate::strings::{push_str_to, str_eq, str_to_chars};
use vstd::prelude::*;

verus! {

/// Four translations of one text: English, German, French, Spanish.
pub type Translations = (Seq<char>, Seq<char>, Seq<char>, Seq<char>);

/// Dictionary entries, part 1.
pub open spec fn text_entries_0(key: Seq<char>) -> Option<Translations> {
    if key == "ready"@ {
        Some(("Ready"@, "Bereit"@, "Prêt"@, "Listo"@))
    } else if key == "loading"@ {
        Some(("Loading…"@, "Laden…"@, "Chargement…"@, "Cargando…"@))
    } else if key == "save_stored"@ {
        Some(("New savegame stored"@, "Neues Savegame gespeichert"@, "Nouvelle sauvegarde enregistrée"@, "Nueva partida guardada"@))
    } else if key == "no_changes"@ {
        Some(("No changes found"@, "Keine Änderungen gefunden"@, "Aucune modification trouvée"@, "No se encontraron cambios"@))
    } else if key == "analyzing_save"@ {
        Some(("Analyzing savegame …"@, "Savegame wird analysiert …"@, "Analyse de la sauvegarde …"@, "Analizando partida …"@))
    } else if key == "save_analyzed"@ {
        Some(("Savegame analyzed"@, "Savegame analysiert"@, "Sauvegarde analysée"@, "Partida analizada"@))
    } else if key == "analysis_failed"@ {
        Some(("Savegame could not be analyzed"@, "Savegame konnte nicht analysiert werden"@, "Impossible d'analyser la sauvegarde"@, "No se pudo analizar la partida"@))
    } else if key == "analysis_stopped"@ {
        Some(("Savegame analysis stopped"@, "Savegame-Analyse wurde beendet"@, "Analyse de la sauvegarde arrêtée"@, "Análisis de partida detenido"@))
    } else if key == "save_updated"@ {
        Some(("Savegame updated"@, "Savegame aktualisiert"@, "Sauvegarde mise à jour"@, "Partida actualizada"@))
    } else if key == "node_data_saved"@ {
        Some(("Node data saved"@, "Node-Daten gespeichert"@, "Données des nodes enregistrées"@, "Datos de nodos guardados"@))
    } else if key == "initialization_failed"@ {
        Some(("Initialization failed"@, "Initialisierung fehlgeschlagen"@, "Échec de l'initialisation"@, "Error de inicialización"@))
    } else if key == "upload_save"@ {
        Some(("↑  Upload savegame"@, "↑  Savegame hochladen"@, "↑  Charger une sauvegarde"@, "↑  Cargar partida"@))
    } else if key == "refresh"@ {
        Some(("↻  Refresh"@, "↻  Refresh"@, "↻  Actualiser"@, "↻  Actualizar"@))
    } else if key == "remove_save"@ {
        Some(("×  Remove savegame"@, "×  Savegame entfernen"@, "×  Retirer la sauvegarde"@, "×  Quitar partida"@))
    } else if key == "settings"@ {
        Some(("Settings"@, "Einstellungen"@, "Paramètres"@, "Ajustes"@))
    } else if key == "settings_application"@ {
        Some(("Application"@, "Anwendung"@, "Application"@, "Aplicación"@))
    } else if key == "settings_map"@ {
        Some(("Map & nodes"@, "Karte & Nodes"@, "Carte et nodes"@, "Mapa y nodos"@))
    } else if key == "settings_display"@ {
        Some(("Display & performance"@, "Darstellung & Performance"@, "Affichage et performances"@, "Pantalla y rendimiento"@))
    } else if key == "settings_testing"@ {
        Some(("Testing stuff"@, "Testing stuff"@, "Fonctions de test"@, "Funciones de prueba"@))
    } else if key == "language"@ {
        Some(("Language"@, "Sprache"@, "Langue"@, "Idioma"@))
    } else {
        None
    }
}

/// Dictionary entries, part 2.
pub open spec fn text_entries_1(key: Seq<char>) -> Option<Translations> {
    if key == "node_names"@ {
        Some(("Show node names"@, "Node-Namen anzeigen"@, "Afficher les noms des nodes"@, "Mostrar nombres de nodos"@))
    } else if key == "debug_mode"@ {
        Some(("Debug mode"@, "Debug-Modus"@, "Mode débogage"@, "Modo de depuración"@))
    } else if key == "pause_background"@ {
        Some(("Do not render map when unfocused"@, "Map bei Alt-Tab nicht rendern"@, "Ne pas afficher la carte en arrière-plan"@, "No renderizar el mapa en segundo plano"@))
    } else if key == "auto_refresh"@ {
        Some(("Auto-refresh (minutes)"@, "Auto-Refresh (Minuten)"@, "Actualisation automatique (minutes)"@, "Actualización automática (minutos)"@))
    } else if key == "analysis_duration"@ {
        Some(("Analysis"@, "Analyse"@, "Analyse"@, "Análisis"@))
    } else if key == "last_updated"@ {
        Some(("Last update"@, "Letzte Aktualisierung"@, "Dernière mise à jour"@, "Última actualización"@))
    } else if key == "show_annotations"@ {
        Some(("Show drawings and shapes"@, "Gemaltes und Formen anzeigen"@, "Afficher les dessins et formes"@, "Mostrar dibujos y formas"@))
    } else if key == "more"@ {
        Some(("More"@, "Mehr"@, "Plus"@, "Más"@))
    } else if key == "delete_all_smt_notes"@ {
        Some(("Delete All SMT Notes"@, "Alle SMT-Notizen löschen"@, "Supprimer toutes les notes SMT"@, "Eliminar todas las notas de SMT"@))
    } else if key == "delete_all_smt_notes_title"@ {
        Some(("Delete All SMT Notes?"@, "Alle SMT-Notizen löschen?"@, "Supprimer toutes les notes SMT ?"@, "¿Eliminar todas las notas de SMT?"@))
    } else if key == "delete_all_smt_notes_warning"@ {
        Some(("This removes all SMT data for every savegame and unloads the current save. Original Satisfactory save files are not modified."@, "Dadurch werden alle SMT-Daten für jedes Savegame gelöscht und das aktuelle Savegame entladen. Originale Satisfactory-Savegames werden nicht verändert."@, "Toutes les données SMT de chaque sauvegarde seront supprimées et la sauvegarde actuelle sera déchargée. Les fichiers Satisfactory originaux ne sont pas modifiés."@, "Esto elimina todos los datos de SMT de cada partida y descarga la partida actual. Los archivos originales de Satisfactory no se modifican."@))
    } else if key == "delete_all_smt_notes_confirm"@ {
        Some(("Delete everything"@, "Alles löschen"@, "Tout supprimer"@, "Eliminar todo"@))
    } else if key == "cancel"@ {
        Some(("Cancel"@, "Abbrechen"@, "Annuler"@, "Cancelar"@))
    } else if key == "rails_wip"@ {
        Some(("Show rails"@, "Rails anzeigen"@, "Afficher les rails"@, "Mostrar raíles"@))
    } else if key == "show_foundations"@ {
        Some(("Show foundations"@, "Foundations anzeigen"@, "Afficher les fondations"@, "Mostrar cimientos"@))
    } else if key == "show_belts"@ {
        Some(("Show belts"@, "Belts anzeigen"@, "Mostrar les convoyeurs"@, "Mostrar cintas"@))
    } else if key == "node_size"@ {
        Some(("Node size"@, "Node-Größe"@, "Taille des nodes"@, "Tamaño de los nodos"@))
    } else if key == "background_throttle"@ {
        Some(("Rendering is automatically throttled in the background."@, "Im Hintergrund wird die Darstellung automatisch gedrosselt."@, "Le rendu est automatiquement limité en arrière-plan."@, "El renderizado se ralentiza automáticamente en segundo plano."@))
    } else if key == "map_panel"@ {
        Some(("Map panel"@, "Map-Panel"@, "Panneau de carte"@, "Panel del mapa"@))
    } else if key == "panel_open_hint"@ {
        Some(("Move the cursor to the right edge to open."@, "Zum Öffnen den Cursor an den rechten Fensterrand bewegen."@, "Placez le curseur sur le bord droit pour ouvrir."@, "Mueve el cursor al borde derecho para abrirlo."@))
    } else {
        None
    }
}

/// Dictionary entries, part 3.
pub open spec fn text_entries_2(key: Seq<char>) -> Option<Translations> {
    if key == "close_panel"@ {
        Some(("×  Close panel"@, "×  Panel schließen"@, "×  Fermer le panneau"@, "×  Cerrar panel"@))
    } else if key == "resource_nodes"@ {
        Some(("Resource nodes"@, "Resource-Nodes"@, "Nodes de ressources"@, "Nodos de recursos"@))
    } else if key == "nodes"@ {
        Some(("nodes"@, "Nodes"@, "nodes"@, "nodos"@))
    } else if key == "nodes_loaded"@ {
        Some(("nodes loaded"@, "Nodes geladen"@, "nodes chargés"@, "nodos cargados"@))
    } else if key == "visible_nodes"@ {
        Some(("visible nodes"@, "sichtbare Nodes"@, "nodes visibles"@, "nodos visibles"@))
    } else if key == "remaining_short"@ {
        Some(("remaining"@, "übrig"@, "restantes"@, "restantes"@))
    } else if key == "zoom"@ {
        Some(("Zoom"@, "Zoom"@, "Zoom"@, "Zoom"@))
    } else if key == "cursor_world"@ {
        Some(("Cursor · World"@, "Cursor · Welt"@, "Curseur · Monde"@, "Cursor · Mundo"@))
    } else if key == "rails"@ {
        Some(("rails"@, "Schienen"@, "rails"@, "raíles"@))
    } else if key == "foundation_count"@ {
        Some(("foundations"@, "Foundations"@, "fondations"@, "cimientos"@))
    } else if key == "belt_count"@ {
        Some(("belts"@, "Belts"@, "convoyeurs"@, "cintas"@))
    } else if key == "belts"@ {
        Some(("belts"@, "Belts"@, "convoyeurs"@, "cintas"@))
    } else if key == "claimed_nodes"@ {
        Some(("claimed nodes"@, "geclaimte Nodes"@, "nodes revendiqués"@, "nodos reclamados"@))
    } else if key == "belts_laid"@ {
        Some(("Belts laid"@, "Belts verlegt"@, "Convoyeurs posés"@, "Cintas instaladas"@))
    } else if key == "rails_laid"@ {
        Some(("Rails laid"@, "Schienen verlegt"@, "Rails posés"@, "Raíles instalados"@))
    } else if key == "playtime"@ {
        Some(("Playtime"@, "Spielzeit"@, "Temps de jeu"@, "Tiempo de juego"@))
    } else if key == "save_file"@ {
        Some(("Save"@, "Savegame"@, "Sauvegarde"@, "Guardado"@))
    } else if key == "max_unclaimed"@ {
        Some(("Maximum capacity of unclaimed nodes"@, "Maximale Kapazität unclaimed Nodes"@, "Capacité maximale des nodes non revendiqués"@, "Capacidad máxima de nodos sin reclamar"@))
    } else if key == "unclaimed_hint"@ {
        Some(("Unclaimed nodes use the selected miner at the maximum 250% clock."@, "Unclaimed werden mit dem gewählten Miner bei maximal 250% berechnet."@, "Les nodes non revendiqués utilisent le mineur choisi à 250% maximum."@, "Los nodos sin reclamar usan el minero seleccionado al 250% máximo."@))
    } else if key == "panel_resize_hint"@ {
        Some(("Drag the left edge to resize. Push it to the right edge to close."@, "Panelbreite durch Ziehen der linken Kante ändern. Ganz nach rechts zusammenschieben schließt es."@, "Tirez le bord gauche pour redimensionner. Repoussez-le vers le bord droit pour fermer."@, "Arrastra el borde izquierdo para cambiar el tamaño. Llévalo al borde derecho para cerrarlo."@))
    } else {
        None
    }
}

/// Dictionary entries, part 4.
pub open spec fn text_entries_3(key: Seq<char>) -> Option<Translations> {
    if key == "app_title"@ {
        Some(("Satisfactory Map Tracker"@, "Satisfactory Map Tracker"@, "Satisfactory Map Tracker"@, "Satisfactory Map Tracker"@))
    } else if key == "draw_rectangle"@ {
        Some(("▭  Draw rectangle"@, "▭  Rechteck zeichnen"@, "▭  Dessiner un rectangle"@, "▭  Dibujar rectángulo"@))
    } else if key == "drawing_toolbar"@ {
        Some(("Draw"@, "Zeichnen"@, "Dessiner"@, "Dibujar"@))
    } else if key == "tool_rectangle"@ {
        Some(("Rectangle"@, "Rechteck"@, "Rectangle"@, "Rectángulo"@))
    } else if key == "cancel_rectangle"@ {
        Some(("×  Cancel drawing"@, "×  Zeichnen abbrechen"@, "×  Annuler le dessin"@, "×  Cancelar dibujo"@))
    } else if key == "draw_circle"@ {
        Some(("○  Draw circle"@, "○  Kreis zeichnen"@, "○  Dessiner un cercle"@, "○  Dibujar círculo"@))
    } else if key == "tool_circle"@ {
        Some(("Circle"@, "Kreis"@, "Cercle"@, "Círculo"@))
    } else if key == "cancel_circle"@ {
        Some(("×  Cancel circle"@, "×  Kreis abbrechen"@, "×  Annuler le cercle"@, "×  Cancelar círculo"@))
    } else if key == "draw_arrow"@ {
        Some(("➜  Draw arrow"@, "➜  Pfeil zeichnen"@, "➜  Dessiner une flèche"@, "➜  Dibujar flecha"@))
    } else if key == "tool_arrow"@ {
        Some(("Arrow"@, "Pfeil"@, "Flèche"@, "Flecha"@))
    } else if key == "cancel_arrow"@ {
        Some(("×  Cancel arrow"@, "×  Pfeil abbrechen"@, "×  Annuler la flèche"@, "×  Cancelar flecha"@))
    } else if key == "draw_ruler"@ {
        Some(("⌁  Ruler"@, "⌁  Lineal"@, "⌁  Règle"@, "⌁  Regla"@))
    } else if key == "tool_ruler"@ {
        Some(("Ruler"@, "Lineal"@, "Règle"@, "Regla"@))
    } else if key == "cancel_ruler"@ {
        Some(("×  Stop ruler"@, "×  Lineal stoppen"@, "×  Arrêter la règle"@, "×  Detener regla"@))
    } else if key == "draw_text"@ {
        Some(("T  Add text"@, "T  Text hinzufügen"@, "T  Ajouter du texte"@, "T  Añadir texto"@))
    } else if key == "tool_text"@ {
        Some(("Text"@, "Text"@, "Texte"@, "Texto"@))
    } else if key == "cancel_text"@ {
        Some(("×  Cancel text"@, "×  Text abbrechen"@, "×  Annuler le texte"@, "×  Cancelar texto"@))
    } else if key == "draw_pen"@ {
        Some(("✎  Draw"@, "✎  Stift"@, "✎  Dessiner"@, "✎  Dibujar"@))
    } else if key == "tool_pen"@ {
        Some(("Pen"@, "Stift"@, "Stylo"@, "Lápiz"@))
    } else if key == "cancel_pen"@ {
        Some(("×  Stop pen"@, "×  Stift stoppen"@, "×  Arrêter le stylo"@, "×  Detener lápiz"@))
    } else {
        None
    }
}

/// Dictionary entries, part 5.
pub open spec fn text_entries_4(key: Seq<char>) -> Option<Translations> {
    if key == "draw_eraser"@ {
        Some(("⌫  Eraser"@, "⌫  Radierer"@, "⌫  Gomme"@, "⌫  Borrador"@))
    } else if key == "tool_eraser"@ {
        Some(("Eraser"@, "Radierer"@, "Gomme"@, "Borrador"@))
    } else if key == "cancel_eraser"@ {
        Some(("×  Stop eraser"@, "×  Radierer stoppen"@, "×  Arrêter la gomme"@, "×  Detener borrador"@))
    } else if key == "text_label"@ {
        Some(("Text"@, "Text"@, "Texte"@, "Texto"@))
    } else if key == "save_text"@ {
        Some(("Save"@, "Speichern"@, "Enregistrer"@, "Guardar"@))
    } else if key == "cancel_text_edit"@ {
        Some(("Cancel"@, "Abbrechen"@, "Annuler"@, "Cancelar"@))
    } else if key == "rectangle"@ {
        Some(("Rectangle"@, "Rechteck"@, "Rectangle"@, "Rectángulo"@))
    } else if key == "circle"@ {
        Some(("Circle"@, "Kreis"@, "Cercle"@, "Círculo"@))
    } else if key == "arrow"@ {
        Some(("Arrow"@, "Pfeil"@, "Flèche"@, "Flecha"@))
    } else if key == "ruler"@ {
        Some(("Ruler"@, "Lineal"@, "Règle"@, "Regla"@))
    } else if key == "distance"@ {
        Some(("Distance"@, "Distanz"@, "Distance"@, "Distancia"@))
    } else if key == "delete_annotation"@ {
        Some(("Delete drawing"@, "Zeichnung löschen"@, "Supprimer le dessin"@, "Eliminar dibujo"@))
    } else if key == "move_annotation"@ {
        Some(("Move"@, "Verschieben"@, "Déplacer"@, "Mover"@))
    } else if key == "move_rectangle"@ {
        Some(("Move"@, "Verschieben"@, "Déplacer"@, "Mover"@))
    } else if key == "delete_rectangle"@ {
        Some(("Delete"@, "Löschen"@, "Supprimer"@, "Eliminar"@))
    } else if key == "error"@ {
        Some(("Error"@, "Fehler"@, "Erreur"@, "Error"@))
    } else if key == "not_initialized"@ {
        Some(("The application could not be initialized."@, "Die Anwendung konnte nicht initialisiert werden."@, "L'application n'a pas pu être initialisée."@, "No se pudo inicializar la aplicación."@))
    } else if key == "no_save"@ {
        Some(("No Satisfactory savegame selected."@, "Kein Satisfactory-Savegame ausgewählt."@, "Aucune sauvegarde Satisfactory sélectionnée."@, "No hay ninguna partida de Satisfactory seleccionada."@))
    } else if key == "upload_hint"@ {
        Some(("Please upload a savegame above."@, "Bitte oben ein Savegame hochladen."@, "Chargez une sauvegarde ci-dessus."@, "Carga una partida arriba."@))
    } else if key == "map_paused"@ {
        Some(("Map rendering is paused while the window is in the background."@, "Karten-Rendering pausiert, solange das Fenster im Hintergrund ist."@, "Le rendu de la carte est en pause lorsque la fenêtre est en arrière-plan."@, "El renderizado del mapa está pausado cuando la ventana está en segundo plano."@))
    } else {
        None
    }
}

/// Dictionary entries, part 6.
pub open spec fn text_entries_5(key: Seq<char>) -> Option<Translations> {
    if key == "change_in_settings"@ {
        Some(("(Can be changed in Settings)"@, "(In den Einstellungen änderbar)"@, "(Modifiable dans les paramètres)"@, "(Se puede cambiar en Ajustes)"@))
    } else if key == "save_status"@ {
        Some(("Savegame status"@, "Savegame-Status"@, "État de la sauvegarde"@, "Estado de la partida"@))
    } else if key == "no_saved_save"@ {
        Some(("No savegame stored yet."@, "Noch kein Savegame gespeichert."@, "Aucune sauvegarde enregistrée."@, "Todavía no hay ninguna partida guardada."@))
    } else if key == "local_copy"@ {
        Some(("Local copy"@, "Lokale Kopie"@, "Copie locale"@, "Copia local"@))
    } else if key == "resource_remaining"@ {
        Some(("Resources used"@, "Verwendete Ressourcen"@, "Ressources utilisées"@, "Recursos utilizados"@))
    } else if key == "no_extractors"@ {
        Some(("No placed extractor data loaded yet."@, "Noch keine platzierten Extractor-Daten geladen."@, "Aucune donnée d'extracteur placé n'est encore chargée."@, "Aún no se han cargado extractores colocados."@))
    } else if key == "available_per_minute"@ {
        Some(("available per minute"@, "pro Minute verfügbar"@, "disponibles par minute"@, "disponibles por minuto"@))
    } else if key == "not_fully_used"@ {
        Some(("not fully used"@, "nicht vollständig genutzt"@, "non utilisés complètement"@, "no utilizados por completo"@))
    } else if key == "resource"@ {
        Some(("Resource"@, "Ressource"@, "Ressource"@, "Recurso"@))
    } else if key == "purity"@ {
        Some(("Purity"@, "Reinheit"@, "Pureté"@, "Pureza"@))
    } else if key == "all_resources"@ {
        Some(("All resources"@, "Alle Ressourcen"@, "Toutes les ressources"@, "Todos los recursos"@))
    } else if key == "no_resources_selected"@ {
        Some(("No resources selected"@, "Keine Ressourcen ausgewählt"@, "Aucune ressource sélectionnée"@, "No hay recursos seleccionados"@))
    } else if key == "resources_selected"@ {
        Some(("selected"@, "ausgewählt"@, "sélectionnées"@, "seleccionados"@))
    } else if key == "activate_all"@ {
        Some(("Activate all"@, "Alle aktivieren"@, "Tout activer"@, "Activar todos"@))
    } else if key == "deactivate_all"@ {
        Some(("Deactivate all"@, "Alle deaktivieren"@, "Tout désactiver"@, "Desactivar todos"@))
    } else if key == "all_purities"@ {
        Some(("All purities"@, "Alle Reinheiten"@, "Toutes les puretés"@, "Todas las purezas"@))
    } else if key == "claimed_only"@ {
        Some(("Claimed nodes only"@, "Nur geclaimte Nodes"@, "Nodes revendiqués uniquement"@, "Solo nodos reclamados"@))
    } else if key == "partial_only"@ {
        Some(("Partially used nodes only"@, "Nur nicht vollständig genutzte Nodes"@, "Nodes partiellement utilisés uniquement"@, "Solo nodos parcialmente usados"@))
    } else if key == "planned_only"@ {
        Some(("Planned nodes only"@, "Nur geplante Nodes"@, "Nodes planifiés uniquement"@, "Solo nodos planificados"@))
    } else if key == "grid"@ {
        Some(("Show coordinate grid"@, "Koordinatenraster anzeigen"@, "Afficher la grille de coordonnées"@, "Mostrar cuadrícula de coordenadas"@))
    } else {
        None
    }
}

/// Dictionary entries, part 7.
pub open spec fn text_entries_6(key: Seq<char>) -> Option<Translations> {
    if key == "detailed_png_map"@ {
        Some(("Use detailed PNG map"@, "Detaillierte PNG-Karte verwenden"@, "Utiliser la carte PNG détaillée"@, "Usar mapa PNG detallado"@))
    } else if key == "world_data_hint"@ {
        Some(("The map and positions come from local world data."@, "Karte und Positionen stammen aus den lokalen Welt-Daten."@, "La carte et les positions proviennent des données locales du monde."@, "El mapa y las posiciones proceden de los datos locales del mundo."@))
    } else if key == "reset_view"@ {
        Some(("Reset view"@, "Ansicht zurücksetzen"@, "Réinitialiser la vue"@, "Restablecer vista"@))
    } else if key == "close"@ {
        Some(("Close"@, "Schließen"@, "Fermer"@, "Cerrar"@))
    } else if key == "usage"@ {
        Some(("Usage"@, "Ressourcenverbrauch"@, "Utilisation"@, "Uso"@))
    } else if key == "note"@ {
        Some(("Note"@, "Notiz"@, "Note"@, "Nota"@))
    } else if key == "yield"@ {
        Some(("Yield"@, "Ertrag"@, "Rendement"@, "Producción"@))
    } else if key == "theoretical_yield"@ {
        Some(("Theoretical miner yield"@, "Theoretischer Miner-Ertrag"@, "Rendement théorique du mineur"@, "Producción teórica del minero"@))
    } else if key == "maximum_settable"@ {
        Some(("Maximum settable"@, "Maximal einstellbar"@, "Maximum réglable"@, "Máximo configurable"@))
    } else if key == "max_value"@ {
        Some(("Max"@, "Max"@, "Max"@, "Máx."@))
    } else if key == "max_possible"@ {
        Some(("Max possible"@, "Maximal möglich"@, "Maximum possible"@, "Máximo posible"@))
    } else if key == "powershards_clock"@ {
        Some(("Powershards"@, "Powershards"@, "Powershards"@, "Powershards"@))
    } else if key == "used_per_minute"@ {
        Some(("used per minute"@, "pro Minute verwendet"@, "utilisés par minute"@, "usados por minuto"@))
    } else if key == "free_per_minute"@ {
        Some(("Free"@, "Frei"@, "Libre"@, "Libre"@))
    } else if key == "occupancy"@ {
        Some(("Occupancy"@, "Belegung"@, "Occupation"@, "Ocupación"@))
    } else if key == "node_id"@ {
        Some(("Node ID"@, "Node-ID"@, "ID du node"@, "ID del nodo"@))
    } else if key == "world"@ {
        Some(("World"@, "Welt"@, "Monde"@, "Mundo"@))
    } else if key == "extractor_unknown"@ {
        Some(("Extractor not found in savegame"@, "Extractor keiner in der Save-Datei erkannt"@, "Extracteur introuvable dans la sauvegarde"@, "Extractor no encontrado en la partida"@))
    } else if key == "method"@ {
        Some(("Method"@, "Methode"@, "Méthode"@, "Método"@))
    } else if key == "rate_per_satellite"@ {
        Some(("Rate applies per resource-well satellite."@, "Rate gilt pro Resource-Well-Satellit."@, "Le débit s'applique par satellite du puits."@, "La tasa se aplica por satélite del pozo."@))
    } else {
        None
    }
}

/// Dictionary entries, part 8.
pub open spec fn text_entries_7(key: Seq<char>) -> Option<Translations> {
    if key == "well_core"@ {
        Some(("Central resource-well core"@, "Zentraler Resource-Well-Kern"@, "Cœur central du puits de ressources"@, "Núcleo central del pozo de recursos"@))
    } else if key == "well_yield_hint"@ {
        Some(("Yield comes from the connected satellite nodes."@, "Die Ausbeute kommt von den verbundenen Satelliten-Nodes."@, "Le rendement vient des nodes satellites connectés."@, "La producción procede de los nodos satélite conectados."@))
    } else if key == "manual_deposit"@ {
        Some(("Manual deposit – no miner extractor"@, "Manuelles Deposit – kein Miner-Extractor"@, "Gisement manuel – aucun extracteur"@, "Depósito manual – sin extractor minero"@))
    } else if key == "your_entry"@ {
        Some(("Your entry"@, "Dein Eintrag"@, "Votre saisie"@, "Tu entrada"@))
    } else if key == "satellite_usage"@ {
        Some(("Usage"@, "Nutzung"@, "Utilisation"@, "Uso"@))
    } else if key == "oil_extractor"@ {
        Some(("Oil Extractor"@, "Oil Extractor"@, "Extracteur de pétrole"@, "Extractor de petróleo"@))
    } else if key == "well_extractor"@ {
        Some(("Resource Well Extractor"@, "Resource Well Extractor"@, "Extracteur de puits de ressources"@, "Extractor de pozo de recursos"@))
    } else if key == "miner"@ {
        Some(("Miner"@, "Miner"@, "Mineur"@, "Minero"@))
    } else if key == "theoretical"@ {
        Some(("Theoretical"@, "Theoretischer"@, "Théorique"@, "Teórico"@))
    } else if key == "output"@ {
        Some(("Output"@, "Output"@, "Sortie"@, "Producción"@))
    } else if key == "satellites_total"@ {
        Some(("Total satellites"@, "Satelliten gesamt"@, "Total des satellites"@, "Satélites totales"@))
    } else if key == "satellites_in_well"@ {
        Some(("satellites in well"@, "Satelliten im Well"@, "satellites dans le puits"@, "satélites en el pozo"@))
    } else if key == "claimed"@ {
        Some(("●  Claimed"@, "●  Geclaimt"@, "●  Revendiqué"@, "●  Reclamado"@))
    } else if key == "unclaimed"@ {
        Some(("○  Unclaimed"@, "○  Nicht geclaimt"@, "○  Non revendiqué"@, "○  Sin reclamar"@))
    } else {
        None
    }
}

/// The translations of `key`; unknown keys have empty texts.
pub open spec fn text_entry(key: Seq<char>) -> Translations {
    if text_entries_0(key) is Some {
        text_entries_0(key)->Some_0
    } else if text_entries_1(key) is Some {
        text_entries_1(key)->Some_0
    } else if text_entries_2(key) is Some {
        text_entries_2(key)->Some_0
    } else if text_entries_3(key) is Some {
        text_entries_3(key)->Some_0
    } else if text_entries_4(key) is Some {
        text_entries_4(key)->Some_0
    } else if text_entries_5(key) is Some {
        text_entries_5(key)->Some_0
    } else if text_entries_6(key) is Some {
        text_entries_6(key)->Some_0
    } else if text_entries_7(key) is Some {
        text_entries_7(key)->Some_0
    } else {
        (Seq::empty(), Seq::empty(), Seq::empty(), Seq::empty())
    }
}

/// The text for `key` in `language`.
pub open spec fn spec_text(language: Language, key: Seq<char>) -> Seq<char> {
    let e = text_entry(key);
    match language {
        Language::English => e.0,
        Language::German => e.1,
        Language::French => e.2,
        Language::Spanish => e.3,
    }
}

fn lookup_entries_0(key: &str) -> (r: Option<(&'static str, &'static str, &'static str, &'static str)>)
    ensures
        match text_entries_0(key@) {
            Some(t) => r matches Some(e) && e.0@ == t.0 && e.1@ == t.1 && e.2@ == t.2 && e.3@ == t.3,
            None => r is None,
        },
{
    if str_eq(key, "ready") {
        return Some(("Ready", "Bereit", "Prêt", "Listo"));
    }
    if str_eq(key, "loading") {
        return Some(("Loading…", "Laden…", "Chargement…", "Cargando…"));
    }
    if str_eq(key, "save_stored") {
        return Some(("New savegame stored", "Neues Savegame gespeichert", "Nouvelle sauvegarde enregistrée", "Nueva partida guardada"));
    }
    if str_eq(key, "no_changes") {
        return Some(("No changes found", "Keine Änderungen gefunden", "Aucune modification trouvée", "No se encontraron cambios"));
    }
    if str_eq(key, "analyzing_save") {
        return Some(("Analyzing savegame …", "Savegame wird analysiert …", "Analyse de la sauvegarde …", "Analizando partida …"));
    }
    if str_eq(key, "save_analyzed") {
        return Some(("Savegame analyzed", "Savegame analysiert", "Sauvegarde analysée", "Partida analizada"));
    }
    if str_eq(key, "analysis_failed") {
        return Some(("Savegame could not be analyzed", "Savegame konnte nicht analysiert werden", "Impossible d'analyser la sauvegarde", "No se pudo analizar la partida"));
    }
    if str_eq(key, "analysis_stopped") {
        return Some(("Savegame analysis stopped", "Savegame-Analyse wurde beendet", "Analyse de la sauvegarde arrêtée", "Análisis de partida detenido"));
    }
    if str_eq(key, "save_updated") {
        return Some(("Savegame updated", "Savegame aktualisiert", "Sauvegarde mise à jour", "Partida actualizada"));
    }
    if str_eq(key, "node_data_saved") {
        return Some(("Node data saved", "Node-Daten gespeichert", "Données des nodes enregistrées", "Datos de nodos guardados"));
    }
    if str_eq(key, "initialization_failed") {
        return Some(("Initialization failed", "Initialisierung fehlgeschlagen", "Échec de l'initialisation", "Error de inicialización"));
    }
    if str_eq(key, "upload_save") {
        return Some(("↑  Upload savegame", "↑  Savegame hochladen", "↑  Charger une sauvegarde", "↑  Cargar partida"));
    }
    if str_eq(key, "refresh") {
        return Some(("↻  Refresh", "↻  Refresh", "↻  Actualiser", "↻  Actualizar"));
    }
    if str_eq(key, "remove_save") {
        return Some(("×  Remove savegame", "×  Savegame entfernen", "×  Retirer la sauvegarde", "×  Quitar partida"));
    }
    if str_eq(key, "settings") {
        return Some(("Settings", "Einstellungen", "Paramètres", "Ajustes"));
    }
    if str_eq(key, "settings_application") {
        return Some(("Application", "Anwendung", "Application", "Aplicación"));
    }
    if str_eq(key, "settings_map") {
        return Some(("Map & nodes", "Karte & Nodes", "Carte et nodes", "Mapa y nodos"));
    }
    if str_eq(key, "settings_display") {
        return Some(("Display & performance", "Darstellung & Performance", "Affichage et performances", "Pantalla y rendimiento"));
    }
    if str_eq(key, "settings_testing") {
        return Some(("Testing stuff", "Testing stuff", "Fonctions de test", "Funciones de prueba"));
    }
    if str_eq(key, "language") {
        return Some(("Language", "Sprache", "Langue", "Idioma"));
    }
    None
}

fn lookup_entries_1(key: &str) -> (r: Option<(&'static str, &'static str, &'static str, &'static str)>)
    ensures
        match text_entries_1(key@) {
            Some(t) => r matches Some(e) && e.0@ == t.0 && e.1@ == t.1 && e.2@ == t.2 && e.3@ == t.3,
            None => r is None,
        },
{
    if str_eq(key, "node_names") {
        return Some(("Show node names", "Node-Namen anzeigen", "Afficher les noms des nodes", "Mostrar nombres de nodos"));
    }
    if str_eq(key, "debug_mode") {
        return Some(("Debug mode", "Debug-Modus", "Mode débogage", "Modo de depuración"));
    }
    if str_eq(key, "pause_background") {
        return Some(("Do not render map when unfocused", "Map bei Alt-Tab nicht rendern", "Ne pas afficher la carte en arrière-plan", "No renderizar el mapa en segundo plano"));
    }
    if str_eq(key, "auto_refresh") {
        return Some(("Auto-refresh (minutes)", "Auto-Refresh (Minuten)", "Actualisation automatique (minutes)", "Actualización automática (minutos)"));
    }
    if str_eq(key, "analysis_duration") {
        return Some(("Analysis", "Analyse", "Analyse", "Análisis"));
    }
    if str_eq(key, "last_updated") {
        return Some(("Last update", "Letzte Aktualisierung", "Dernière mise à jour", "Última actualización"));
    }
    if str_eq(key, "show_annotations") {
        return Some(("Show drawings and shapes", "Gemaltes und Formen anzeigen", "Afficher les dessins et formes", "Mostrar dibujos y formas"));
    }
    if str_eq(key, "more") {
        return Some(("More", "Mehr", "Plus", "Más"));
    }
    if str_eq(key, "delete_all_smt_notes") {
        return Some(("Delete All SMT Notes", "Alle SMT-Notizen löschen", "Supprimer toutes les notes SMT", "Eliminar todas las notas de SMT"));
    }
    if str_eq(key, "delete_all_smt_notes_title") {
        return Some(("Delete All SMT Notes?", "Alle SMT-Notizen löschen?", "Supprimer toutes les notes SMT ?", "¿Eliminar todas las notas de SMT?"));
    }
    if str_eq(key, "delete_all_smt_notes_warning") {
        return Some(("This removes all SMT data for every savegame and unloads the current save. Original Satisfactory save files are not modified.", "Dadurch werden alle SMT-Daten für jedes Savegame gelöscht und das aktuelle Savegame entladen. Originale Satisfactory-Savegames werden nicht verändert.", "Toutes les données SMT de chaque sauvegarde seront supprimées et la sauvegarde actuelle sera déchargée. Les fichiers Satisfactory originaux ne sont pas modifiés.", "Esto elimina todos los datos de SMT de cada partida y descarga la partida actual. Los archivos originales de Satisfactory no se modifican."));
    }
    if str_eq(key, "delete_all_smt_notes_confirm") {
        return Some(("Delete everything", "Alles löschen", "Tout supprimer", "Eliminar todo"));
    }
    if str_eq(key, "cancel") {
        return Some(("Cancel", "Abbrechen", "Annuler", "Cancelar"));
    }
    if str_eq(key, "rails_wip") {
        return Some(("Show rails", "Rails anzeigen", "Afficher les rails", "Mostrar raíles"));
    }
    if str_eq(key, "show_foundations") {
        return Some(("Show foundations", "Foundations anzeigen", "Afficher les fondations", "Mostrar cimientos"));
    }
    if str_eq(key, "show_belts") {
        return Some(("Show belts", "Belts anzeigen", "Mostrar les convoyeurs", "Mostrar cintas"));
    }
    if str_eq(key, "node_size") {
        return Some(("Node size", "Node-Größe", "Taille des nodes", "Tamaño de los nodos"));
    }
    if str_eq(key, "background_throttle") {
        return Some(("Rendering is automatically throttled in the background.", "Im Hintergrund wird die Darstellung automatisch gedrosselt.", "Le rendu est automatiquement limité en arrière-plan.", "El renderizado se ralentiza automáticamente en segundo plano."));
    }
    if str_eq(key, "map_panel") {
        return Some(("Map panel", "Map-Panel", "Panneau de carte", "Panel del mapa"));
    }
    if str_eq(key, "panel_open_hint") {
        return Some(("Move the cursor to the right edge to open.", "Zum Öffnen den Cursor an den rechten Fensterrand bewegen.", "Placez le curseur sur le bord droit pour ouvrir.", "Mueve el cursor al borde derecho para abrirlo."));
    }
    None
}

fn lookup_entries_2(key: &str) -> (r: Option<(&'static str, &'static str, &'static str, &'static str)>)
    ensures
        match text_entries_2(key@) {
            Some(t) => r matches Some(e) && e.0@ == t.0 && e.1@ == t.1 && e.2@ == t.2 && e.3@ == t.3,
            None => r is None,
        },
{
    if str_eq(key, "close_panel") {
        return Some(("×  Close panel", "×  Panel schließen", "×  Fermer le panneau", "×  Cerrar panel"));
    }
    if str_eq(key, "resource_nodes") {
        return Some(("Resource nodes", "Resource-Nodes", "Nodes de ressources", "Nodos de recursos"));
    }
    if str_eq(key, "nodes") {
        return Some(("nodes", "Nodes", "nodes", "nodos"));
    }
    if str_eq(key, "nodes_loaded") {
        return Some(("nodes loaded", "Nodes geladen", "nodes chargés", "nodos cargados"));
    }
    if str_eq(key, "visible_nodes") {
        return Some(("visible nodes", "sichtbare Nodes", "nodes visibles", "nodos visibles"));
    }
    if str_eq(key, "remaining_short") {
        return Some(("remaining", "übrig", "restantes", "restantes"));
    }
    if str_eq(key, "zoom") {
        return Some(("Zoom", "Zoom", "Zoom", "Zoom"));
    }
    if str_eq(key, "cursor_world") {
        return Some(("Cursor · World", "Cursor · Welt", "Curseur · Monde", "Cursor · Mundo"));
    }
    if str_eq(key, "rails") {
        return Some(("rails", "Schienen", "rails", "raíles"));
    }
    if str_eq(key, "foundation_count") {
        return Some(("foundations", "Foundations", "fondations", "cimientos"));
    }
    if str_eq(key, "belt_count") {
        return Some(("belts", "Belts", "convoyeurs", "cintas"));
    }
    if str_eq(key, "belts") {
        return Some(("belts", "Belts", "convoyeurs", "cintas"));
    }
    if str_eq(key, "claimed_nodes") {
        return Some(("claimed nodes", "geclaimte Nodes", "nodes revendiqués", "nodos reclamados"));
    }
    if str_eq(key, "belts_laid") {
        return Some(("Belts laid", "Belts verlegt", "Convoyeurs posés", "Cintas instaladas"));
    }
    if str_eq(key, "rails_laid") {
        return Some(("Rails laid", "Schienen verlegt", "Rails posés", "Raíles instalados"));
    }
    if str_eq(key, "playtime") {
        return Some(("Playtime", "Spielzeit", "Temps de jeu", "Tiempo de juego"));
    }
    if str_eq(key, "save_file") {
        return Some(("Save", "Savegame", "Sauvegarde", "Guardado"));
    }
    if str_eq(key, "max_unclaimed") {
        return Some(("Maximum capacity of unclaimed nodes", "Maximale Kapazität unclaimed Nodes", "Capacité maximale des nodes non revendiqués", "Capacidad máxima de nodos sin reclamar"));
    }
    if str_eq(key, "unclaimed_hint") {
        return Some(("Unclaimed nodes use the selected miner at the maximum 250% clock.", "Unclaimed werden mit dem gewählten Miner bei maximal 250% berechnet.", "Les nodes non revendiqués utilisent le mineur choisi à 250% maximum.", "Los nodos sin reclamar usan el minero seleccionado al 250% máximo."));
    }
    if str_eq(key, "panel_resize_hint") {
        return Some(("Drag the left edge to resize. Push it to the right edge to close.", "Panelbreite durch Ziehen der linken Kante ändern. Ganz nach rechts zusammenschieben schließt es.", "Tirez le bord gauche pour redimensionner. Repoussez-le vers le bord droit pour fermer.", "Arrastra el borde izquierdo para cambiar el tamaño. Llévalo al borde derecho para cerrarlo."));
    }
    None
}

fn lookup_entries_3(key: &str) -> (r: Option<(&'static str, &'static str, &'static str, &'static str)>)
    ensures
        match text_entries_3(key@) {
            Some(t) => r matches Some(e) && e.0@ == t.0 && e.1@ == t.1 && e.2@ == t.2 && e.3@ == t.3,
            None => r is None,
        },
{
    if str_eq(key, "app_title") {
        return Some(("Satisfactory Map Tracker", "Satisfactory Map Tracker", "Satisfactory Map Tracker", "Satisfactory Map Tracker"));
    }
    if str_eq(key, "draw_rectangle") {
        return Some(("▭  Draw rectangle", "▭  Rechteck zeichnen", "▭  Dessiner un rectangle", "▭  Dibujar rectángulo"));
    }
    if str_eq(key, "drawing_toolbar") {
        return Some(("Draw", "Zeichnen", "Dessiner", "Dibujar"));
    }
    if str_eq(key, "tool_rectangle") {
        return Some(("Rectangle", "Rechteck", "Rectangle", "Rectángulo"));
    }
    if str_eq(key, "cancel_rectangle") {
        return Some(("×  Cancel drawing", "×  Zeichnen abbrechen", "×  Annuler le dessin", "×  Cancelar dibujo"));
    }
    if str_eq(key, "draw_circle") {
        return Some(("○  Draw circle", "○  Kreis zeichnen", "○  Dessiner un cercle", "○  Dibujar círculo"));
    }
    if str_eq(key, "tool_circle") {
        return Some(("Circle", "Kreis", "Cercle", "Círculo"));
    }
    if str_eq(key, "cancel_circle") {
        return Some(("×  Cancel circle", "×  Kreis abbrechen", "×  Annuler le cercle", "×  Cancelar círculo"));
    }
    if str_eq(key, "draw_arrow") {
        return Some(("➜  Draw arrow", "➜  Pfeil zeichnen", "➜  Dessiner une flèche", "➜  Dibujar flecha"));
    }
    if str_eq(key, "tool_arrow") {
        return Some(("Arrow", "Pfeil", "Flèche", "Flecha"));
    }
    if str_eq(key, "cancel_arrow") {
        return Some(("×  Cancel arrow", "×  Pfeil abbrechen", "×  Annuler la flèche", "×  Cancelar flecha"));
    }
    if str_eq(key, "draw_ruler") {
        return Some(("⌁  Ruler", "⌁  Lineal", "⌁  Règle", "⌁  Regla"));
    }
    if str_eq(key, "tool_ruler") {
        return Some(("Ruler", "Lineal", "Règle", "Regla"));
    }
    if str_eq(key, "cancel_ruler") {
        return Some(("×  Stop ruler", "×  Lineal stoppen", "×  Arrêter la règle", "×  Detener regla"));
    }
    if str_eq(key, "draw_text") {
        return Some(("T  Add text", "T  Text hinzufügen", "T  Ajouter du texte", "T  Añadir texto"));
    }
    if str_eq(key, "tool_text") {
        return Some(("Text", "Text", "Texte", "Texto"));
    }
    if str_eq(key, "cancel_text") {
        return Some(("×  Cancel text", "×  Text abbrechen", "×  Annuler le texte", "×  Cancelar texto"));
    }
    if str_eq(key, "draw_pen") {
        return Some(("✎  Draw", "✎  Stift", "✎  Dessiner", "✎  Dibujar"));
    }
    if str_eq(key, "tool_pen") {
        return Some(("Pen", "Stift", "Stylo", "Lápiz"));
    }
    if str_eq(key, "cancel_pen") {
        return Some(("×  Stop pen", "×  Stift stoppen", "×  Arrêter le stylo", "×  Detener lápiz"));
    }
    None
}

fn lookup_entries_4(key: &str) -> (r: Option<(&'static str, &'static str, &'static str, &'static str)>)
    ensures
        match text_entries_4(key@) {
            Some(t) => r matches Some(e) && e.0@ == t.0 && e.1@ == t.1 && e.2@ == t.2 && e.3@ == t.3,
            None => r is None,
        },
{
    if str_eq(key, "draw_eraser") {
        return Some(("⌫  Eraser", "⌫  Radierer", "⌫  Gomme", "⌫  Borrador"));
    }
    if str_eq(key, "tool_eraser") {
        return Some(("Eraser", "Radierer", "Gomme", "Borrador"));
    }
    if str_eq(key, "cancel_eraser") {
        return Some(("×  Stop eraser", "×  Radierer stoppen", "×  Arrêter la gomme", "×  Detener borrador"));
    }
    if str_eq(key, "text_label") {
        return Some(("Text", "Text", "Texte", "Texto"));
    }
    if str_eq(key, "save_text") {
        return Some(("Save", "Speichern", "Enregistrer", "Guardar"));
    }
    if str_eq(key, "cancel_text_edit") {
        return Some(("Cancel", "Abbrechen", "Annuler", "Cancelar"));
    }
    if str_eq(key, "rectangle") {
        return Some(("Rectangle", "Rechteck", "Rectangle", "Rectángulo"));
    }
    if str_eq(key, "circle") {
        return Some(("Circle", "Kreis", "Cercle", "Círculo"));
    }
    if str_eq(key, "arrow") {
        return Some(("Arrow", "Pfeil", "Flèche", "Flecha"));
    }
    if str_eq(key, "ruler") {
        return Some(("Ruler", "Lineal", "Règle", "Regla"));
    }
    if str_eq(key, "distance") {
        return Some(("Distance", "Distanz", "Distance", "Distancia"));
    }
    if str_eq(key, "delete_annotation") {
        return Some(("Delete drawing", "Zeichnung löschen", "Supprimer le dessin", "Eliminar dibujo"));
    }
    if str_eq(key, "move_annotation") {
        return Some(("Move", "Verschieben", "Déplacer", "Mover"));
    }
    if str_eq(key, "move_rectangle") {
        return Some(("Move", "Verschieben", "Déplacer", "Mover"));
    }
    if str_eq(key, "delete_rectangle") {
        return Some(("Delete", "Löschen", "Supprimer", "Eliminar"));
    }
    if str_eq(key, "error") {
        return Some(("Error", "Fehler", "Erreur", "Error"));
    }
    if str_eq(key, "not_initialized") {
        return Some(("The application could not be initialized.", "Die Anwendung konnte nicht initialisiert werden.", "L'application n'a pas pu être initialisée.", "No se pudo inicializar la aplicación."));
    }
    if str_eq(key, "no_save") {
        return Some(("No Satisfactory savegame selected.", "Kein Satisfactory-Savegame ausgewählt.", "Aucune sauvegarde Satisfactory sélectionnée.", "No hay ninguna partida de Satisfactory seleccionada."));
    }
    if str_eq(key, "upload_hint") {
        return Some(("Please upload a savegame above.", "Bitte oben ein Savegame hochladen.", "Chargez une sauvegarde ci-dessus.", "Carga una partida arriba."));
    }
    if str_eq(key, "map_paused") {
        return Some(("Map rendering is paused while the window is in the background.", "Karten-Rendering pausiert, solange das Fenster im Hintergrund ist.", "Le rendu de la carte est en pause lorsque la fenêtre est en arrière-plan.", "El renderizado del mapa está pausado cuando la ventana está en segundo plano."));
    }
    None
}

fn lookup_entries_5(key: &str) -> (r: Option<(&'static str, &'static str, &'static str, &'static str)>)
    ensures
        match text_entries_5(key@) {
            Some(t) => r matches Some(e) && e.0@ == t.0 && e.1@ == t.1 && e.2@ == t.2 && e.3@ == t.3,
            None => r is None,
        },
{
    if str_eq(key, "change_in_settings") {
        return Some(("(Can be changed in Settings)", "(In den Einstellungen änderbar)", "(Modifiable dans les paramètres)", "(Se puede cambiar en Ajustes)"));
    }
    if str_eq(key, "save_status") {
        return Some(("Savegame status", "Savegame-Status", "État de la sauvegarde", "Estado de la partida"));
    }
    if str_eq(key, "no_saved_save") {
        return Some(("No savegame stored yet.", "Noch kein Savegame gespeichert.", "Aucune sauvegarde enregistrée.", "Todavía no hay ninguna partida guardada."));
    }
    if str_eq(key, "local_copy") {
        return Some(("Local copy", "Lokale Kopie", "Copie locale", "Copia local"));
    }
    if str_eq(key, "resource_remaining") {
        return Some(("Resources used", "Verwendete Ressourcen", "Ressources utilisées", "Recursos utilizados"));
    }
    if str_eq(key, "no_extractors") {
        return Some(("No placed extractor data loaded yet.", "Noch keine platzierten Extractor-Daten geladen.", "Aucune donnée d'extracteur placé n'est encore chargée.", "Aún no se han cargado extractores colocados."));
    }
    if str_eq(key, "available_per_minute") {
        return Some(("available per minute", "pro Minute verfügbar", "disponibles par minute", "disponibles por minuto"));
    }
    if str_eq(key, "not_fully_used") {
        return Some(("not fully used", "nicht vollständig genutzt", "non utilisés complètement", "no utilizados por completo"));
    }
    if str_eq(key, "resource") {
        return Some(("Resource", "Ressource", "Ressource", "Recurso"));
    }
    if str_eq(key, "purity") {
        return Some(("Purity", "Reinheit", "Pureté", "Pureza"));
    }
    if str_eq(key, "all_resources") {
        return Some(("All resources", "Alle Ressourcen", "Toutes les ressources", "Todos los recursos"));
    }
    if str_eq(key, "no_resources_selected") {
        return Some(("No resources selected", "Keine Ressourcen ausgewählt", "Aucune ressource sélectionnée", "No hay recursos seleccionados"));
    }
    if str_eq(key, "resources_selected") {
        return Some(("selected", "ausgewählt", "sélectionnées", "seleccionados"));
    }
    if str_eq(key, "activate_all") {
        return Some(("Activate all", "Alle aktivieren", "Tout activer", "Activar todos"));
    }
    if str_eq(key, "deactivate_all") {
        return Some(("Deactivate all", "Alle deaktivieren", "Tout désactiver", "Desactivar todos"));
    }
    if str_eq(key, "all_purities") {
        return Some(("All purities", "Alle Reinheiten", "Toutes les puretés", "Todas las purezas"));
    }
    if str_eq(key, "claimed_only") {
        return Some(("Claimed nodes only", "Nur geclaimte Nodes", "Nodes revendiqués uniquement", "Solo nodos reclamados"));
    }
    if str_eq(key, "partial_only") {
        return Some(("Partially used nodes only", "Nur nicht vollständig genutzte Nodes", "Nodes partiellement utilisés uniquement", "Solo nodos parcialmente usados"));
    }
    if str_eq(key, "planned_only") {
        return Some(("Planned nodes only", "Nur geplante Nodes", "Nodes planifiés uniquement", "Solo nodos planificados"));
    }
    if str_eq(key, "grid") {
        return Some(("Show coordinate grid", "Koordinatenraster anzeigen", "Afficher la grille de coordonnées", "Mostrar cuadrícula de coordenadas"));
    }
    None
}

fn lookup_entries_6(key: &str) -> (r: Option<(&'static str, &'static str, &'static str, &'static str)>)
    ensures
        match text_entries_6(key@) {
            Some(t) => r matches Some(e) && e.0@ == t.0 && e.1@ == t.1 && e.2@ == t.2 && e.3@ == t.3,
            None => r is None,
        },
{
    if str_eq(key, "detailed_png_map") {
        return Some(("Use detailed PNG map", "Detaillierte PNG-Karte verwenden", "Utiliser la carte PNG détaillée", "Usar mapa PNG detallado"));
    }
    if str_eq(key, "world_data_hint") {
        return Some(("The map and positions come from local world data.", "Karte und Positionen stammen aus den lokalen Welt-Daten.", "La carte et les positions proviennent des données locales du monde.", "El mapa y las posiciones proceden de los datos locales del mundo."));
    }
    if str_eq(key, "reset_view") {
        return Some(("Reset view", "Ansicht zurücksetzen", "Réinitialiser la vue", "Restablecer vista"));
    }
    if str_eq(key, "close") {
        return Some(("Close", "Schließen", "Fermer", "Cerrar"));
    }
    if str_eq(key, "usage") {
        return Some(("Usage", "Ressourcenverbrauch", "Utilisation", "Uso"));
    }
    if str_eq(key, "note") {
        return Some(("Note", "Notiz", "Note", "Nota"));
    }
    if str_eq(key, "yield") {
        return Some(("Yield", "Ertrag", "Rendement", "Producción"));
    }
    if str_eq(key, "theoretical_yield") {
        return Some(("Theoretical miner yield", "Theoretischer Miner-Ertrag", "Rendement théorique du mineur", "Producción teórica del minero"));
    }
    if str_eq(key, "maximum_settable") {
        return Some(("Maximum settable", "Maximal einstellbar", "Maximum réglable", "Máximo configurable"));
    }
    if str_eq(key, "max_value") {
        return Some(("Max", "Max", "Max", "Máx."));
    }
    if str_eq(key, "max_possible") {
        return Some(("Max possible", "Maximal möglich", "Maximum possible", "Máximo posible"));
    }
    if str_eq(key, "powershards_clock") {
        return Some(("Powershards", "Powershards", "Powershards", "Powershards"));
    }
    if str_eq(key, "used_per_minute") {
        return Some(("used per minute", "pro Minute verwendet", "utilisés par minute", "usados por minuto"));
    }
    if str_eq(key, "free_per_minute") {
        return Some(("Free", "Frei", "Libre", "Libre"));
    }
    if str_eq(key, "occupancy") {
        return Some(("Occupancy", "Belegung", "Occupation", "Ocupación"));
    }
    if str_eq(key, "node_id") {
        return Some(("Node ID", "Node-ID", "ID du node", "ID del nodo"));
    }
    if str_eq(key, "world") {
        return Some(("World", "Welt", "Monde", "Mundo"));
    }
    if str_eq(key, "extractor_unknown") {
        return Some(("Extractor not found in savegame", "Extractor keiner in der Save-Datei erkannt", "Extracteur introuvable dans la sauvegarde", "Extractor no encontrado en la partida"));
    }
    if str_eq(key, "method") {
        return Some(("Method", "Methode", "Méthode", "Método"));
    }
    if str_eq(key, "rate_per_satellite") {
        return Some(("Rate applies per resource-well satellite.", "Rate gilt pro Resource-Well-Satellit.", "Le débit s'applique par satellite du puits.", "La tasa se aplica por satélite del pozo."));
    }
    None
}

fn lookup_entries_7(key: &str) -> (r: Option<(&'static str, &'static str, &'static str, &'static str)>)
    ensures
        match text_entries_7(key@) {
            Some(t) => r matches Some(e) && e.0@ == t.0 && e.1@ == t.1 && e.2@ == t.2 && e.3@ == t.3,
            None => r is None,
        },
{
    if str_eq(key, "well_core") {
        return Some(("Central resource-well core", "Zentraler Resource-Well-Kern", "Cœur central du puits de ressources", "Núcleo central del pozo de recursos"));
    }
    if str_eq(key, "well_yield_hint") {
        return Some(("Yield comes from the connected satellite nodes.", "Die Ausbeute kommt von den verbundenen Satelliten-Nodes.", "Le rendement vient des nodes satellites connectés.", "La producción procede de los nodos satélite conectados."));
    }
    if str_eq(key, "manual_deposit") {
        return Some(("Manual deposit – no miner extractor", "Manuelles Deposit – kein Miner-Extractor", "Gisement manuel – aucun extracteur", "Depósito manual – sin extractor minero"));
    }
    if str_eq(key, "your_entry") {
        return Some(("Your entry", "Dein Eintrag", "Votre saisie", "Tu entrada"));
    }
    if str_eq(key, "satellite_usage") {
        return Some(("Usage", "Nutzung", "Utilisation", "Uso"));
    }
    if str_eq(key, "oil_extractor") {
        return Some(("Oil Extractor", "Oil Extractor", "Extracteur de pétrole", "Extractor de petróleo"));
    }
    if str_eq(key, "well_extractor") {
        return Some(("Resource Well Extractor", "Resource Well Extractor", "Extracteur de puits de ressources", "Extractor de pozo de recursos"));
    }
    if str_eq(key, "miner") {
        return Some(("Miner", "Miner", "Mineur", "Minero"));
    }
    if str_eq(key, "theoretical") {
        return Some(("Theoretical", "Theoretischer", "Théorique", "Teórico"));
    }
    if str_eq(key, "output") {
        return Some(("Output", "Output", "Sortie", "Producción"));
    }
    if str_eq(key, "satellites_total") {
        return Some(("Total satellites", "Satelliten gesamt", "Total des satellites", "Satélites totales"));
    }
    if str_eq(key, "satellites_in_well") {
        return Some(("satellites in well", "Satelliten im Well", "satellites dans le puits", "satélites en el pozo"));
    }
    if str_eq(key, "claimed") {
        return Some(("●  Claimed", "●  Geclaimt", "●  Revendiqué", "●  Reclamado"));
    }
    if str_eq(key, "unclaimed") {
        return Some(("○  Unclaimed", "○  Nicht geclaimt", "○  Non revendiqué", "○  Sin reclamar"));
    }
    None
}

/// Small, dependency-free UI dictionary. Savegame data and resource names
/// stay in their game-provided form; only application chrome and
/// explanatory text are translated here. Unknown keys give an empty text.
pub fn text(language: Language, key: &str) -> (r: &'static str)
    ensures
        r@ == spec_text(language, key@),
{
    let mut entry: (&'static str, &'static str, &'static str, &'static str) = ("", "", "", "");
    let mut found = false;
    if !found {
        if let Some(e) = lookup_entries_0(key) {
            entry = e;
            found = true;
        }
    }
    if !found {
        if let Some(e) = lookup_entries_1(key) {
            entry = e;
            found = true;
        }
    }
    if !found {
        if let Some(e) = lookup_entries_2(key) {
            entry = e;
            found = true;
        }
    }
    if !found {
        if let Some(e) = lookup_entries_3(key) {
            entry = e;
            found = true;
        }
    }
    if !found {
        if let Some(e) = lookup_entries_4(key) {
            entry = e;
            found = true;
        }
    }
    if !found {
        if let Some(e) = lookup_entries_5(key) {
            entry = e;
            found = true;
        }
    }
    if !found {
        if let Some(e) = lookup_entries_6(key) {
            entry = e;
            found = true;
        }
    }
    if !found {
        if let Some(e) = lookup_entries_7(key) {
            entry = e;
            found = true;
        }
    }
    proof {
        if !found {
            reveal_strlit("");
            assert(""@ =~= Seq::<char>::empty());
        }
    }
    match language {
        Language::English => entry.0,
        Language::German => entry.1,
        Language::French => entry.2,
        Language::Spanish => entry.3,
    }
}

/// Thousands separator of a language: English `,`, German and Spanish `.`,
/// French a narrow no-break space.
pub open spec fn thousands_separator(language: Language) -> char {
    match language {
        Language::English => ',',
        Language::German | Language::Spanish => '.',
        Language::French => '\u{202f}',
    }
}

/// Decimal separator of a language: English `.`, the others `,`.
pub open spec fn decimal_separator(language: Language) -> char {
    match language {
        Language::English => '.',
        _ => ',',
    }
}

fn thousands_separator_char(language: Language) -> (c: char)
    ensures
        c == thousands_separator(language),
{
    match language {
        Language::English => ',',
        Language::German | Language::Spanish => '.',
        Language::French => '\u{202f}',
    }
}

fn decimal_separator_char(language: Language) -> (c: char)
    ensures
        c == decimal_separator(language),
{
    match language {
        Language::English => '.',
        _ => ',',
    }
}

/// The output for the character at `i`: preceded by the separator when a
/// multiple of three characters follows it and it is not the first.
pub open spec fn group_piece(s: Seq<char>, sep: char, i: int) -> Seq<char> {
    if i > 0 && (s.len() - i) % 3 == 0 {
        seq![sep, s[i]]
    } else {
        seq![s[i]]
    }
}

/// The grouped text of `s[i..]`.
pub open spec fn group_from(s: Seq<char>, sep: char, i: int) -> Seq<char>
    decreases s.len() - i,
{
    if i < 0 || i >= s.len() {
        Seq::empty()
    } else {
        group_piece(s, sep, i) + group_from(s, sep, i + 1)
    }
}

/// `s` with `sep` inserted before every group of three characters counted
/// from the right, except at the very front.
pub open spec fn group_digits(s: Seq<char>, sep: char) -> Seq<char> {
    group_from(s, sep, 0)
}

/// Appends the digits `integer` with the separator between groups of three.
fn push_grouped(out: &mut String, integer: &Vec<char>, sep: char)
    ensures
        final(out)@ == old(out)@ + group_digits(integer@, sep),
{
    let ghost start = out@;
    let n = integer.len();
    let mut index: usize = 0;
    while index < n
        invariant
            index <= n,
            n == integer@.len(),
            start + group_digits(integer@, sep) == out@ + group_from(integer@, sep, index as int),
        decreases n - index,
    {
        let ghost before = out@;
        if index > 0 && (n - index) % 3 == 0 {
            push_char(out, sep);
        }
        push_char(out, integer[index]);
        proof {
            let piece = group_piece(integer@, sep, index as int);
            let rest = group_from(integer@, sep, index + 1);
            assert(out@ =~= before + piece);
            assert(before + (piece + rest) =~= (before + piece) + rest);
        }
        index = index + 1;
    }
    assert(out@ + group_from(integer@, sep, n as int) =~= out@);
}

/// The number text assembled from its parts: an optional minus, the integer
/// digits grouped with the language's thousands separator and, where
/// decimals are shown, the language's decimal separator and the fraction.
pub open spec fn spec_number_text(
    language: Language,
    negative: bool,
    integer: Seq<char>,
    fraction: Seq<char>,
    decimals: int,
) -> Seq<char> {
    let sign: Seq<char> = if negative {
        seq!['-']
    } else {
        Seq::empty()
    };
    let tail: Seq<char> = if decimals > 0 {
        seq![decimal_separator(language)] + fraction
    } else {
        Seq::empty()
    };
    sign + group_digits(integer, thousands_separator(language)) + tail
}

/// Formats a number from its already rounded decimal parts, using the
/// conventions of the selected language: English `1,234.56`, German and
/// Spanish `1.234,56`, French `1 234,56` with a narrow no-break space.
pub fn format_number_text(
    language: Language,
    negative: bool,
    integer: &str,
    fraction: &str,
    decimals: usize,
) -> (r: String)
    ensures
        r@ == spec_number_text(language, negative, integer@, fraction@, decimals as int),
{
    let digits = str_to_chars(integer);
    let mut grouped = String::new();
    if negative {
        push_char(&mut grouped, '-');
    }
    push_grouped(&mut grouped, &digits, thousands_separator_char(language));
    let ghost middle = grouped@;
    if decimals > 0 {
        push_char(&mut grouped, decimal_separator_char(language));
        push_str_to(&mut grouped, fraction);
        assert(grouped@ =~= middle + (seq![decimal_separator(language)] + fraction@));
    } else {
        assert(grouped@ =~= middle + Seq::<char>::empty());
    }
    proof {
        if negative {
            assert(middle =~= seq!['-'] + group_digits(integer@, thousands_separator(language)));
        } else {
            assert(middle =~= Seq::<char>::empty() + group_digits(integer@, thousands_separator(language)));
        }
    }
    grouped
}

/// The character of a decimal digit.
pub open spec fn digit_char(d: int) -> char {
    (48 + d) as char
}

/// The decimal digits of `n`, most significant first, without leading zeros.
pub open spec fn decimal_digits(n: nat) -> Seq<char>
    decreases n,
{
    if n < 10 {
        seq![digit_char(n as int)]
    } else {
        decimal_digits(n / 10).push(digit_char((n % 10) as int))
    }
}

/// Appends the decimal digits of `n`.
fn push_decimal_digits(out: &mut Vec<char>, n: u64)
    ensures
        final(out)@ == old(out)@ + decimal_digits(n as nat),
    decreases n,
{
    if n >= 10 {
        push_decimal_digits(out, n / 10);
    }
    let d = (n % 10) as u8;
    let c = (48u8 + d) as char;
    out.push(c);
    proof {
        if n >= 10 {
            assert(decimal_digits(n as nat) == decimal_digits((n / 10) as nat).push(
                digit_char((n % 10) as int),
            ));
        }
        assert(final(out)@ =~= old(out)@ + decimal_digits(n as nat));
    }
}

/// An unsigned count as grouped decimal digits in the language's convention,
/// as a whole number is shown with no decimals.
pub open spec fn spec_format_count(language: Language, value: u64) -> Seq<char> {
    group_digits(decimal_digits(value as nat), thousands_separator(language))
}

pub fn format_count(language: Language, value: u64) -> (r: String)
    ensures
        r@ == spec_format_count(language, value),
{
    let mut digits: Vec<char> = Vec::new();
    push_decimal_digits(&mut digits, value);
    assert(digits@ =~= decimal_digits(value as nat));
    let mut r = String::new();
    push_grouped(&mut r, &digits, thousands_separator_char(language));
    assert(r@ =~= spec_format_count(language, value));
    r
}

/// An amount shown in the resource panel: grouped with `.` whatever the language.
pub open spec fn spec_resource_amount_text(value: u64) -> Seq<char> {
    group_digits(decimal_digits(value as nat), '.')
}

pub fn format_resource_amount_text(value: u64) -> (r: String)
    ensures
        r@ == spec_resource_amount_text(value),
{
    let mut digits: Vec<char> = Vec::new();
    push_decimal_digits(&mut digits, value);
    assert(digits@ =~= decimal_digits(value as nat));
    let mut r = String::new();
    push_grouped(&mut r, &digits, '.');
    assert(r@ =~= spec_resource_amount_text(value));
    r
}

/// `s` with every occurrence of `c` removed.
pub open spec fn without_char(s: Seq<char>, c: char) -> Seq<char>
    decreases s.len(),
{
    if s.len() == 0 {
        Seq::empty()
    } else {
        (if s[0] == c {
            Seq::empty()
        } else {
            seq![s[0]]
        }) + without_char(s.skip(1), c)
    }
}

proof fn lemma_without_char_add(a: Seq<char>, b: Seq<char>, c: char)
    ensures
        without_char(a + b, c) == without_char(a, c) + without_char(b, c),
    decreases a.len(),
{
    if a.len() == 0 {
        assert(a + b =~= b);
        assert(without_char(a, c) + without_char(b, c) =~= without_char(b, c));
    } else {
        lemma_without_char_add(a.skip(1), b, c);
        assert((a + b).skip(1) =~= a.skip(1) + b);
        assert((a + b)[0] == a[0]);
        let head: Seq<char> = if a[0] == c {
            Seq::empty()
        } else {
            seq![a[0]]
        };
        assert(head + (without_char(a.skip(1), c) + without_char(b, c)) =~= (head
            + without_char(a.skip(1), c)) + without_char(b, c));
    }
}

proof fn lemma_group_from_without_sep(s: Seq<char>, sep: char, i: int)
    requires
        0 <= i <= s.len(),
        !s.contains(sep),
    ensures
        without_char(group_from(s, sep, i), sep) == s.skip(i),
    decreases s.len() - i,
{
    if i == s.len() {
        assert(s.skip(i) =~= Seq::<char>::empty());
    } else {
        lemma_group_from_without_sep(s, sep, i + 1);
        let piece = group_piece(s, sep, i);
        lemma_without_char_add(piece, group_from(s, sep, i + 1), sep);
        assert(s[i] != sep);
        reveal_with_fuel(without_char, 3);
        if i > 0 && (s.len() - i) % 3 == 0 {
            assert(piece.skip(1) =~= seq![s[i]]);
            assert(seq![s[i]].skip(1) =~= Seq::<char>::empty());
            assert(without_char(piece, sep) =~= seq![s[i]]);
        } else {
            assert(seq![s[i]].skip(1) =~= Seq::<char>::empty());
            assert(without_char(piece, sep) =~= seq![s[i]]);
        }
        assert(seq![s[i]] + s.skip(i + 1) =~= s.skip(i));
    }
}

/// Grouping only inserts separators: removing them from the grouped text
/// gives back the digits (for digits that hold no separator themselves).
pub proof fn law_grouping_keeps_digits(digits: Seq<char>, sep: char)
    requires
        !digits.contains(sep),
    ensures
        without_char(group_digits(digits, sep), sep) == digits,
{
    lemma_group_from_without_sep(digits, sep, 0);
    assert(digits.skip(0) =~= digits);
}

} // verus!
