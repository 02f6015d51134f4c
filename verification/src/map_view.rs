//! The state of the map panel apart from what it draws: the drawing tools,
//! the drawings with their undo history, the selections and popups, the
//! display switches and filters, the selected resource node, and the flags
//! that ask the application to save what changed.

use crate::annotations::{
    rectangle_eq,     annotation_views, text_views, AnnotationModel, MapAnnotation, MapArrow, MapCircle,
    MapRectangle, MapText, WorldPoint,
};
use crate::drawings::{
    law_undo_after_add_restores, empty_drawings, forgotten, undone, with_arrow, with_circle, with_rectangle, with_text,
    Drawings, DrawingsModel, DRAWING_HISTORY_LIMIT,
};
use crate::map::{
    move_resource, normalize_purity_filter, normalize_resource_filter, reconcile_resource_order,
    spec_moved_order, spec_normalize_purity_filter, spec_normalize_resource_filter,
    spec_reconcile_order, string_views, ALL_PURITY_FILTER, ALL_RESOURCES_FILTER,
};
use crate::storage::Language;
use crate::strings::str_eq;
use crate::text_trim::{spec_trim, trim};
use vstd::prelude::*;

verus! {

/// Which drawing tool is active, and the drag under way.
#[derive(Clone, Copy, Debug)]
pub struct ToolState {
    pub rectangle: bool,
    pub circle: bool,
    pub arrow: bool,
    pub text: bool,
    pub drag_start: Option<WorldPoint>,
    pub drag_end: Option<WorldPoint>,
}

/// The selected drawings, the popup's position and the rectangle being
/// moved.
#[derive(Clone, Copy, Debug)]
pub struct Selection {
    pub rectangle: Option<usize>,
    pub circle: Option<usize>,
    pub arrow: Option<usize>,
    pub text: Option<usize>,
    pub popup_position: Option<WorldPoint>,
    pub moving_rectangle: Option<usize>,
    pub move_offset: Option<WorldPoint>,
}

/// The display switches, the miner tier assumed for unclaimed nodes and
/// the play time of the loaded save.
#[derive(Clone, Copy, Debug)]
pub struct DisplaySettings {
    pub show_node_names: bool,
    pub show_grid: bool,
    pub show_rails: bool,
    pub show_foundations: bool,
    pub show_belts: bool,
    pub miner_tier: u8,
    pub summary_stale: bool,
    pub play_duration_in_seconds: u32,
}

/// The node filters and the order of the resource panel.
pub struct FilterState {
    pub resource_order: Vec<String>,
    pub resource_filter: String,
    pub purity_filter: String,
    pub only_used: bool,
    pub only_partial: bool,
    pub changed: bool,
}

pub ghost struct FilterModel {
    pub resource_order: Seq<Seq<char>>,
    pub resource_filter: Seq<char>,
    pub purity_filter: Seq<char>,
    pub only_used: bool,
    pub only_partial: bool,
    pub changed: bool,
}

impl View for FilterState {
    type V = FilterModel;

    open spec fn view(&self) -> FilterModel {
        FilterModel {
            resource_order: string_views(self.resource_order@),
            resource_filter: self.resource_filter@,
            purity_filter: self.purity_filter@,
            only_used: self.only_used,
            only_partial: self.only_partial,
            changed: self.changed,
        }
    }
}

/// The resource node whose popup is open, and whether its allocation was
/// edited and is to be saved.
pub struct NodeSelection {
    pub selected: Option<String>,
    pub edited: bool,
    pub save_requested: bool,
}

pub ghost struct NodeSelectionModel {
    pub selected: Option<Seq<char>>,
    pub edited: bool,
    pub save_requested: bool,
}

pub open spec fn option_string_view(o: Option<String>) -> Option<Seq<char>> {
    match o {
        Some(s) => Some(s@),
        None => None,
    }
}

impl View for NodeSelection {
    type V = NodeSelectionModel;

    open spec fn view(&self) -> NodeSelectionModel {
        NodeSelectionModel {
            selected: option_string_view(self.selected),
            edited: self.edited,
            save_requested: self.save_requested,
        }
    }
}

/// The map panel's state as mathematical values.
pub ghost struct MapViewModel {
    pub language: Language,
    pub drawings: DrawingsModel,
    pub tools: ToolState,
    pub editor_position: Option<WorldPoint>,
    pub editor_text: Seq<char>,
    pub selection: Selection,
    pub display: DisplaySettings,
    pub filters: FilterModel,
    pub node: NodeSelectionModel,
}

/// The map panel's state.
pub struct MapView {
    language: Language,
    drawings: Drawings,
    tools: ToolState,
    editor_position: Option<WorldPoint>,
    editor_text: String,
    selection: Selection,
    display: DisplaySettings,
    filters: FilterState,
    node: NodeSelection,
}

impl View for MapView {
    type V = MapViewModel;

    closed spec fn view(&self) -> MapViewModel {
        MapViewModel {
            language: self.language,
            drawings: self.drawings@,
            tools: self.tools,
            editor_position: self.editor_position,
            editor_text: self.editor_text@,
            selection: self.selection,
            display: self.display,
            filters: self.filters@,
            node: self.node@,
        }
    }
}

/// At most one of the four drawing tools is active.
pub open spec fn at_most_one_tool(t: ToolState) -> bool {
    (t.rectangle as int) + (t.circle as int) + (t.arrow as int) + (t.text as int) <= 1
}

/// What holds of the panel in every state it can reach: at most fifteen
/// drawings in the undo history, at most one drawing tool active, a miner
/// tier from one to three.
pub open spec fn model_invariant(m: MapViewModel) -> bool {
    &&& m.drawings.history.len() <= DRAWING_HISTORY_LIMIT
    &&& at_most_one_tool(m.tools)
    &&& 1 <= m.display.miner_tier <= 3
}

/// No drawing tool active, no drag.
pub open spec fn idle_tools() -> ToolState {
    ToolState {
        rectangle: false,
        circle: false,
        arrow: false,
        text: false,
        drag_start: None,
        drag_end: None,
    }
}

/// The drawing tools switched off and the text editor closed.
pub open spec fn tools_cancelled(m: MapViewModel) -> MapViewModel {
    MapViewModel {
        tools: ToolState {
            rectangle: false,
            circle: false,
            arrow: false,
            text: false,
            ..m.tools
        },
        editor_position: None,
        editor_text: Seq::empty(),
        ..m
    }
}

/// The drawing tools cancelled and the drag under way forgotten.
pub open spec fn rectangle_tool_cancelled(m: MapViewModel) -> MapViewModel {
    MapViewModel { tools: idle_tools(), editor_position: None, editor_text: Seq::empty(), ..m }
}

pub open spec fn no_selection() -> Selection {
    Selection {
        rectangle: None,
        circle: None,
        arrow: None,
        text: None,
        popup_position: None,
        moving_rectangle: None,
        move_offset: None,
    }
}

pub open spec fn initial_display() -> DisplaySettings {
    DisplaySettings {
        show_node_names: false,
        show_grid: false,
        show_rails: false,
        show_foundations: false,
        show_belts: false,
        miner_tier: 3,
        summary_stale: true,
        play_duration_in_seconds: 0,
    }
}

/// The state of a new panel.
pub open spec fn initial_model() -> MapViewModel {
    MapViewModel {
        language: Language::English,
        drawings: empty_drawings(),
        tools: idle_tools(),
        editor_position: None,
        editor_text: Seq::empty(),
        selection: no_selection(),
        display: initial_display(),
        filters: FilterModel {
            resource_order: Seq::empty(),
            resource_filter: "__all_resources__"@,
            purity_filter: "__all_purities__"@,
            only_used: false,
            only_partial: false,
            changed: false,
        },
        node: NodeSelectionModel { selected: None, edited: false, save_requested: false },
    }
}

/// The rectangle tool's button: off when on; otherwise on in place of any
/// other tool, closing the rectangle popup and any move under way.
pub open spec fn rectangle_toggled(m: MapViewModel) -> MapViewModel {
    if m.tools.rectangle {
        rectangle_tool_cancelled(m)
    } else {
        MapViewModel {
            tools: ToolState { rectangle: true, ..idle_tools() },
            editor_position: None,
            editor_text: Seq::empty(),
            selection: Selection {
                rectangle: None,
                popup_position: None,
                moving_rectangle: None,
                move_offset: None,
                ..m.selection
            },
            ..m
        }
    }
}

/// The circle tool's button: off when on; otherwise on in place of any
/// other tool.
pub open spec fn circle_toggled(m: MapViewModel) -> MapViewModel {
    if m.tools.circle {
        rectangle_tool_cancelled(m)
    } else {
        MapViewModel {
            tools: ToolState { circle: true, ..idle_tools() },
            ..rectangle_tool_cancelled(m)
        }
    }
}

/// The arrow tool's button: off when on; otherwise on in place of any
/// other tool.
pub open spec fn arrow_toggled(m: MapViewModel) -> MapViewModel {
    if m.tools.arrow {
        rectangle_tool_cancelled(m)
    } else {
        MapViewModel {
            tools: ToolState { arrow: true, ..idle_tools() },
            ..rectangle_tool_cancelled(m)
        }
    }
}

/// The text tool's button: off when on; otherwise on in place of any other
/// tool, clearing every drawing selection. (Switching it on keeps the drag
/// that was under way, as switching the tools off does not.)
pub open spec fn text_toggled(m: MapViewModel) -> MapViewModel {
    if m.tools.text {
        rectangle_tool_cancelled(m)
    } else {
        MapViewModel {
            tools: ToolState { text: true, ..tools_cancelled(m).tools },
            selection: Selection {
                rectangle: None,
                circle: None,
                arrow: None,
                text: None,
                ..m.selection
            },
            ..tools_cancelled(m)
        }
    }
}

/// Pressing a tool's button twice, starting with that tool off, leaves no
/// tool active, no drag under way and the text editor closed.
pub proof fn law_tool_button_twice_leaves_no_tool(m: MapViewModel)
    ensures
        !m.tools.rectangle ==> rectangle_toggled(rectangle_toggled(m)).tools == idle_tools(),
        !m.tools.circle ==> circle_toggled(circle_toggled(m)).tools == idle_tools(),
        !m.tools.arrow ==> arrow_toggled(arrow_toggled(m)).tools == idle_tools(),
        !m.tools.text ==> text_toggled(text_toggled(m)).tools == idle_tools(),
        !m.tools.rectangle ==> rectangle_toggled(rectangle_toggled(m)).editor_position is None,
        !m.tools.text ==> text_toggled(text_toggled(m)).editor_position is None,
{
}

/// The text editor committed: its text, trimmed, becomes a text drawing at
/// the editor's position unless it is empty; the editor closes.
pub open spec fn text_committed(m: MapViewModel) -> MapViewModel {
    match m.editor_position {
        None => m,
        Some(p) => {
            let value = spec_trim(m.editor_text);
            let closed = MapViewModel { editor_position: None, editor_text: Seq::empty(), ..m };
            if value.len() == 0 {
                closed
            } else {
                MapViewModel {
                    drawings: with_text(m.drawings, (p.0, p.1, value)),
                    ..closed
                }
            }
        },
    }
}

/// Undo: with a tool that draws by dragging active, the tool is cancelled;
/// otherwise the latest drawing is undone (see `undone`) and the drawing
/// selections close. The second part says whether anything happened.
pub open spec fn undo_applied(m: MapViewModel) -> (MapViewModel, bool) {
    if m.tools.rectangle || m.tools.circle || m.tools.arrow {
        (rectangle_tool_cancelled(m), true)
    } else if m.drawings.history.len() > 0 {
        (
            MapViewModel {
                drawings: undone(m.drawings).0,
                selection: Selection {
                    rectangle: None,
                    circle: None,
                    arrow: None,
                    text: None,
                    popup_position: None,
                    ..m.selection
                },
                ..m
            },
            true,
        )
    } else if m.drawings.rectangles.len() > 0 {
        (
            MapViewModel {
                drawings: undone(m.drawings).0,
                selection: Selection { rectangle: None, popup_position: None, ..m.selection },
                ..m
            },
            true,
        )
    } else {
        (m, false)
    }
}

/// Escape: cancels the tools and the text editor when one is open;
/// otherwise ends a rectangle move; otherwise closes the rectangle
/// selection; otherwise the first of the circle, arrow and text selections
/// that is open; otherwise the node popup, asking for its allocation to be
/// saved when it was edited.
pub open spec fn escape_applied(m: MapViewModel) -> MapViewModel {
    let sel = m.selection;
    if m.tools.rectangle || m.tools.circle || m.tools.arrow || m.tools.text
        || m.editor_position is Some {
        rectangle_tool_cancelled(m)
    } else if sel.moving_rectangle is Some {
        MapViewModel { selection: Selection { moving_rectangle: None, move_offset: None, ..sel }, ..m }
    } else if sel.rectangle is Some {
        MapViewModel { selection: Selection { rectangle: None, popup_position: None, ..sel }, ..m }
    } else if sel.circle is Some {
        MapViewModel { selection: Selection { circle: None, popup_position: None, ..sel }, ..m }
    } else if sel.arrow is Some {
        MapViewModel { selection: Selection { arrow: None, popup_position: None, ..sel }, ..m }
    } else if sel.text is Some {
        MapViewModel { selection: Selection { text: None, popup_position: None, ..sel }, ..m }
    } else if m.node.selected is Some {
        MapViewModel {
            node: NodeSelectionModel {
                selected: None,
                save_requested: m.node.save_requested || m.node.edited,
                ..m.node
            },
            ..m
        }
    } else {
        m
    }
}

/// A click on the map outside every popup: closes the rectangle, circle
/// and arrow selections with their popup, and the node popup, asking for
/// its allocation to be saved when it was edited.
pub open spec fn outside_click_applied(m: MapViewModel) -> MapViewModel {
    let sel = m.selection;
    let sel1 = if sel.rectangle is Some {
        Selection { rectangle: None, popup_position: None, ..sel }
    } else {
        sel
    };
    let sel2 = if sel1.circle is Some || sel1.arrow is Some {
        Selection { circle: None, arrow: None, popup_position: None, ..sel1 }
    } else {
        sel1
    };
    MapViewModel {
        selection: sel2,
        node: NodeSelectionModel {
            selected: None,
            save_requested: m.node.save_requested || (m.node.selected is Some && m.node.edited),
            ..m.node
        },
        ..m
    }
}

/// Drawing a rectangle and pressing undo (with no tool active and room in
/// the undo history) gives back the drawings as they were, with the
/// rectangles and the history marked to be saved.
pub proof fn law_undo_after_rectangle_restores_drawings(m: MapViewModel, r: MapRectangle)
    requires
        !m.tools.rectangle && !m.tools.circle && !m.tools.arrow,
        m.drawings.history.len() < DRAWING_HISTORY_LIMIT,
        rectangle_eq(r, r),
    ensures
        undo_applied(MapViewModel { drawings: with_rectangle(m.drawings, r), ..m }).0.drawings
            == (DrawingsModel { rectangles_changed: true, history_changed: true, ..m.drawings }),
        undo_applied(MapViewModel { drawings: with_rectangle(m.drawings, r), ..m }).1,
{
    law_undo_after_add_restores(
        m.drawings,
        r,
        arbitrary(),
        arbitrary(),
        arbitrary(),
    );
    assert(with_rectangle(m.drawings, r).history.len() > 0);
}

impl MapView {
    #[verifier::type_invariant]
    spec fn well_formed(self) -> bool {
        &&& at_most_one_tool(self.tools)
        &&& 1 <= self.display.miner_tier <= 3
    }

    /// A new panel: English, nothing drawn, no tool active, every filter
    /// open, miner tier three, the resource summary still to be computed.
    pub fn new() -> (r: MapView)
        ensures
            r@ == initial_model(),
    {
        let r = MapView {
            language: Language::English,
            drawings: Drawings::new(),
            tools: ToolState {
                rectangle: false,
                circle: false,
                arrow: false,
                text: false,
                drag_start: None,
                drag_end: None,
            },
            editor_position: None,
            editor_text: String::new(),
            selection: Selection {
                rectangle: None,
                circle: None,
                arrow: None,
                text: None,
                popup_position: None,
                moving_rectangle: None,
                move_offset: None,
            },
            display: DisplaySettings {
                show_node_names: false,
                show_grid: false,
                show_rails: false,
                show_foundations: false,
                show_belts: false,
                miner_tier: 3,
                summary_stale: true,
                play_duration_in_seconds: 0,
            },
            filters: FilterState {
                resource_order: Vec::new(),
                resource_filter: String::from_str(ALL_RESOURCES_FILTER),
                purity_filter: String::from_str(ALL_PURITY_FILTER),
                only_used: false,
                only_partial: false,
                changed: false,
            },
            node: NodeSelection { selected: None, edited: false, save_requested: false },
        };
        proof {
            reveal_strlit("__all_resources__");
            reveal_strlit("__all_purities__");
            assert(string_views(r.filters.resource_order@) =~= Seq::empty());
        }
        r
    }

    /// The drawing tools. At most one of them is active.
    pub fn tools(&self) -> (r: ToolState)
        ensures
            r == self@.tools,
            at_most_one_tool(r),
    {
        proof {
            use_type_invariant(self);
        }
        self.tools
    }

    pub fn language(&self) -> (r: Language)
        ensures
            r == self@.language,
    {
        self.language
    }

    pub fn set_language(&mut self, language: Language)
        ensures
            final(self)@ == (MapViewModel { language, ..old(self)@ }),
    {
        proof {
            use_type_invariant(&*self);
        }
        self.language = language;
    }

    pub fn rectangle_tool_active(&self) -> (r: bool)
        ensures
            r == self@.tools.rectangle,
    {
        self.tools.rectangle
    }

    pub fn circle_tool_active(&self) -> (r: bool)
        ensures
            r == self@.tools.circle,
    {
        self.tools.circle
    }

    pub fn arrow_tool_active(&self) -> (r: bool)
        ensures
            r == self@.tools.arrow,
    {
        self.tools.arrow
    }

    pub fn text_tool_active(&self) -> (r: bool)
        ensures
            r == self@.tools.text,
    {
        self.tools.text
    }

    /// Whether a tool that draws by dragging is active.
    pub fn drawing_tool_active(&self) -> (r: bool)
        ensures
            r == (self@.tools.rectangle || self@.tools.circle || self@.tools.arrow),
    {
        self.tools.rectangle || self.tools.circle || self.tools.arrow
    }

    /// Switches every drawing tool off and closes the text editor.
    pub fn cancel_drawing_tools(&mut self)
        ensures
            final(self)@ == tools_cancelled(old(self)@),
    {
        proof {
            use_type_invariant(&*self);
        }
        self.tools = ToolState {
            rectangle: false,
            circle: false,
            arrow: false,
            text: false,
            ..self.tools
        };
        self.editor_position = None;
        self.editor_text = String::new();
    }

    /// Cancels the drawing tools and the drag under way.
    pub fn cancel_rectangle_tool(&mut self)
        ensures
            final(self)@ == rectangle_tool_cancelled(old(self)@),
    {
        proof {
            use_type_invariant(&*self);
        }
        self.tools = ToolState {
            rectangle: false,
            circle: false,
            arrow: false,
            text: false,
            drag_start: None,
            drag_end: None,
        };
        self.editor_position = None;
        self.editor_text = String::new();
    }

    /// Closes the text editor without adding a text.
    pub fn cancel_text_edit(&mut self)
        ensures
            final(self)@ == (MapViewModel {
                editor_position: None,
                editor_text: Seq::empty(),
                ..old(self)@
            }),
    {
        proof {
            use_type_invariant(&*self);
        }
        self.editor_position = None;
        self.editor_text = String::new();
    }

    /// Switches the rectangle tool off when it is on; otherwise switches it
    /// on in place of any other tool, closing the rectangle popup and any
    /// move under way.
    pub fn toggle_rectangle_tool(&mut self)
        ensures
            final(self)@ == rectangle_toggled(old(self)@),
    {
        proof {
            use_type_invariant(&*self);
        }
        if self.tools.rectangle {
            self.cancel_rectangle_tool();
        } else {
            self.cancel_rectangle_tool();
            self.selection = Selection {
                rectangle: None,
                popup_position: None,
                moving_rectangle: None,
                move_offset: None,
                ..self.selection
            };
            self.tools = ToolState { rectangle: true, ..self.tools };
        }
    }

    /// Switches the circle tool off when it is on; otherwise on in place of
    /// any other tool.
    pub fn toggle_circle_tool(&mut self)
        ensures
            final(self)@ == circle_toggled(old(self)@),
    {
        proof {
            use_type_invariant(&*self);
        }
        let was_active = self.tools.circle;
        self.cancel_rectangle_tool();
        if !was_active {
            self.tools = ToolState { circle: true, ..self.tools };
        }
    }

    /// Switches the arrow tool off when it is on; otherwise on in place of
    /// any other tool.
    pub fn toggle_arrow_tool(&mut self)
        ensures
            final(self)@ == arrow_toggled(old(self)@),
    {
        proof {
            use_type_invariant(&*self);
        }
        let was_active = self.tools.arrow;
        self.cancel_rectangle_tool();
        if !was_active {
            self.tools = ToolState { arrow: true, ..self.tools };
        }
    }

    /// Switches the text tool off when it is on; otherwise on in place of
    /// any other tool, clearing every drawing selection. (Switching it on
    /// keeps the drag that was under way, as switching the tools off does
    /// not.)
    pub fn toggle_text_tool(&mut self)
        ensures
            final(self)@ == text_toggled(old(self)@),
    {
        proof {
            use_type_invariant(&*self);
        }
        if self.tools.text {
            self.cancel_rectangle_tool();
        } else {
            self.cancel_drawing_tools();
            self.tools = ToolState { text: true, ..self.tools };
            self.selection = Selection {
                rectangle: None,
                circle: None,
                arrow: None,
                text: None,
                ..self.selection
            };
        }
    }

    /// The rectangles, circles, arrows, texts and undo history.
    pub fn drawings(&self) -> (r: &Drawings)
        ensures
            r@ == self@.drawings,
    {
        &self.drawings
    }

    /// The undo history, oldest first; it never holds more than fifteen
    /// drawings.
    pub fn drawing_history(&self) -> (r: &Vec<MapAnnotation>)
        ensures
            annotation_views(r@) == self@.drawings.history,
            r@.len() <= DRAWING_HISTORY_LIMIT,
    {
        self.drawings.history()
    }

    /// Replaces the rectangles with saved ones. The tools are cancelled and
    /// the rectangle, circle and arrow selections, the popup and any move
    /// are closed; nothing is left to save of the rectangles.
    pub fn set_rectangles(&mut self, rectangles: Vec<MapRectangle>)
        ensures
            final(self)@ == (MapViewModel {
                drawings: DrawingsModel {
                    rectangles: rectangles@,
                    rectangles_changed: false,
                    ..old(self)@.drawings
                },
                selection: Selection {
                    rectangle: None,
                    circle: None,
                    arrow: None,
                    popup_position: None,
                    moving_rectangle: None,
                    move_offset: None,
                    ..old(self)@.selection
                },
                ..rectangle_tool_cancelled(old(self)@)
            }),
    {
        proof {
            use_type_invariant(&*self);
        }
        let mut drawings = Drawings::new();
        std::mem::swap(&mut drawings, &mut self.drawings);
        drawings.set_rectangles(rectangles);
        self.drawings = drawings;
        self.cancel_rectangle_tool();
        self.selection = Selection {
            rectangle: None,
            circle: None,
            arrow: None,
            popup_position: None,
            moving_rectangle: None,
            move_offset: None,
            ..self.selection
        };
    }

    pub fn set_circles(&mut self, circles: Vec<MapCircle>)
        ensures
            final(self)@ == (MapViewModel {
                drawings: DrawingsModel {
                    circles: circles@,
                    circles_changed: false,
                    ..old(self)@.drawings
                },
                ..old(self)@
            }),
    {
        proof {
            use_type_invariant(&*self);
        }
        let mut drawings = Drawings::new();
        std::mem::swap(&mut drawings, &mut self.drawings);
        drawings.set_circles(circles);
        self.drawings = drawings;
    }

    pub fn set_arrows(&mut self, arrows: Vec<MapArrow>)
        ensures
            final(self)@ == (MapViewModel {
                drawings: DrawingsModel {
                    arrows: arrows@,
                    arrows_changed: false,
                    ..old(self)@.drawings
                },
                ..old(self)@
            }),
    {
        proof {
            use_type_invariant(&*self);
        }
        let mut drawings = Drawings::new();
        std::mem::swap(&mut drawings, &mut self.drawings);
        drawings.set_arrows(arrows);
        self.drawings = drawings;
    }

    /// Replaces the texts with saved ones, closing the text selection and
    /// the editor.
    pub fn set_texts(&mut self, texts: Vec<MapText>)
        ensures
            final(self)@ == (MapViewModel {
                drawings: DrawingsModel {
                    texts: text_views(texts@),
                    texts_changed: false,
                    ..old(self)@.drawings
                },
                selection: Selection { text: None, ..old(self)@.selection },
                editor_position: None,
                editor_text: Seq::empty(),
                ..old(self)@
            }),
    {
        proof {
            use_type_invariant(&*self);
        }
        let mut drawings = Drawings::new();
        std::mem::swap(&mut drawings, &mut self.drawings);
        drawings.set_texts(texts);
        self.drawings = drawings;
        self.selection = Selection { text: None, ..self.selection };
        self.editor_position = None;
        self.editor_text = String::new();
    }

    /// Replaces the undo history with a saved one, keeping its latest
    /// fifteen drawings.
    pub fn set_drawing_history(&mut self, history: Vec<MapAnnotation>)
        ensures
            final(self)@ == (MapViewModel {
                drawings: DrawingsModel {
                    history: crate::drawings::keep_last(
                        annotation_views(history@),
                        DRAWING_HISTORY_LIMIT as int,
                    ),
                    history_changed: false,
                    ..old(self)@.drawings
                },
                ..old(self)@
            }),
    {
        proof {
            use_type_invariant(&*self);
        }
        let mut drawings = Drawings::new();
        std::mem::swap(&mut drawings, &mut self.drawings);
        drawings.set_history(history);
        self.drawings = drawings;
    }

    pub fn take_rectangle_save(&mut self) -> (r: Option<Vec<MapRectangle>>)
        ensures
            old(self)@.drawings.rectangles_changed ==> r is Some && r->0@
                == old(self)@.drawings.rectangles && final(self)@ == (MapViewModel {
                drawings: DrawingsModel { rectangles_changed: false, ..old(self)@.drawings },
                ..old(self)@
            }),
            !old(self)@.drawings.rectangles_changed ==> r is None && final(self)@ == old(self)@,
    {
        proof {
            use_type_invariant(&*self);
        }
        let mut drawings = Drawings::new();
        std::mem::swap(&mut drawings, &mut self.drawings);
        let r = drawings.take_rectangle_save();
        self.drawings = drawings;
        r
    }

    pub fn take_circle_save(&mut self) -> (r: Option<Vec<MapCircle>>)
        ensures
            old(self)@.drawings.circles_changed ==> r is Some && r->0@
                == old(self)@.drawings.circles && final(self)@ == (MapViewModel {
                drawings: DrawingsModel { circles_changed: false, ..old(self)@.drawings },
                ..old(self)@
            }),
            !old(self)@.drawings.circles_changed ==> r is None && final(self)@ == old(self)@,
    {
        proof {
            use_type_invariant(&*self);
        }
        let mut drawings = Drawings::new();
        std::mem::swap(&mut drawings, &mut self.drawings);
        let r = drawings.take_circle_save();
        self.drawings = drawings;
        r
    }

    pub fn take_arrow_save(&mut self) -> (r: Option<Vec<MapArrow>>)
        ensures
            old(self)@.drawings.arrows_changed ==> r is Some && r->0@ == old(self)@.drawings.arrows
                && final(self)@ == (MapViewModel {
                drawings: DrawingsModel { arrows_changed: false, ..old(self)@.drawings },
                ..old(self)@
            }),
            !old(self)@.drawings.arrows_changed ==> r is None && final(self)@ == old(self)@,
    {
        proof {
            use_type_invariant(&*self);
        }
        let mut drawings = Drawings::new();
        std::mem::swap(&mut drawings, &mut self.drawings);
        let r = drawings.take_arrow_save();
        self.drawings = drawings;
        r
    }

    pub fn take_text_save(&mut self) -> (r: Option<Vec<MapText>>)
        ensures
            old(self)@.drawings.texts_changed ==> r is Some && text_views(r->0@)
                == old(self)@.drawings.texts && final(self)@ == (MapViewModel {
                drawings: DrawingsModel { texts_changed: false, ..old(self)@.drawings },
                ..old(self)@
            }),
            !old(self)@.drawings.texts_changed ==> r is None && final(self)@ == old(self)@,
    {
        proof {
            use_type_invariant(&*self);
        }
        let mut drawings = Drawings::new();
        std::mem::swap(&mut drawings, &mut self.drawings);
        let r = drawings.take_text_save();
        self.drawings = drawings;
        r
    }

    pub fn take_drawing_history_save(&mut self) -> (r: Option<Vec<MapAnnotation>>)
        ensures
            old(self)@.drawings.history_changed ==> r is Some && annotation_views(r->0@)
                == old(self)@.drawings.history && final(self)@ == (MapViewModel {
                drawings: DrawingsModel { history_changed: false, ..old(self)@.drawings },
                ..old(self)@
            }),
            !old(self)@.drawings.history_changed ==> r is None && final(self)@ == old(self)@,
    {
        proof {
            use_type_invariant(&*self);
        }
        let mut drawings = Drawings::new();
        std::mem::swap(&mut drawings, &mut self.drawings);
        let r = drawings.take_history_save();
        self.drawings = drawings;
        r
    }

    /// Commits the text editor (see `text_committed`).
    pub fn commit_text_edit(&mut self)
        ensures
            final(self)@ == text_committed(old(self)@),
    {
        proof {
            use_type_invariant(&*self);
        }
        let position = self.editor_position;
        match position {
            None => {},
            Some(p) => {
                let value = trim(self.editor_text.as_str());
                self.editor_position = None;
                self.editor_text = String::new();
                if !value.as_str().is_empty() {
                    proof {
                        assert(value@.len() > 0);
                    }
                    let text = MapText { world_x: p.0, world_y: p.1, text: value };
                    let mut drawings = Drawings::new();
                    std::mem::swap(&mut drawings, &mut self.drawings);
                    drawings.add_text(text);
                    self.drawings = drawings;
                } else {
                    proof {
                        assert(value@.len() == 0);
                    }
                }
            },
        }
    }

    /// Undo (see `undo_applied`). Returns whether anything happened.
    pub fn undo_last_rectangle(&mut self) -> (r: bool)
        ensures
            (final(self)@, r) == undo_applied(old(self)@),
    {
        proof {
            use_type_invariant(&*self);
        }
        if self.drawing_tool_active() {
            self.cancel_rectangle_tool();
            return true;
        }
        let had_history = self.drawings.history().len() > 0;
        let mut drawings = Drawings::new();
        std::mem::swap(&mut drawings, &mut self.drawings);
        let undid = drawings.undo();
        self.drawings = drawings;
        if had_history {
            self.selection = Selection {
                rectangle: None,
                circle: None,
                arrow: None,
                text: None,
                popup_position: None,
                ..self.selection
            };
        } else if undid {
            self.selection = Selection { rectangle: None, popup_position: None, ..self.selection };
        }
        undid
    }

    /// Starts a drag at `point` (both ends of the drag at it).
    pub fn begin_drag(&mut self, point: Option<WorldPoint>)
        ensures
            final(self)@ == (MapViewModel {
                tools: ToolState { drag_start: point, drag_end: point, ..old(self)@.tools },
                ..old(self)@
            }),
    {
        proof {
            use_type_invariant(&*self);
        }
        self.tools = ToolState { drag_start: point, drag_end: point, ..self.tools };
    }

    /// Moves the end of a drag that has started to `point`.
    pub fn drag_to(&mut self, point: Option<WorldPoint>)
        ensures
            old(self)@.tools.drag_start is Some ==> final(self)@ == (MapViewModel {
                tools: ToolState { drag_end: point, ..old(self)@.tools },
                ..old(self)@
            }),
            old(self)@.tools.drag_start is None ==> final(self)@ == old(self)@,
    {
        proof {
            use_type_invariant(&*self);
        }
        if self.tools.drag_start.is_some() {
            self.tools = ToolState { drag_end: point, ..self.tools };
        }
    }

    /// Adds a rectangle drawn with the rectangle tool, records it in the
    /// undo history and asks for the rectangles to be saved.
    pub fn add_rectangle(&mut self, rectangle: MapRectangle)
        ensures
            final(self)@ == (MapViewModel {
                drawings: with_rectangle(old(self)@.drawings, rectangle),
                ..old(self)@
            }),
    {
        proof {
            use_type_invariant(&*self);
        }
        let mut drawings = Drawings::new();
        std::mem::swap(&mut drawings, &mut self.drawings);
        drawings.add_rectangle(rectangle);
        self.drawings = drawings;
    }

    pub fn add_circle(&mut self, circle: MapCircle)
        ensures
            final(self)@ == (MapViewModel {
                drawings: with_circle(old(self)@.drawings, circle),
                ..old(self)@
            }),
    {
        proof {
            use_type_invariant(&*self);
        }
        let mut drawings = Drawings::new();
        std::mem::swap(&mut drawings, &mut self.drawings);
        drawings.add_circle(circle);
        self.drawings = drawings;
    }

    pub fn add_arrow(&mut self, arrow: MapArrow)
        ensures
            final(self)@ == (MapViewModel {
                drawings: with_arrow(old(self)@.drawings, arrow),
                ..old(self)@
            }),
    {
        proof {
            use_type_invariant(&*self);
        }
        let mut drawings = Drawings::new();
        std::mem::swap(&mut drawings, &mut self.drawings);
        drawings.add_arrow(arrow);
        self.drawings = drawings;
    }

    /// Opens the text editor at `position` with an empty text; the text
    /// tool switches off.
    pub fn begin_text_edit(&mut self, position: WorldPoint)
        ensures
            final(self)@ == (MapViewModel {
                editor_position: Some(position),
                editor_text: Seq::empty(),
                tools: ToolState { text: false, ..old(self)@.tools },
                ..old(self)@
            }),
    {
        proof {
            use_type_invariant(&*self);
        }
        self.editor_position = Some(position);
        self.editor_text = String::new();
        self.tools = ToolState { text: false, ..self.tools };
    }

    /// Where the text editor is open.
    pub fn editor_position(&self) -> (r: Option<WorldPoint>)
        ensures
            r == self@.editor_position,
    {
        self.editor_position
    }

    /// The text typed into the editor.
    pub fn editor_text(&self) -> (r: &str)
        ensures
            r@ == self@.editor_text,
    {
        self.editor_text.as_str()
    }

    pub fn set_editor_text(&mut self, text: String)
        ensures
            final(self)@ == (MapViewModel { editor_text: text@, ..old(self)@ }),
    {
        proof {
            use_type_invariant(&*self);
        }
        self.editor_text = text;
    }

    pub fn selection(&self) -> (r: Selection)
        ensures
            r == self@.selection,
    {
        self.selection
    }

    /// Opens the popup of the rectangle at `index` (a secondary click).
    pub fn select_rectangle(&mut self, index: usize, popup_position: Option<WorldPoint>)
        ensures
            final(self)@ == (MapViewModel {
                selection: Selection {
                    rectangle: Some(index),
                    circle: None,
                    arrow: None,
                    popup_position,
                    ..old(self)@.selection
                },
                ..old(self)@
            }),
    {
        proof {
            use_type_invariant(&*self);
        }
        self.selection = Selection {
            rectangle: Some(index),
            circle: None,
            arrow: None,
            popup_position,
            ..self.selection
        };
    }

    pub fn select_circle(&mut self, index: usize, popup_position: Option<WorldPoint>)
        ensures
            final(self)@ == (MapViewModel {
                selection: Selection {
                    rectangle: None,
                    circle: Some(index),
                    arrow: None,
                    popup_position,
                    ..old(self)@.selection
                },
                ..old(self)@
            }),
    {
        proof {
            use_type_invariant(&*self);
        }
        self.selection = Selection {
            rectangle: None,
            circle: Some(index),
            arrow: None,
            popup_position,
            ..self.selection
        };
    }

    pub fn select_arrow(&mut self, index: usize, popup_position: Option<WorldPoint>)
        ensures
            final(self)@ == (MapViewModel {
                selection: Selection {
                    rectangle: None,
                    circle: None,
                    arrow: Some(index),
                    popup_position,
                    ..old(self)@.selection
                },
                ..old(self)@
            }),
    {
        proof {
            use_type_invariant(&*self);
        }
        self.selection = Selection {
            rectangle: None,
            circle: None,
            arrow: Some(index),
            popup_position,
            ..self.selection
        };
    }

    pub fn select_text(&mut self, index: usize, popup_position: Option<WorldPoint>)
        ensures
            final(self)@ == (MapViewModel {
                selection: Selection {
                    rectangle: None,
                    circle: None,
                    arrow: None,
                    text: Some(index),
                    popup_position,
                    ..old(self)@.selection
                },
                ..old(self)@
            }),
    {
        proof {
            use_type_invariant(&*self);
        }
        self.selection = Selection {
            rectangle: None,
            circle: None,
            arrow: None,
            text: Some(index),
            popup_position,
            ..self.selection
        };
    }

    /// The rectangle popup's delete action: deletes the selected rectangle
    /// (when its index is in range) with its undo entry, and closes the
    /// popup.
    pub fn delete_selected_rectangle(&mut self)
        ensures
            old(self)@.selection.rectangle is None ==> final(self)@ == old(self)@,
            old(self)@.selection.rectangle is Some ==> {
                let i = old(self)@.selection.rectangle->0;
                let d = old(self)@.drawings;
                &&& final(self)@.selection == (Selection {
                    rectangle: None,
                    popup_position: None,
                    ..old(self)@.selection
                })
                &&& final(self)@.drawings == if i < d.rectangles.len() {
                    forgotten(
                        DrawingsModel {
                            rectangles: d.rectangles.remove(i as int),
                            rectangles_changed: true,
                            ..d
                        },
                        AnnotationModel::Rectangle(d.rectangles[i as int]),
                    )
                } else {
                    d
                }
                &&& final(self)@ == (MapViewModel {
                    drawings: final(self)@.drawings,
                    selection: final(self)@.selection,
                    ..old(self)@
                })
            },
    {
        proof {
            use_type_invariant(&*self);
        }
        if let Some(index) = self.selection.rectangle {
            let mut drawings = Drawings::new();
            std::mem::swap(&mut drawings, &mut self.drawings);
            drawings.remove_rectangle(index);
            self.drawings = drawings;
            self.selection = Selection { rectangle: None, popup_position: None, ..self.selection };
        }
    }

    /// The rectangle popup's move action: the selected rectangle becomes
    /// the one being moved and the popup closes.
    pub fn move_selected_rectangle(&mut self)
        ensures
            old(self)@.selection.rectangle is None ==> final(self)@ == old(self)@,
            old(self)@.selection.rectangle is Some ==> final(self)@ == (MapViewModel {
                selection: Selection {
                    moving_rectangle: old(self)@.selection.rectangle,
                    move_offset: None,
                    rectangle: None,
                    popup_position: None,
                    ..old(self)@.selection
                },
                ..old(self)@
            }),
    {
        proof {
            use_type_invariant(&*self);
        }
        if let Some(index) = self.selection.rectangle {
            self.selection = Selection {
                moving_rectangle: Some(index),
                move_offset: None,
                rectangle: None,
                popup_position: None,
                ..self.selection
            };
        }
    }

    /// Closes the rectangle popup.
    pub fn close_rectangle_popup(&mut self)
        ensures
            final(self)@ == (MapViewModel {
                selection: Selection {
                    rectangle: None,
                    popup_position: None,
                    ..old(self)@.selection
                },
                ..old(self)@
            }),
    {
        proof {
            use_type_invariant(&*self);
        }
        self.selection = Selection { rectangle: None, popup_position: None, ..self.selection };
    }

    /// The circle, arrow or text popup's delete action: deletes the
    /// selected circle, else arrow, else text (when its index is in range)
    /// with its undo entry, and closes that selection and the popup.
    pub fn delete_selected_annotation(&mut self)
        ensures
            ({
                let sel = old(self)@.selection;
                let d = old(self)@.drawings;
                if sel.circle is Some {
                    let i = sel.circle->0;
                    final(self)@ == (MapViewModel {
                        drawings: if i < d.circles.len() {
                            forgotten(
                                DrawingsModel {
                                    circles: d.circles.remove(i as int),
                                    circles_changed: true,
                                    ..d
                                },
                                AnnotationModel::Circle(d.circles[i as int]),
                            )
                        } else {
                            d
                        },
                        selection: Selection { circle: None, popup_position: None, ..sel },
                        ..old(self)@
                    })
                } else if sel.arrow is Some {
                    let i = sel.arrow->0;
                    final(self)@ == (MapViewModel {
                        drawings: if i < d.arrows.len() {
                            forgotten(
                                DrawingsModel {
                                    arrows: d.arrows.remove(i as int),
                                    arrows_changed: true,
                                    ..d
                                },
                                AnnotationModel::Arrow(d.arrows[i as int]),
                            )
                        } else {
                            d
                        },
                        selection: Selection { arrow: None, popup_position: None, ..sel },
                        ..old(self)@
                    })
                } else if sel.text is Some {
                    let i = sel.text->0;
                    final(self)@ == (MapViewModel {
                        drawings: if i < d.texts.len() {
                            forgotten(
                                DrawingsModel {
                                    texts: d.texts.remove(i as int),
                                    texts_changed: true,
                                    ..d
                                },
                                AnnotationModel::Text(
                                    d.texts[i as int].0,
                                    d.texts[i as int].1,
                                    d.texts[i as int].2,
                                ),
                            )
                        } else {
                            d
                        },
                        selection: Selection { text: None, popup_position: None, ..sel },
                        ..old(self)@
                    })
                } else {
                    final(self)@ == old(self)@
                }
            }),
    {
        proof {
            use_type_invariant(&*self);
        }
        if let Some(index) = self.selection.circle {
            let mut drawings = Drawings::new();
            std::mem::swap(&mut drawings, &mut self.drawings);
            drawings.remove_circle(index);
            self.drawings = drawings;
            self.selection = Selection { circle: None, popup_position: None, ..self.selection };
        } else if let Some(index) = self.selection.arrow {
            let mut drawings = Drawings::new();
            std::mem::swap(&mut drawings, &mut self.drawings);
            drawings.remove_arrow(index);
            self.drawings = drawings;
            self.selection = Selection { arrow: None, popup_position: None, ..self.selection };
        } else if let Some(index) = self.selection.text {
            let mut drawings = Drawings::new();
            std::mem::swap(&mut drawings, &mut self.drawings);
            drawings.remove_text(index);
            self.drawings = drawings;
            self.selection = Selection { text: None, popup_position: None, ..self.selection };
        }
    }

    /// Closes the circle, arrow and text selections and their popup.
    pub fn close_annotation_popup(&mut self)
        ensures
            final(self)@ == (MapViewModel {
                selection: Selection {
                    circle: None,
                    arrow: None,
                    text: None,
                    popup_position: None,
                    ..old(self)@.selection
                },
                ..old(self)@
            }),
    {
        proof {
            use_type_invariant(&*self);
        }
        self.selection = Selection {
            circle: None,
            arrow: None,
            text: None,
            popup_position: None,
            ..self.selection
        };
    }

    /// Where in the moved rectangle the pointer took hold of it.
    pub fn set_move_offset(&mut self, offset: Option<WorldPoint>)
        ensures
            final(self)@ == (MapViewModel {
                selection: Selection { move_offset: offset, ..old(self)@.selection },
                ..old(self)@
            }),
    {
        proof {
            use_type_invariant(&*self);
        }
        self.selection = Selection { move_offset: offset, ..self.selection };
    }

    /// Puts the rectangle at `index` where the move has taken it.
    pub fn move_rectangle_to(&mut self, index: usize, rectangle: MapRectangle)
        ensures
            index < old(self)@.drawings.rectangles.len() ==> final(self)@ == (MapViewModel {
                drawings: DrawingsModel {
                    rectangles: old(self)@.drawings.rectangles.update(index as int, rectangle),
                    ..old(self)@.drawings
                },
                ..old(self)@
            }),
            index >= old(self)@.drawings.rectangles.len() ==> final(self)@ == old(self)@,
    {
        proof {
            use_type_invariant(&*self);
        }
        let mut drawings = Drawings::new();
        std::mem::swap(&mut drawings, &mut self.drawings);
        drawings.replace_rectangle(index, rectangle);
        self.drawings = drawings;
    }

    /// Ends a rectangle move; when the rectangle was taken hold of, the
    /// rectangles are to be saved.
    pub fn finish_rectangle_move(&mut self)
        ensures
            final(self)@ == (MapViewModel {
                drawings: DrawingsModel {
                    rectangles_changed: old(self)@.drawings.rectangles_changed
                        || old(self)@.selection.move_offset is Some,
                    ..old(self)@.drawings
                },
                selection: Selection {
                    moving_rectangle: None,
                    move_offset: None,
                    ..old(self)@.selection
                },
                ..old(self)@
            }),
    {
        proof {
            use_type_invariant(&*self);
        }
        if self.selection.move_offset.is_some() {
            let mut drawings = Drawings::new();
            std::mem::swap(&mut drawings, &mut self.drawings);
            drawings.mark_rectangles_changed();
            self.drawings = drawings;
        }
        self.selection = Selection { moving_rectangle: None, move_offset: None, ..self.selection };
    }

    /// The Escape key (see `escape_applied`).
    pub fn handle_escape(&mut self)
        ensures
            final(self)@ == escape_applied(old(self)@),
    {
        proof {
            use_type_invariant(&*self);
        }
        if self.drawing_tool_active() || self.tools.text || self.editor_position.is_some() {
            self.cancel_rectangle_tool();
        } else if self.selection.moving_rectangle.is_some() {
            self.selection = Selection {
                moving_rectangle: None,
                move_offset: None,
                ..self.selection
            };
        } else if self.selection.rectangle.is_some() {
            self.selection = Selection { rectangle: None, popup_position: None, ..self.selection };
        } else if self.selection.circle.is_some() {
            self.selection = Selection { circle: None, popup_position: None, ..self.selection };
        } else if self.selection.arrow.is_some() {
            self.selection = Selection { arrow: None, popup_position: None, ..self.selection };
        } else if self.selection.text.is_some() {
            self.selection = Selection { text: None, popup_position: None, ..self.selection };
        } else if self.node.selected.is_some() {
            self.node.selected = None;
            if self.node.edited {
                self.node.save_requested = true;
            }
        }
    }

    /// A click on the map outside every popup (see `outside_click_applied`).
    pub fn click_outside_popups(&mut self)
        ensures
            final(self)@ == outside_click_applied(old(self)@),
    {
        proof {
            use_type_invariant(&*self);
        }
        if self.selection.rectangle.is_some() {
            self.selection = Selection { rectangle: None, popup_position: None, ..self.selection };
        }
        if self.selection.circle.is_some() || self.selection.arrow.is_some() {
            self.selection = Selection {
                circle: None,
                arrow: None,
                popup_position: None,
                ..self.selection
            };
        }
        if self.node.selected.is_some() {
            self.node.selected = None;
            if self.node.edited {
                self.node.save_requested = true;
            }
        }
    }

    /// Whether resource names are written next to the nodes.
    pub fn show_node_names(&self) -> (r: bool)
        ensures
            r == self@.display.show_node_names,
    {
        self.display.show_node_names
    }

    pub fn set_show_node_names(&mut self, show: bool)
        ensures
            final(self)@ == (MapViewModel {
                display: DisplaySettings { show_node_names: show, ..old(self)@.display },
                ..old(self)@
            }),
    {
        proof {
            use_type_invariant(&*self);
        }
        self.display = DisplaySettings { show_node_names: show, ..self.display };
    }

    /// Whether the world grid is drawn.
    pub fn show_grid(&self) -> (r: bool)
        ensures
            r == self@.display.show_grid,
    {
        self.display.show_grid
    }

    pub fn set_show_grid(&mut self, show: bool)
        ensures
            final(self)@ == (MapViewModel {
                display: DisplaySettings { show_grid: show, ..old(self)@.display },
                ..old(self)@
            }),
    {
        proof {
            use_type_invariant(&*self);
        }
        self.display = DisplaySettings { show_grid: show, ..self.display };
    }

    /// Whether railways are drawn.
    pub fn show_rails(&self) -> (r: bool)
        ensures
            r == self@.display.show_rails,
    {
        self.display.show_rails
    }

    pub fn set_show_rails(&mut self, show: bool)
        ensures
            final(self)@ == (MapViewModel {
                display: DisplaySettings { show_rails: show, ..old(self)@.display },
                ..old(self)@
            }),
    {
        proof {
            use_type_invariant(&*self);
        }
        self.display = DisplaySettings { show_rails: show, ..self.display };
    }

    /// Whether foundations are drawn.
    pub fn show_foundations(&self) -> (r: bool)
        ensures
            r == self@.display.show_foundations,
    {
        self.display.show_foundations
    }

    pub fn set_show_foundations(&mut self, show: bool)
        ensures
            final(self)@ == (MapViewModel {
                display: DisplaySettings { show_foundations: show, ..old(self)@.display },
                ..old(self)@
            }),
    {
        proof {
            use_type_invariant(&*self);
        }
        self.display = DisplaySettings { show_foundations: show, ..self.display };
    }

    /// Whether conveyor belts are drawn.
    pub fn show_belts(&self) -> (r: bool)
        ensures
            r == self@.display.show_belts,
    {
        self.display.show_belts
    }

    pub fn set_show_belts(&mut self, show: bool)
        ensures
            final(self)@ == (MapViewModel {
                display: DisplaySettings { show_belts: show, ..old(self)@.display },
                ..old(self)@
            }),
    {
        proof {
            use_type_invariant(&*self);
        }
        self.display = DisplaySettings { show_belts: show, ..self.display };
    }

    pub fn display(&self) -> (r: DisplaySettings)
        ensures
            r == self@.display,
            1 <= r.miner_tier <= 3,
    {
        proof {
            use_type_invariant(self);
        }
        self.display
    }

    /// The miner tier assumed for unclaimed nodes: from one to three.
    pub fn unclaimed_miner_tier(&self) -> (r: u8)
        ensures
            r == self@.display.miner_tier,
            1 <= r <= 3,
    {
        proof {
            use_type_invariant(self);
        }
        self.display.miner_tier
    }

    /// Sets the miner tier, clamped to one to three; a change makes the
    /// resource summary stale.
    pub fn set_unclaimed_miner_tier(&mut self, tier: u8)
        ensures
            ({
                let clamped: u8 = if tier < 1 {
                    1
                } else if tier > 3 {
                    3
                } else {
                    tier
                };
                final(self)@ == (MapViewModel {
                    display: DisplaySettings {
                        miner_tier: clamped,
                        summary_stale: old(self)@.display.summary_stale
                            || clamped != old(self)@.display.miner_tier,
                        ..old(self)@.display
                    },
                    ..old(self)@
                })
            }),
    {
        proof {
            use_type_invariant(&*self);
        }
        let clamped: u8 = if tier < 1 {
            1
        } else if tier > 3 {
            3
        } else {
            tier
        };
        if self.display.miner_tier != clamped {
            self.display = DisplaySettings {
                miner_tier: clamped,
                summary_stale: true,
                ..self.display
            };
        }
    }

    /// Whether the resource summary is to be computed again.
    pub fn resource_summary_stale(&self) -> (r: bool)
        ensures
            r == self@.display.summary_stale,
    {
        self.display.summary_stale
    }

    /// Marks the resource summary as to be computed again (the nodes'
    /// extractors or allocations changed), or as computed.
    pub fn set_resource_summary_stale(&mut self, stale: bool)
        ensures
            final(self)@ == (MapViewModel {
                display: DisplaySettings { summary_stale: stale, ..old(self)@.display },
                ..old(self)@
            }),
    {
        proof {
            use_type_invariant(&*self);
        }
        self.display = DisplaySettings { summary_stale: stale, ..self.display };
    }

    pub fn play_duration_in_seconds(&self) -> (r: u32)
        ensures
            r == self@.display.play_duration_in_seconds,
    {
        self.display.play_duration_in_seconds
    }

    pub fn set_play_duration_in_seconds(&mut self, seconds: u32)
        ensures
            final(self)@ == (MapViewModel {
                display: DisplaySettings {
                    play_duration_in_seconds: seconds,
                    ..old(self)@.display
                },
                ..old(self)@
            }),
    {
        proof {
            use_type_invariant(&*self);
        }
        self.display = DisplaySettings { play_duration_in_seconds: seconds, ..self.display };
    }

    /// The order of the resource panel.
    pub fn resource_order(&self) -> (r: Vec<String>)
        ensures
            string_views(r@) == self@.filters.resource_order,
    {
        let order = &self.filters.resource_order;
        let ghost o = string_views(order@);
        let mut r: Vec<String> = Vec::new();
        let mut i: usize = 0;
        while i < order.len()
            invariant
                i <= order@.len(),
                o == string_views(order@),
                string_views(r@) == o.take(i as int),
            decreases order@.len() - i,
        {
            let ghost before = string_views(r@);
            r.push(order[i].clone());
            assert(string_views(r@) =~= before.push(order@[i as int]@));
            i = i + 1;
            assert(o.take(i as int) =~= o.take(i - 1).push(order@[i - 1]@));
        }
        assert(o.take(i as int) =~= o);
        r
    }

    pub fn set_resource_order(&mut self, order: Vec<String>)
        ensures
            final(self)@ == (MapViewModel {
                filters: FilterModel { resource_order: string_views(order@), ..old(self)@.filters },
                ..old(self)@
            }),
    {
        proof {
            use_type_invariant(&*self);
        }
        self.filters.resource_order = order;
    }

    /// Brings the resource order in line with the resources of the summary
    /// (see `spec_reconcile_order`). Returns whether the order changed.
    pub fn reconcile_resource_order(&mut self, present: &Vec<String>) -> (changed: bool)
        ensures
            final(self)@ == (MapViewModel {
                filters: FilterModel {
                    resource_order: spec_reconcile_order(
                        old(self)@.filters.resource_order,
                        string_views(present@),
                    ),
                    ..old(self)@.filters
                },
                ..old(self)@
            }),
            changed == (spec_reconcile_order(
                old(self)@.filters.resource_order,
                string_views(present@),
            ) != old(self)@.filters.resource_order),
    {
        proof {
            use_type_invariant(&*self);
        }
        let ordered = reconcile_resource_order(&self.filters.resource_order, present);
        let changed = !strings_equal(&ordered, &self.filters.resource_order);
        self.filters.resource_order = ordered;
        changed
    }

    /// Drags `dragged` onto `target` in the resource order (see
    /// `move_resource`). Returns whether both were found.
    pub fn move_resource(&mut self, dragged: &str, target: &str) -> (moved: bool)
        ensures
            moved == (old(self)@.filters.resource_order.contains(dragged@)
                && old(self)@.filters.resource_order.contains(target@)),
            moved ==> final(self)@ == (MapViewModel {
                filters: FilterModel {
                    resource_order: spec_moved_order(
                        old(self)@.filters.resource_order,
                        old(self)@.filters.resource_order.index_of_first(dragged@)->Some_0,
                        old(self)@.filters.resource_order.index_of_first(target@)->Some_0,
                        target@,
                    ),
                    ..old(self)@.filters
                },
                ..old(self)@
            }),
            !moved ==> final(self)@ == old(self)@,
    {
        proof {
            use_type_invariant(&*self);
        }
        let mut order: Vec<String> = Vec::new();
        std::mem::swap(&mut order, &mut self.filters.resource_order);
        let moved = move_resource(&mut order, dragged, target);
        self.filters.resource_order = order;
        moved
    }

    /// The filters: resource, purity, claimed nodes only, nodes with
    /// capacity left only.
    pub fn filter_settings(&self) -> (r: (String, String, bool, bool))
        ensures
            r.0@ == self@.filters.resource_filter,
            r.1@ == self@.filters.purity_filter,
            r.2 == self@.filters.only_used,
            r.3 == self@.filters.only_partial,
    {
        (
            self.filters.resource_filter.clone(),
            self.filters.purity_filter.clone(),
            self.filters.only_used,
            self.filters.only_partial,
        )
    }

    /// Sets the filters from saved settings; the "all" labels of older
    /// settings become the internal values.
    pub fn set_filter_settings(
        &mut self,
        resource_filter: String,
        purity_filter: String,
        only_claimed: bool,
        only_partial: bool,
    )
        ensures
            final(self)@ == (MapViewModel {
                filters: FilterModel {
                    resource_filter: spec_normalize_resource_filter(resource_filter@),
                    purity_filter: spec_normalize_purity_filter(purity_filter@),
                    only_used: only_claimed,
                    only_partial,
                    ..old(self)@.filters
                },
                ..old(self)@
            }),
    {
        proof {
            use_type_invariant(&*self);
        }
        self.filters.resource_filter = normalize_resource_filter(resource_filter.as_str());
        self.filters.purity_filter = normalize_purity_filter(purity_filter.as_str());
        self.filters.only_used = only_claimed;
        self.filters.only_partial = only_partial;
    }

    /// Applies the filter panel's values; when a filter or the grid switch
    /// changed, the settings are to be saved.
    pub fn apply_filter_panel(
        &mut self,
        resource_filter: String,
        purity_filter: String,
        only_claimed: bool,
        only_partial: bool,
        show_grid: bool,
    )
        ensures
            ({
                let f = old(self)@.filters;
                let differs = f.resource_filter != resource_filter@ || f.purity_filter
                    != purity_filter@ || f.only_used != only_claimed || f.only_partial
                    != only_partial || old(self)@.display.show_grid != show_grid;
                final(self)@ == (MapViewModel {
                    filters: FilterModel {
                        resource_filter: resource_filter@,
                        purity_filter: purity_filter@,
                        only_used: only_claimed,
                        only_partial,
                        changed: f.changed || differs,
                        ..f
                    },
                    display: DisplaySettings { show_grid, ..old(self)@.display },
                    ..old(self)@
                })
            }),
    {
        proof {
            use_type_invariant(&*self);
        }
        let differs = !str_eq(self.filters.resource_filter.as_str(), resource_filter.as_str())
            || !str_eq(self.filters.purity_filter.as_str(), purity_filter.as_str())
            || self.filters.only_used != only_claimed || self.filters.only_partial != only_partial
            || self.display.show_grid != show_grid;
        self.filters.resource_filter = resource_filter;
        self.filters.purity_filter = purity_filter;
        self.filters.only_used = only_claimed;
        self.filters.only_partial = only_partial;
        if differs {
            self.filters.changed = true;
        }
        self.display = DisplaySettings { show_grid, ..self.display };
    }

    /// Whether the filter settings changed since the last call.
    pub fn take_filter_settings_changed(&mut self) -> (r: bool)
        ensures
            r == old(self)@.filters.changed,
            final(self)@ == (MapViewModel {
                filters: FilterModel { changed: false, ..old(self)@.filters },
                ..old(self)@
            }),
    {
        proof {
            use_type_invariant(&*self);
        }
        let r = self.filters.changed;
        self.filters.changed = false;
        r
    }

    /// The node whose popup is open.
    pub fn selected_node(&self) -> (r: Option<&str>)
        ensures
            match r {
                Some(s) => self@.node.selected == Some(s@),
                None => self@.node.selected is None,
            },
    {
        match &self.node.selected {
            Some(s) => Some(s.as_str()),
            None => None,
        }
    }

    /// Opens the popup of the node `id`. Leaving another node whose
    /// allocation was edited asks for the allocations to be saved.
    pub fn select_node(&mut self, id: String)
        ensures
            old(self)@.node.selected == Some(id@) ==> final(self)@ == old(self)@,
            old(self)@.node.selected != Some(id@) ==> final(self)@ == (MapViewModel {
                node: NodeSelectionModel {
                    selected: Some(id@),
                    save_requested: old(self)@.node.save_requested || (
                    old(self)@.node.selected is Some && old(self)@.node.edited),
                    ..old(self)@.node
                },
                ..old(self)@
            }),
    {
        proof {
            use_type_invariant(&*self);
        }
        let same = match &self.node.selected {
            Some(current) => str_eq(current.as_str(), id.as_str()),
            None => false,
        };
        if !same {
            if self.node.selected.is_some() && self.node.edited {
                self.node.save_requested = true;
            }
            self.node.selected = Some(id);
        }
    }

    /// The node popup's close button: the allocations are to be saved
    /// exactly when they were edited.
    pub fn close_node_popup(&mut self)
        ensures
            final(self)@ == (MapViewModel {
                node: NodeSelectionModel {
                    selected: None,
                    save_requested: old(self)@.node.edited,
                    ..old(self)@.node
                },
                ..old(self)@
            }),
    {
        proof {
            use_type_invariant(&*self);
        }
        self.node.save_requested = self.node.edited;
        self.node.selected = None;
    }

    /// The selected node's allocation was edited in its popup.
    pub fn mark_allocation_edited(&mut self)
        ensures
            final(self)@ == (MapViewModel {
                node: NodeSelectionModel { edited: true, ..old(self)@.node },
                display: DisplaySettings { summary_stale: true, ..old(self)@.display },
                ..old(self)@
            }),
    {
        proof {
            use_type_invariant(&*self);
        }
        self.node.edited = true;
        self.display = DisplaySettings { summary_stale: true, ..self.display };
    }

    /// Closes the node popup when the window loses focus; an edited
    /// allocation is to be saved.
    pub fn close_popup_for_background(&mut self)
        ensures
            final(self)@ == (MapViewModel {
                node: NodeSelectionModel {
                    selected: None,
                    save_requested: old(self)@.node.save_requested || (
                    old(self)@.node.selected is Some && old(self)@.node.edited),
                    ..old(self)@.node
                },
                ..old(self)@
            }),
    {
        proof {
            use_type_invariant(&*self);
        }
        if self.node.selected.is_some() {
            self.node.selected = None;
            if self.node.edited {
                self.node.save_requested = true;
            }
        }
    }

    /// Whether the allocations are to be saved; taking the request clears
    /// it and the edited mark.
    pub fn take_allocation_save_request(&mut self) -> (r: bool)
        ensures
            r == old(self)@.node.save_requested,
            r ==> final(self)@ == (MapViewModel {
                node: NodeSelectionModel {
                    save_requested: false,
                    edited: false,
                    ..old(self)@.node
                },
                ..old(self)@
            }),
            !r ==> final(self)@ == old(self)@,
    {
        proof {
            use_type_invariant(&*self);
        }
        if !self.node.save_requested {
            return false;
        }
        self.node.save_requested = false;
        self.node.edited = false;
        true
    }

    /// Whether the filters show a node with the given resource and purity,
    /// claimed by an extractor or not, with capacity left or not.
    pub fn shows_node(
        &self,
        resource: &str,
        purity: &str,
        claimed: bool,
        has_capacity_left: bool,
    ) -> (r: bool)
        ensures
            r == ((self@.filters.resource_filter == "__all_resources__"@
                || resource@ == self@.filters.resource_filter) && (self@.filters.purity_filter
                == "__all_purities__"@ || purity@ == self@.filters.purity_filter) && (
            !self@.filters.only_used || claimed) && (!self@.filters.only_partial
                || has_capacity_left)),
    {
        proof {
            reveal_strlit("__all_resources__");
            reveal_strlit("__all_purities__");
        }
        let resource_ok = str_eq(self.filters.resource_filter.as_str(), ALL_RESOURCES_FILTER)
            || str_eq(resource, self.filters.resource_filter.as_str());
        let purity_ok = str_eq(self.filters.purity_filter.as_str(), ALL_PURITY_FILTER) || str_eq(
            purity,
            self.filters.purity_filter.as_str(),
        );
        resource_ok && purity_ok && (!self.filters.only_used || claimed) && (
        !self.filters.only_partial || has_capacity_left)
    }
}

/// Whether two lists of strings are equal.
fn strings_equal(a: &Vec<String>, b: &Vec<String>) -> (r: bool)
    ensures
        r == (string_views(a@) == string_views(b@)),
{
    if a.len() != b.len() {
        proof {
            assert(string_views(a@).len() != string_views(b@).len());
        }
        return false;
    }
    let mut i: usize = 0;
    while i < a.len()
        invariant
            i <= a@.len(),
            a@.len() == b@.len(),
            forall|k: int| 0 <= k < i ==> #[trigger] a@[k]@ == b@[k]@,
        decreases a@.len() - i,
    {
        if !str_eq(a[i].as_str(), b[i].as_str()) {
            proof {
                assert(string_views(a@)[i as int] != string_views(b@)[i as int]);
            }
            return false;
        }
        i = i + 1;
    }
    assert(string_views(a@) =~= string_views(b@));
    true
}

} // verus!
