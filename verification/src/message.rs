//! What comes in from the widgets and what goes out to the host: messages,
//! commands, and the steps that an entry point of the editor answers with.

use vstd::prelude::*;
use crate::curve::{Curve, CurveModel};
use crate::handle::{EntityRef, WidgetRef};
use crate::track_list::TrackListItem;

verus! {

/// Whether a message goes to a widget or comes from it.
#[derive(Clone, Copy, Debug, PartialEq, Eq, Structural)]
pub enum MessageDirection {
    ToWidget,
    FromWidget,
}

/// A point or a scale of the curve editor's viewport. Both coordinates are
/// the bit patterns of single-precision numbers.
#[derive(Clone, Copy, Debug, PartialEq, Eq, Structural)]
pub struct Vector2 {
    pub x: u32,
    pub y: u32,
}

/// What the curve editor reports.
#[derive(Debug, PartialEq, Eq)]
pub enum CurveEditorMessage {
    /// The curve as the user left it.
    Sync(Curve),
    /// The viewport was moved.
    ViewPosition(Vector2),
    /// The viewport was scaled.
    Zoom(Vector2),
    /// The viewport was asked to frame the curve.
    ZoomToFit,
    /// Any other message of the curve editor.
    Other,
}

/// What a [`CurveEditorMessage`] holds, as mathematical values.
pub ghost enum CurveEditorMessageModel {
    Sync(CurveModel),
    ViewPosition(Vector2),
    Zoom(Vector2),
    ZoomToFit,
    Other,
}

impl View for CurveEditorMessage {
    type V = CurveEditorMessageModel;

    open spec fn view(&self) -> CurveEditorMessageModel {
        match self {
            CurveEditorMessage::Sync(c) => CurveEditorMessageModel::Sync(c@),
            CurveEditorMessage::ViewPosition(p) => CurveEditorMessageModel::ViewPosition(*p),
            CurveEditorMessage::Zoom(z) => CurveEditorMessageModel::Zoom(*z),
            CurveEditorMessage::ZoomToFit => CurveEditorMessageModel::ZoomToFit,
            CurveEditorMessage::Other => CurveEditorMessageModel::Other,
        }
    }
}

/// A message of the user interface. `data` is the curve editor's payload,
/// and nothing where the message carries something else.
#[derive(Debug, PartialEq, Eq)]
pub struct UiMessage {
    pub destination: WidgetRef,
    pub direction: MessageDirection,
    pub data: Option<CurveEditorMessage>,
}

/// What a [`UiMessage`] holds, as mathematical values.
pub ghost struct UiMessageModel {
    pub destination: WidgetRef,
    pub direction: MessageDirection,
    pub data: Option<CurveEditorMessageModel>,
}

impl View for UiMessage {
    type V = UiMessageModel;

    open spec fn view(&self) -> UiMessageModel {
        UiMessageModel {
            destination: self.destination,
            direction: self.direction,
            data: match self.data {
                Some(m) => Some(m@),
                None => None,
            },
        }
    }
}

impl UiMessage {
    pub fn new(destination: WidgetRef, direction: MessageDirection, data: Option<CurveEditorMessage>) -> (r:
        UiMessage)
        ensures
            r.destination == destination,
            r.direction == direction,
            r.data == data,
    {
        UiMessage { destination, direction, data }
    }
}

/// The command that puts `curve` in the place of the curve of the same
/// identity in `animation` of `animation_player`.
#[derive(Debug, PartialEq, Eq)]
pub struct ReplaceTrackCurveCommand {
    pub animation_player: EntityRef,
    pub animation: EntityRef,
    pub curve: Curve,
}

/// What a [`ReplaceTrackCurveCommand`] holds, as mathematical values.
pub ghost struct ReplaceTrackCurveCommandModel {
    pub animation_player: EntityRef,
    pub animation: EntityRef,
    pub curve: CurveModel,
}

impl View for ReplaceTrackCurveCommand {
    type V = ReplaceTrackCurveCommandModel;

    open spec fn view(&self) -> ReplaceTrackCurveCommandModel {
        ReplaceTrackCurveCommandModel {
            animation_player: self.animation_player,
            animation: self.animation,
            curve: self.curve@,
        }
    }
}

/// One step that the host performs for the editor. An entry point answers
/// with its steps in the order in which they are to be performed.
#[derive(Debug, PartialEq, Eq)]
pub enum EditorAction {
    /// Show the editor's window.
    OpenWindow { window: WidgetRef, center: bool },
    /// Hand the message to the toolbar.
    ToolbarHandleMessage { animation_player: EntityRef, animation: EntityRef },
    /// Hand the message to the track list.
    TrackListHandleMessage { animation_player: EntityRef, animation: EntityRef },
    /// Submit a command to the command executor.
    SubmitCommand(ReplaceTrackCurveCommand),
    /// Tell the ruler where the viewport begins.
    RulerViewPosition { ruler: WidgetRef, position: u32 },
    /// Tell the ruler the scale of the viewport.
    RulerZoom { ruler: WidgetRef, zoom: u32 },
    /// Let the toolbar show the state of the player, with its controls
    /// switched on or off.
    ToolbarSync { animation_player: EntityRef, animation: EntityRef, controls_enabled: bool },
    /// Let the track list show these items, in this order.
    TrackListSync { track_list: WidgetRef, items: Vec<TrackListItem> },
    /// Put a curve into the curve editor.
    CurveEditorSync { curve_editor: WidgetRef, curve: Curve },
    /// Let the curve editor frame its curve.
    CurveEditorZoomToFit { curve_editor: WidgetRef },
    /// Show or hide the content panel.
    ContentVisibility { content: WidgetRef, visible: bool },
}

/// What an [`EditorAction`] holds, as mathematical values.
pub ghost enum EditorActionModel {
    OpenWindow { window: WidgetRef, center: bool },
    ToolbarHandleMessage { animation_player: EntityRef, animation: EntityRef },
    TrackListHandleMessage { animation_player: EntityRef, animation: EntityRef },
    SubmitCommand(ReplaceTrackCurveCommandModel),
    RulerViewPosition { ruler: WidgetRef, position: u32 },
    RulerZoom { ruler: WidgetRef, zoom: u32 },
    ToolbarSync { animation_player: EntityRef, animation: EntityRef, controls_enabled: bool },
    TrackListSync { track_list: WidgetRef, items: Seq<TrackListItem> },
    CurveEditorSync { curve_editor: WidgetRef, curve: CurveModel },
    CurveEditorZoomToFit { curve_editor: WidgetRef },
    ContentVisibility { content: WidgetRef, visible: bool },
}

impl View for EditorAction {
    type V = EditorActionModel;

    open spec fn view(&self) -> EditorActionModel {
        match self {
            EditorAction::OpenWindow { window, center } => EditorActionModel::OpenWindow {
                window: *window,
                center: *center,
            },
            EditorAction::ToolbarHandleMessage {
                animation_player,
                animation,
            } => EditorActionModel::ToolbarHandleMessage {
                animation_player: *animation_player,
                animation: *animation,
            },
            EditorAction::TrackListHandleMessage {
                animation_player,
                animation,
            } => EditorActionModel::TrackListHandleMessage {
                animation_player: *animation_player,
                animation: *animation,
            },
            EditorAction::SubmitCommand(c) => EditorActionModel::SubmitCommand(c@),
            EditorAction::RulerViewPosition { ruler, position } => EditorActionModel::RulerViewPosition {
                ruler: *ruler,
                position: *position,
            },
            EditorAction::RulerZoom { ruler, zoom } => EditorActionModel::RulerZoom {
                ruler: *ruler,
                zoom: *zoom,
            },
            EditorAction::ToolbarSync {
                animation_player,
                animation,
                controls_enabled,
            } => EditorActionModel::ToolbarSync {
                animation_player: *animation_player,
                animation: *animation,
                controls_enabled: *controls_enabled,
            },
            EditorAction::TrackListSync { track_list, items } => EditorActionModel::TrackListSync {
                track_list: *track_list,
                items: items@,
            },
            EditorAction::CurveEditorSync { curve_editor, curve } => EditorActionModel::CurveEditorSync {
                curve_editor: *curve_editor,
                curve: curve@,
            },
            EditorAction::CurveEditorZoomToFit { curve_editor } => EditorActionModel::CurveEditorZoomToFit {
                curve_editor: *curve_editor,
            },
            EditorAction::ContentVisibility { content, visible } => EditorActionModel::ContentVisibility {
                content: *content,
                visible: *visible,
            },
        }
    }
}

impl EditorActionModel {
    /// Whether the step submits a command.
    pub open spec fn is_command(&self) -> bool {
        self is SubmitCommand
    }

    /// Whether the step shows or hides the content panel.
    pub open spec fn is_visibility(&self) -> bool {
        self is ContentVisibility
    }

    /// Whether the step is a message to the curve editor.
    pub open spec fn is_curve_editor_update(&self) -> bool {
        self is CurveEditorSync || self is CurveEditorZoomToFit
    }
}

/// The steps of `actions`, each as its mathematical value.
pub open spec fn action_views(actions: Seq<EditorAction>) -> Seq<EditorActionModel> {
    actions.map_values(|a: EditorAction| a@)
}

/// Appends one step.
pub fn push_action(actions: &mut Vec<EditorAction>, action: EditorAction)
    ensures
        action_views(final(actions)@) == action_views(old(actions)@).push(action@),
{
    actions.push(action);
    assert(action_views(actions@) =~= action_views(old(actions)@).push(action@));
}

} // verus!
