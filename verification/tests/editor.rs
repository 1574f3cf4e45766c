use animation_editor::animation::{Animation, AnimationPlayer, Track};
use animation_editor::curve::{Curve, KeyKind, Keyframe};
use animation_editor::editor::AnimationEditor;
use animation_editor::handle::{EntityRef, WidgetRef};
use animation_editor::message::{
    CurveEditorMessage, EditorAction, MessageDirection, ReplaceTrackCurveCommand, UiMessage, Vector2,
};
use animation_editor::pool::{Pool, PoolRecord};
use animation_editor::scene::{EditorScene, Engine, Graph, Node, Scene};
use animation_editor::selection::{AnimationSelection, GraphSelection, SelectedEntity, Selection};
use animation_editor::toolbar::Toolbar;
use animation_editor::track_list::{TrackList, TrackListItem};

const WINDOW: WidgetRef = WidgetRef { index: 1, generation: 1 };
const CONTENT: WidgetRef = WidgetRef { index: 2, generation: 1 };
const TOOLBAR: WidgetRef = WidgetRef { index: 3, generation: 1 };
const TRACK_LIST: WidgetRef = WidgetRef { index: 4, generation: 1 };
const RULER: WidgetRef = WidgetRef { index: 5, generation: 1 };
const CURVE_EDITOR: WidgetRef = WidgetRef { index: 6, generation: 1 };

const SCENE: EntityRef = EntityRef { index: 0, generation: 1 };
const PLAYER: EntityRef = EntityRef { index: 1, generation: 1 };
const PLAIN_NODE: EntityRef = EntityRef { index: 0, generation: 1 };
const ANIMATION: EntityRef = EntityRef { index: 0, generation: 2 };

fn editor() -> AnimationEditor {
    AnimationEditor::new(
        WINDOW,
        CONTENT,
        Toolbar::new(TOOLBAR),
        TrackList::new(TRACK_LIST),
        RULER,
        CURVE_EDITOR,
    )
}

fn key(id: u128, location: f32, value: f32) -> Keyframe {
    Keyframe { id, location: location.to_bits(), value: value.to_bits(), kind: KeyKind::Linear }
}

fn stored_curve(id: u128) -> Curve {
    Curve::new(id, "position.x".to_string(), vec![key(1, 0.0, 0.0), key(2, 1.0, 1.0)])
}

fn edited_curve(id: u128) -> Curve {
    Curve::new(
        id,
        "position.x".to_string(),
        vec![
            key(1, 0.0, 0.0),
            Keyframe {
                id: 3,
                location: 0.5f32.to_bits(),
                value: 2.0f32.to_bits(),
                kind: KeyKind::Cubic {
                    left_tangent: 0.25f32.to_bits(),
                    right_tangent: 0.75f32.to_bits(),
                },
            },
            key(2, 1.0, 1.0),
        ],
    )
}

/// One scene; node 0 is a plain node, node 1 a player with one animation
/// that holds one track with the given curves.
fn engine_with(curves: Vec<Curve>) -> Engine {
    let animation = Animation::new(vec![Track::new(50, curves)]);
    let player = AnimationPlayer::new(Pool {
        records: vec![PoolRecord { generation: 2, payload: Some(animation) }],
    });
    let graph = Graph::new(Pool {
        records: vec![
            PoolRecord { generation: 1, payload: Some(Node::new(None)) },
            PoolRecord { generation: 1, payload: Some(Node::new(Some(player))) },
        ],
    });
    Engine::new(Pool { records: vec![PoolRecord { generation: 1, payload: Some(Scene::new(graph)) }] })
}

fn curve_selected(id: u128) -> EditorScene {
    EditorScene::new(
        SCENE,
        Selection::Animation(AnimationSelection::new(
            PLAYER,
            ANIMATION,
            vec![SelectedEntity::Curve(id)],
        )),
    )
}

fn from_curve_editor(data: CurveEditorMessage) -> UiMessage {
    UiMessage::new(CURVE_EDITOR, MessageDirection::FromWidget, Some(data))
}

fn toolbar_sync(enabled: bool) -> EditorAction {
    EditorAction::ToolbarSync {
        animation_player: PLAYER,
        animation: if enabled { ANIMATION } else { EntityRef::none() },
        controls_enabled: enabled,
    }
}

fn dispatch() -> Vec<EditorAction> {
    vec![
        EditorAction::ToolbarHandleMessage { animation_player: PLAYER, animation: ANIMATION },
        EditorAction::TrackListHandleMessage { animation_player: PLAYER, animation: ANIMATION },
    ]
}

#[test]
fn open_shows_the_window() {
    assert_eq!(editor().open(), EditorAction::OpenWindow { window: WINDOW, center: true });
}

#[test]
fn new_keeps_the_widgets() {
    let e = editor();
    assert_eq!(e.window, WINDOW);
    assert_eq!(e.content, CONTENT);
    assert_eq!(e.toolbar.panel, TOOLBAR);
    assert_eq!(e.track_list.panel, TRACK_LIST);
    assert_eq!(e.ruler, RULER);
    assert_eq!(e.curve_editor, CURVE_EDITOR);
}

#[test]
fn sync_pushes_selected_curve_then_zooms_to_fit() {
    let engine = engine_with(vec![stored_curve(7)]);
    let mut e = editor();
    let steps = e.sync_to_model(&curve_selected(7), &engine);
    assert_eq!(
        steps,
        vec![
            toolbar_sync(true),
            EditorAction::TrackListSync {
                track_list: TRACK_LIST,
                items: vec![TrackListItem::Track(50), TrackListItem::Curve(7)],
            },
            EditorAction::CurveEditorSync {
                curve_editor: CURVE_EDITOR,
                curve: Curve::new(
                    7,
                    "position.x".to_string(),
                    vec![key(1, 0.0, 0.0), key(2, 1.0, 1.0)],
                ),
            },
            EditorAction::CurveEditorZoomToFit { curve_editor: CURVE_EDITOR },
            EditorAction::ContentVisibility { content: CONTENT, visible: true },
        ]
    );
    assert_eq!(e, editor());
}

#[test]
fn sync_without_the_curve_sends_nothing_to_curve_editor() {
    let engine = engine_with(vec![stored_curve(8)]);
    let steps = editor().sync_to_model(&curve_selected(7), &engine);
    assert_eq!(
        steps,
        vec![
            toolbar_sync(true),
            EditorAction::TrackListSync {
                track_list: TRACK_LIST,
                items: vec![TrackListItem::Track(50), TrackListItem::Curve(8)],
            },
            EditorAction::ContentVisibility { content: CONTENT, visible: true },
        ]
    );
}

#[test]
fn sync_without_player_hides_content() {
    let engine = engine_with(vec![stored_curve(7)]);
    let hidden = vec![EditorAction::ContentVisibility { content: CONTENT, visible: false }];
    let nothing = EditorScene::new(SCENE, Selection::Empty);
    assert_eq!(editor().sync_to_model(&nothing, &engine), hidden);
    let other = EditorScene::new(SCENE, Selection::Other);
    assert_eq!(editor().sync_to_model(&other, &engine), hidden);
    let empty_graph = EditorScene::new(SCENE, Selection::Graph(GraphSelection::new(vec![])));
    assert_eq!(editor().sync_to_model(&empty_graph, &engine), hidden);
}

#[test]
fn sync_on_node_without_capability_hides_content() {
    let engine = engine_with(vec![stored_curve(7)]);
    let hidden = vec![EditorAction::ContentVisibility { content: CONTENT, visible: false }];
    let plain = EditorScene::new(SCENE, Selection::Graph(GraphSelection::new(vec![PLAIN_NODE])));
    assert_eq!(editor().sync_to_model(&plain, &engine), hidden);
    let stale = EditorScene::new(
        SCENE,
        Selection::Animation(AnimationSelection::new(
            EntityRef::new(1, 9),
            ANIMATION,
            vec![SelectedEntity::Curve(7)],
        )),
    );
    assert_eq!(editor().sync_to_model(&stale, &engine), hidden);
}

#[test]
fn sync_on_unknown_scene_hides_content() {
    let engine = engine_with(vec![stored_curve(7)]);
    let mut scene = curve_selected(7);
    scene.scene = EntityRef::new(3, 1);
    assert_eq!(
        editor().sync_to_model(&scene, &engine),
        vec![EditorAction::ContentVisibility { content: CONTENT, visible: false }]
    );
}

#[test]
fn sync_on_player_without_animation_shows_content() {
    let engine = engine_with(vec![stored_curve(7)]);
    let scene = EditorScene::new(SCENE, Selection::Graph(GraphSelection::new(vec![PLAYER, PLAIN_NODE])));
    assert_eq!(
        editor().sync_to_model(&scene, &engine),
        vec![
            toolbar_sync(false),
            EditorAction::ContentVisibility { content: CONTENT, visible: true },
        ]
    );
}

#[test]
fn sync_ignores_curves_behind_the_first_entity() {
    let engine = engine_with(vec![stored_curve(7)]);
    let scene = EditorScene::new(
        SCENE,
        Selection::Animation(AnimationSelection::new(
            PLAYER,
            ANIMATION,
            vec![SelectedEntity::Track(50), SelectedEntity::Curve(7)],
        )),
    );
    assert_eq!(
        editor().sync_to_model(&scene, &engine),
        vec![
            toolbar_sync(true),
            EditorAction::TrackListSync {
                track_list: TRACK_LIST,
                items: vec![TrackListItem::Track(50), TrackListItem::Curve(7)],
            },
            EditorAction::ContentVisibility { content: CONTENT, visible: true },
        ]
    );
}

#[test]
fn sync_twice_gives_the_same_steps() {
    let engine = engine_with(vec![stored_curve(7), stored_curve(9)]);
    let scene = curve_selected(9);
    let mut e = editor();
    let first = e.sync_to_model(&scene, &engine);
    let second = e.sync_to_model(&scene, &engine);
    assert_eq!(first, second);
    assert_eq!(first.len(), 5);
}

#[test]
fn sync_never_submits_a_command() {
    let engine = engine_with(vec![stored_curve(7)]);
    let steps = editor().sync_to_model(&curve_selected(7), &engine);
    assert!(steps.iter().all(|s| !matches!(s, EditorAction::SubmitCommand(_))));
    let visible = steps
        .iter()
        .filter(|s| matches!(s, EditorAction::ContentVisibility { .. }))
        .count();
    assert_eq!(visible, 1);
}

#[test]
fn view_position_goes_to_the_ruler_only() {
    let engine = engine_with(vec![stored_curve(7)]);
    let message = from_curve_editor(CurveEditorMessage::ViewPosition(Vector2 {
        x: 42.0f32.to_bits(),
        y: 0.0f32.to_bits(),
    }));
    let mut e = editor();
    let steps = e.handle_ui_message(&message, Some(&curve_selected(7)), &engine);
    let mut expected = dispatch();
    expected.push(EditorAction::RulerViewPosition { ruler: RULER, position: 42.0f32.to_bits() });
    assert_eq!(steps, expected);
    assert!(steps.iter().all(|s| !matches!(s, EditorAction::SubmitCommand(_))));
    assert_eq!(e, editor());
}

#[test]
fn zoom_goes_to_the_ruler_only() {
    let engine = engine_with(vec![stored_curve(7)]);
    let message = from_curve_editor(CurveEditorMessage::Zoom(Vector2 {
        x: 2.5f32.to_bits(),
        y: 8.0f32.to_bits(),
    }));
    let steps = editor().handle_ui_message(&message, Some(&curve_selected(7)), &engine);
    let mut expected = dispatch();
    expected.push(EditorAction::RulerZoom { ruler: RULER, zoom: 2.5f32.to_bits() });
    assert_eq!(steps, expected);
}

#[test]
fn edited_curve_becomes_one_command() {
    let engine = engine_with(vec![stored_curve(7)]);
    let message = from_curve_editor(CurveEditorMessage::Sync(edited_curve(7)));
    let steps = editor().handle_ui_message(&message, Some(&curve_selected(7)), &engine);
    let mut expected = dispatch();
    expected.push(EditorAction::SubmitCommand(ReplaceTrackCurveCommand {
        animation_player: PLAYER,
        animation: ANIMATION,
        curve: edited_curve(7),
    }));
    assert_eq!(steps, expected);
    let commands = steps.iter().filter(|s| matches!(s, EditorAction::SubmitCommand(_))).count();
    assert_eq!(commands, 1);
    assert!(steps.iter().all(|s| !matches!(
        s,
        EditorAction::RulerViewPosition { .. }
            | EditorAction::RulerZoom { .. }
            | EditorAction::CurveEditorSync { .. }
            | EditorAction::CurveEditorZoomToFit { .. }
            | EditorAction::ContentVisibility { .. }
            | EditorAction::OpenWindow { .. }
    )));
}

#[test]
fn curve_comes_back_unchanged_through_the_widget() {
    let engine = engine_with(vec![stored_curve(7)]);
    let scene = curve_selected(7);
    let mut e = editor();
    let steps = e.sync_to_model(&scene, &engine);
    let pushed = steps
        .into_iter()
        .find_map(|s| match s {
            EditorAction::CurveEditorSync { curve, .. } => Some(curve),
            _ => None,
        })
        .unwrap();
    let report = from_curve_editor(CurveEditorMessage::Sync(pushed));
    let answer = e.handle_ui_message(&report, Some(&scene), &engine);
    assert_eq!(
        answer.last(),
        Some(&EditorAction::SubmitCommand(ReplaceTrackCurveCommand {
            animation_player: PLAYER,
            animation: ANIMATION,
            curve: stored_curve(7),
        }))
    );
}

#[test]
fn messages_to_the_curve_editor_are_not_relayed() {
    let engine = engine_with(vec![stored_curve(7)]);
    let message = UiMessage::new(
        CURVE_EDITOR,
        MessageDirection::ToWidget,
        Some(CurveEditorMessage::Sync(edited_curve(7))),
    );
    let steps = editor().handle_ui_message(&message, Some(&curve_selected(7)), &engine);
    assert_eq!(steps, dispatch());
}

#[test]
fn messages_of_other_widgets_are_not_relayed() {
    let engine = engine_with(vec![stored_curve(7)]);
    let message = UiMessage::new(
        RULER,
        MessageDirection::FromWidget,
        Some(CurveEditorMessage::Zoom(Vector2 { x: 1, y: 1 })),
    );
    let steps = editor().handle_ui_message(&message, Some(&curve_selected(7)), &engine);
    assert_eq!(steps, dispatch());
}

#[test]
fn other_payloads_are_dispatched_but_not_relayed() {
    let engine = engine_with(vec![stored_curve(7)]);
    let scene = curve_selected(7);
    let plain = UiMessage::new(CURVE_EDITOR, MessageDirection::FromWidget, None);
    assert_eq!(editor().handle_ui_message(&plain, Some(&scene), &engine), dispatch());
    let fit = from_curve_editor(CurveEditorMessage::ZoomToFit);
    assert_eq!(editor().handle_ui_message(&fit, Some(&scene), &engine), dispatch());
    let other = from_curve_editor(CurveEditorMessage::Other);
    assert_eq!(editor().handle_ui_message(&other, Some(&scene), &engine), dispatch());
}

#[test]
fn message_without_scene_does_nothing() {
    let engine = engine_with(vec![stored_curve(7)]);
    let message = from_curve_editor(CurveEditorMessage::Sync(edited_curve(7)));
    assert_eq!(editor().handle_ui_message(&message, None, &engine), vec![]);
}

#[test]
fn message_without_player_does_nothing() {
    let engine = engine_with(vec![stored_curve(7)]);
    let message = from_curve_editor(CurveEditorMessage::Sync(edited_curve(7)));
    let nothing = EditorScene::new(SCENE, Selection::Empty);
    assert_eq!(editor().handle_ui_message(&message, Some(&nothing), &engine), vec![]);
    let plain = EditorScene::new(SCENE, Selection::Graph(GraphSelection::new(vec![PLAIN_NODE])));
    assert_eq!(editor().handle_ui_message(&message, Some(&plain), &engine), vec![]);
}

#[test]
fn message_on_player_alone_carries_null_animation() {
    let engine = engine_with(vec![stored_curve(7)]);
    let message = from_curve_editor(CurveEditorMessage::Sync(edited_curve(7)));
    let scene = EditorScene::new(SCENE, Selection::Graph(GraphSelection::new(vec![PLAYER])));
    assert_eq!(
        editor().handle_ui_message(&message, Some(&scene), &engine),
        vec![
            EditorAction::ToolbarHandleMessage {
                animation_player: PLAYER,
                animation: EntityRef::none(),
            },
            EditorAction::TrackListHandleMessage {
                animation_player: PLAYER,
                animation: EntityRef::none(),
            },
            EditorAction::SubmitCommand(ReplaceTrackCurveCommand {
                animation_player: PLAYER,
                animation: EntityRef::none(),
                curve: edited_curve(7),
            }),
        ]
    );
}
