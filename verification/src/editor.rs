//! The animation editor: the widgets it addresses and its entry points.
//!
//! An entry point reads the selection once, looks for the animation player
//! behind it, and answers with the steps for the host. Messages from the
//! widgets may end in a command; a pass from the model to the widgets never
//! does.

use vstd::prelude::*;
use crate::animation::Animation;
use crate::curve::CurveModel;
use crate::handle::WidgetRef;
use crate::message::{
    action_views, push_action, CurveEditorMessage, CurveEditorMessageModel, EditorAction,
    EditorActionModel, MessageDirection, ReplaceTrackCurveCommand, ReplaceTrackCurveCommandModel,
    UiMessage, UiMessageModel,
};
use crate::scene::{EditorScene, Engine};
use crate::selection::{fetch_selection, AnimationSelection, AnimationSelectionModel};
use crate::toolbar::Toolbar;
use crate::track_list::TrackList;

verus! {

/// The animation editor. It holds references to its widgets and nothing
/// else: what is selected and what the model holds is read anew on every
/// call.
#[derive(Clone, Copy, Debug, PartialEq, Eq, Structural)]
pub struct AnimationEditor {
    pub window: WidgetRef,
    pub track_list: TrackList,
    pub curve_editor: WidgetRef,
    pub toolbar: Toolbar,
    pub content: WidgetRef,
    pub ruler: WidgetRef,
}

impl AnimationEditor {
    /// An editor over widgets that the host has built.
    pub fn new(
        window: WidgetRef,
        content: WidgetRef,
        toolbar: Toolbar,
        track_list: TrackList,
        ruler: WidgetRef,
        curve_editor: WidgetRef,
    ) -> (r: AnimationEditor)
        ensures
            r == (AnimationEditor { window, track_list, curve_editor, toolbar, content, ruler }),
    {
        AnimationEditor { window, track_list, curve_editor, toolbar, content, ruler }
    }

    /// The step that shows the window, centered.
    pub open spec fn spec_open(&self) -> EditorActionModel {
        EditorActionModel::OpenWindow { window: self.window, center: true }
    }

    /// Shows the window. Nothing is resolved and nothing is synchronised.
    pub fn open(&self) -> (r: EditorAction)
        ensures
            r@ == self.spec_open(),
    {
        EditorAction::OpenWindow { window: self.window, center: true }
    }

    /// Whether `message` is one that the curve editor of this editor sent.
    pub open spec fn spec_from_curve_editor(&self, message: UiMessageModel) -> bool {
        message.destination == self.curve_editor && message.direction
            == MessageDirection::FromWidget
    }

    /// What follows from a message for the curve editor's side: an edited
    /// curve becomes one command; a move or a scaling of the viewport is
    /// passed to the ruler, by its horizontal coordinate; anything else is
    /// nothing.
    pub open spec fn spec_relay(
        &self,
        message: UiMessageModel,
        selection: AnimationSelectionModel,
    ) -> Seq<EditorActionModel> {
        if self.spec_from_curve_editor(message) {
            match message.data {
                Some(CurveEditorMessageModel::Sync(curve)) => seq![
                    EditorActionModel::SubmitCommand(
                        ReplaceTrackCurveCommandModel {
                            animation_player: selection.animation_player,
                            animation: selection.animation,
                            curve,
                        },
                    ),
                ],
                Some(CurveEditorMessageModel::ViewPosition(position)) => seq![
                    EditorActionModel::RulerViewPosition { ruler: self.ruler, position: position.x },
                ],
                Some(CurveEditorMessageModel::Zoom(zoom)) => seq![
                    EditorActionModel::RulerZoom { ruler: self.ruler, zoom: zoom.x },
                ],
                _ => Seq::empty(),
            }
        } else {
            Seq::empty()
        }
    }

    /// The steps that answer a message. Without an edited scene, or where
    /// the selected player is no animation player, there are none. Else the
    /// toolbar gets the message, then the track list, then the curve
    /// editor's side.
    pub open spec fn spec_handle_ui_message(
        &self,
        message: UiMessageModel,
        editor_scene: Option<&EditorScene>,
        engine: &Engine,
    ) -> Seq<EditorActionModel> {
        match editor_scene {
            Some(scene) => {
                let selection = scene.selection.spec_resolve();
                if engine.spec_animation_player(scene.scene, selection.animation_player).is_some() {
                    seq![
                        EditorActionModel::ToolbarHandleMessage {
                            animation_player: selection.animation_player,
                            animation: selection.animation,
                        },
                        EditorActionModel::TrackListHandleMessage {
                            animation_player: selection.animation_player,
                            animation: selection.animation,
                        },
                    ] + self.spec_relay(message, selection)
                } else {
                    Seq::empty()
                }
            },
            None => Seq::empty(),
        }
    }

    /// The steps that put the selected curve into the curve editor: where
    /// the first selected entity is a curve that `animation` holds, the
    /// curve and then the request to frame it; else nothing.
    pub open spec fn spec_curve_sync(
        &self,
        selection: AnimationSelectionModel,
        animation: Animation,
    ) -> Seq<EditorActionModel> {
        match selection.first_curve() {
            Some(id) => match animation.spec_find_curve(id) {
                Some(curve) => seq![
                    EditorActionModel::CurveEditorSync { curve_editor: self.curve_editor, curve },
                    EditorActionModel::CurveEditorZoomToFit { curve_editor: self.curve_editor },
                ],
                None => Seq::empty(),
            },
            None => Seq::empty(),
        }
    }

    /// The steps of a pass from the model to the widgets. Where the
    /// selected player is an animation player: the toolbar; where the
    /// selected animation is one of the player's, the track list and the
    /// curve editor; then the content panel is shown. Where it is none, the
    /// content panel is hidden and nothing else happens.
    pub open spec fn spec_sync_to_model(
        &self,
        editor_scene: &EditorScene,
        engine: &Engine,
    ) -> Seq<EditorActionModel> {
        let selection = editor_scene.selection.spec_resolve();
        match engine.spec_animation_player(editor_scene.scene, selection.animation_player) {
            Some(player) => seq![
                EditorActionModel::ToolbarSync {
                    animation_player: selection.animation_player,
                    animation: selection.animation,
                    controls_enabled: Toolbar::spec_controls_enabled(selection),
                },
            ] + (match player.animations.spec_try_get(selection.animation) {
                Some(animation) => seq![
                    EditorActionModel::TrackListSync {
                        track_list: self.track_list.panel,
                        items: TrackList::spec_items(animation),
                    },
                ] + self.spec_curve_sync(selection, animation),
                None => Seq::empty(),
            }) + seq![EditorActionModel::ContentVisibility { content: self.content, visible: true }],
            None => seq![
                EditorActionModel::ContentVisibility { content: self.content, visible: false },
            ],
        }
    }

    /// The editor after a pass from the model to the widgets: the editor
    /// before it. A pass keeps no count and flips no switch.
    pub open spec fn spec_after_sync(
        &self,
        editor_scene: &EditorScene,
        engine: &Engine,
    ) -> AnimationEditor {
        *self
    }

    /// Appends to `actions` what follows from `message` for the curve
    /// editor's side.
    pub fn relay_curve_editor_message(
        &self,
        message: &UiMessage,
        selection: &AnimationSelection,
        actions: &mut Vec<EditorAction>,
    )
        ensures
            action_views(final(actions)@) == action_views(old(actions)@) + self.spec_relay(
                message@,
                selection@,
            ),
    {
        let ghost before = action_views(actions@);
        if message.destination == self.curve_editor && message.direction
            == MessageDirection::FromWidget {
            match &message.data {
                Some(CurveEditorMessage::Sync(curve)) => {
                    push_action(
                        actions,
                        EditorAction::SubmitCommand(
                            ReplaceTrackCurveCommand {
                                animation_player: selection.animation_player,
                                animation: selection.animation,
                                curve: curve.clone(),
                            },
                        ),
                    );
                },
                Some(CurveEditorMessage::ViewPosition(position)) => {
                    push_action(
                        actions,
                        EditorAction::RulerViewPosition { ruler: self.ruler, position: position.x },
                    );
                },
                Some(CurveEditorMessage::Zoom(zoom)) => {
                    push_action(actions, EditorAction::RulerZoom { ruler: self.ruler, zoom: zoom.x });
                },
                _ => {},
            }
        }
        assert(action_views(actions@) =~= before + self.spec_relay(message@, selection@));
    }

    /// Answers a message of the user interface with the steps for the host,
    /// in the order in which they are to be performed. The editor itself
    /// stays as it was.
    pub fn handle_ui_message(
        &mut self,
        message: &UiMessage,
        editor_scene: Option<&EditorScene>,
        engine: &Engine,
    ) -> (r: Vec<EditorAction>)
        ensures
            *final(self) == *old(self),
            action_views(r@) == old(self).spec_handle_ui_message(message@, editor_scene, engine),
            editor_scene.is_none() ==> r@.len() == 0,
            r@.len() <= 3,
            forall|i: int|
                0 <= i < r@.len() && (#[trigger] r@[i])@.is_command() ==> i == r@.len() - 1,
    {
        let mut actions: Vec<EditorAction> = Vec::new();
        assert(action_views(actions@) =~= Seq::empty());
        if let Some(scene) = editor_scene {
            let selection = fetch_selection(&scene.selection);
            if engine.animation_player(scene.scene, selection.animation_player).is_some() {
                push_action(
                    &mut actions,
                    EditorAction::ToolbarHandleMessage {
                        animation_player: selection.animation_player,
                        animation: selection.animation,
                    },
                );
                push_action(
                    &mut actions,
                    EditorAction::TrackListHandleMessage {
                        animation_player: selection.animation_player,
                        animation: selection.animation,
                    },
                );
                self.relay_curve_editor_message(message, &selection, &mut actions);
                assert(action_views(actions@) =~= self.spec_handle_ui_message(
                    message@,
                    editor_scene,
                    engine,
                ));
            }
        }
        proof {
            assert(actions@.len() == action_views(actions@).len());
            assert(forall|i: int|
                0 <= i < actions@.len() ==> (#[trigger] actions@[i])@ == action_views(actions@)[i]);
        }
        actions
    }

    /// Appends to `actions` the steps that put the selected curve of
    /// `animation` into the curve editor.
    pub fn sync_curve_editor(
        &self,
        selection: &AnimationSelection,
        animation: &Animation,
        actions: &mut Vec<EditorAction>,
    )
        ensures
            action_views(final(actions)@) == action_views(old(actions)@) + self.spec_curve_sync(
                selection@,
                *animation,
            ),
    {
        let ghost before = action_views(actions@);
        if let Some(id) = selection.first_curve() {
            if let Some(curve) = animation.find_curve(id) {
                push_action(
                    actions,
                    EditorAction::CurveEditorSync {
                        curve_editor: self.curve_editor,
                        curve: curve.clone(),
                    },
                );
                push_action(
                    actions,
                    EditorAction::CurveEditorZoomToFit { curve_editor: self.curve_editor },
                );
            }
        }
        assert(action_views(actions@) =~= before + self.spec_curve_sync(selection@, *animation));
    }

    /// Brings the widgets in line with the model: answers with the steps
    /// for the host, in the order in which they are to be performed. No step
    /// is a command, and the editor itself stays as it was.
    pub fn sync_to_model(&mut self, editor_scene: &EditorScene, engine: &Engine) -> (r: Vec<
        EditorAction,
    >)
        ensures
            *final(self) == old(self).spec_after_sync(editor_scene, engine),
            action_views(r@) == old(self).spec_sync_to_model(editor_scene, engine),
            r@.len() >= 1,
            r@.last()@ == (EditorActionModel::ContentVisibility {
                content: old(self).content,
                visible: engine.spec_animation_player(
                    editor_scene.scene,
                    editor_scene.selection.spec_resolve().animation_player,
                ).is_some(),
            }),
            forall|i: int| 0 <= i < r@.len() - 1 ==> !(#[trigger] r@[i])@.is_visibility(),
            forall|i: int| 0 <= i < r@.len() ==> !(#[trigger] r@[i])@.is_command(),
    {
        let mut actions: Vec<EditorAction> = Vec::new();
        assert(action_views(actions@) =~= Seq::empty());
        let selection = fetch_selection(&editor_scene.selection);
        match engine.animation_player(editor_scene.scene, selection.animation_player) {
            Some(player) => {
                push_action(
                    &mut actions,
                    EditorAction::ToolbarSync {
                        animation_player: selection.animation_player,
                        animation: selection.animation,
                        controls_enabled: self.toolbar.controls_enabled(&selection),
                    },
                );
                if let Some(animation) = player.animations.try_get(selection.animation) {
                    push_action(
                        &mut actions,
                        EditorAction::TrackListSync {
                            track_list: self.track_list.panel,
                            items: self.track_list.items(animation),
                        },
                    );
                    self.sync_curve_editor(&selection, animation, &mut actions);
                }
                push_action(
                    &mut actions,
                    EditorAction::ContentVisibility { content: self.content, visible: true },
                );
            },
            None => {
                push_action(
                    &mut actions,
                    EditorAction::ContentVisibility { content: self.content, visible: false },
                );
            },
        }
        assert(action_views(actions@) =~= self.spec_sync_to_model(editor_scene, engine));
        proof {
            self.lemma_sync_sets_visibility(editor_scene, engine);
            self.lemma_sync_submits_nothing(editor_scene, engine);
            assert(actions@.len() == action_views(actions@).len());
            assert(forall|i: int|
                0 <= i < actions@.len() ==> (#[trigger] actions@[i])@ == action_views(actions@)[i]);
        }
        actions
    }

    /// A second pass over an unchanged model gives the steps of the first.
    pub proof fn lemma_sync_repeats(&self, editor_scene: &EditorScene, engine: &Engine)
        ensures
            self.spec_after_sync(editor_scene, engine).spec_sync_to_model(editor_scene, engine)
                == self.spec_sync_to_model(editor_scene, engine),
            self.spec_after_sync(editor_scene, engine).spec_after_sync(editor_scene, engine)
                == self.spec_after_sync(editor_scene, engine),
    {
    }

    /// A pass ends by showing the content panel where the selected player
    /// is an animation player, and by hiding it where it is none; no
    /// earlier step touches the panel.
    pub proof fn lemma_sync_sets_visibility(&self, editor_scene: &EditorScene, engine: &Engine)
        ensures
            ({
                let steps = self.spec_sync_to_model(editor_scene, engine);
                let selection = editor_scene.selection.spec_resolve();
                &&& steps.len() >= 1
                &&& steps.last() == (EditorActionModel::ContentVisibility {
                    content: self.content,
                    visible: engine.spec_animation_player(
                        editor_scene.scene,
                        selection.animation_player,
                    ).is_some(),
                })
                &&& forall|i: int| 0 <= i < steps.len() - 1 ==> !(#[trigger] steps[i]).is_visibility()
            }),
    {
    }

    /// Where the selected player is no animation player, hiding the content
    /// panel is all that a pass does.
    pub proof fn lemma_sync_without_player(&self, editor_scene: &EditorScene, engine: &Engine)
        requires
            engine.spec_animation_player(
                editor_scene.scene,
                editor_scene.selection.spec_resolve().animation_player,
            ).is_none(),
        ensures
            self.spec_sync_to_model(editor_scene, engine) == seq![
                EditorActionModel::ContentVisibility { content: self.content, visible: false },
            ],
    {
    }

    /// A pass from the model to the widgets submits no command.
    pub proof fn lemma_sync_submits_nothing(&self, editor_scene: &EditorScene, engine: &Engine)
        ensures
            forall|i: int|
                0 <= i < self.spec_sync_to_model(editor_scene, engine).len() ==> !(
                #[trigger] self.spec_sync_to_model(editor_scene, engine)[i]).is_command(),
    {
    }

    /// The curve editor gets messages in a pass only where the first
    /// selected entity is a curve.
    pub proof fn lemma_sync_needs_selected_curve(&self, editor_scene: &EditorScene, engine: &Engine)
        requires
            editor_scene.selection.spec_resolve().first_curve().is_none(),
        ensures
            forall|i: int|
                0 <= i < self.spec_sync_to_model(editor_scene, engine).len() ==> !(
                #[trigger] self.spec_sync_to_model(
                    editor_scene,
                    engine,
                )[i]).is_curve_editor_update(),
    {
    }

    /// A message leads to at most one step on the curve editor's side, so to
    /// at most one command, and a command comes with no message to a
    /// widget.
    pub proof fn lemma_relay_is_single(
        &self,
        message: UiMessageModel,
        selection: AnimationSelectionModel,
    )
        ensures
            self.spec_relay(message, selection).len() <= 1,
            !self.spec_from_curve_editor(message) ==> self.spec_relay(message, selection).len() == 0,
    {
    }

    /// A curve that a pass puts into the curve editor and that the curve
    /// editor reports back as it got it ends in a command that holds this
    /// very curve, for the selected player and animation.
    pub proof fn lemma_curve_round_trip(
        &self,
        editor_scene: &EditorScene,
        engine: &Engine,
        i: int,
        curve: CurveModel,
    )
        requires
            0 <= i < self.spec_sync_to_model(editor_scene, engine).len(),
            self.spec_sync_to_model(editor_scene, engine)[i] == (EditorActionModel::CurveEditorSync {
                curve_editor: self.curve_editor,
                curve,
            }),
        ensures
            ({
                let selection = editor_scene.selection.spec_resolve();
                let report = UiMessageModel {
                    destination: self.curve_editor,
                    direction: MessageDirection::FromWidget,
                    data: Some(CurveEditorMessageModel::Sync(curve)),
                };
                self.spec_after_sync(editor_scene, engine).spec_handle_ui_message(
                    report,
                    Some(editor_scene),
                    engine,
                ) == seq![
                    EditorActionModel::ToolbarHandleMessage {
                        animation_player: selection.animation_player,
                        animation: selection.animation,
                    },
                    EditorActionModel::TrackListHandleMessage {
                        animation_player: selection.animation_player,
                        animation: selection.animation,
                    },
                    EditorActionModel::SubmitCommand(
                        ReplaceTrackCurveCommandModel {
                            animation_player: selection.animation_player,
                            animation: selection.animation,
                            curve,
                        },
                    ),
                ]
            }),
    {
        let selection = editor_scene.selection.spec_resolve();
        let report = UiMessageModel {
            destination: self.curve_editor,
            direction: MessageDirection::FromWidget,
            data: Some(CurveEditorMessageModel::Sync(curve)),
        };
        assert(engine.spec_animation_player(
            editor_scene.scene,
            selection.animation_player,
        ).is_some());
        assert(self.spec_handle_ui_message(report, Some(editor_scene), engine) =~= seq![
            EditorActionModel::ToolbarHandleMessage {
                animation_player: selection.animation_player,
                animation: selection.animation,
            },
            EditorActionModel::TrackListHandleMessage {
                animation_player: selection.animation_player,
                animation: selection.animation,
            },
            EditorActionModel::SubmitCommand(
                ReplaceTrackCurveCommandModel {
                    animation_player: selection.animation_player,
                    animation: selection.animation,
                    curve,
                },
            ),
        ]);
    }
}

} // verus!
