//! The scene side of the model: nodes that may carry an animation player,
//! the graph and the scenes that hold them.

use vstd::prelude::*;
use crate::animation::AnimationPlayer;
use crate::handle::EntityRef;
use crate::pool::Pool;
use crate::selection::Selection;

verus! {

/// A node of the scene graph. Of all a node can be, the animation editor
/// asks one thing: whether it is an animation player.
pub struct Node {
    pub animation_player: Option<AnimationPlayer>,
}

/// The scene graph.
pub struct Graph {
    pub nodes: Pool<Node>,
}

/// A scene.
pub struct Scene {
    pub graph: Graph,
}

/// The scenes that are loaded.
pub struct Engine {
    pub scenes: Pool<Scene>,
}

/// The scene that is being edited and what is selected in it.
pub struct EditorScene {
    pub scene: EntityRef,
    pub selection: Selection,
}

impl Node {
    pub fn new(animation_player: Option<AnimationPlayer>) -> (r: Node)
        ensures
            r.animation_player == animation_player,
    {
        Node { animation_player }
    }
}

impl Graph {
    pub fn new(nodes: Pool<Node>) -> (r: Graph)
        ensures
            r.nodes == nodes,
    {
        Graph { nodes }
    }

    /// The animation player that the node behind `node` is: nothing where
    /// the reference resolves to no node, and nothing where the node is no
    /// player.
    pub open spec fn spec_animation_player(&self, node: EntityRef) -> Option<AnimationPlayer> {
        match self.nodes.spec_try_get(node) {
            Some(n) => n.animation_player,
            None => None,
        }
    }

    /// Looks up the node and asks it for its animation player.
    pub fn animation_player(&self, node: EntityRef) -> (r: Option<&AnimationPlayer>)
        ensures
            r.is_some() == self.spec_animation_player(node).is_some(),
            r.is_some() ==> *r.unwrap() == self.spec_animation_player(node).unwrap(),
    {
        match self.nodes.try_get(node) {
            Some(n) => n.animation_player.as_ref(),
            None => None,
        }
    }
}

impl Scene {
    pub fn new(graph: Graph) -> (r: Scene)
        ensures
            r.graph == graph,
    {
        Scene { graph }
    }
}

impl Engine {
    pub fn new(scenes: Pool<Scene>) -> (r: Engine)
        ensures
            r.scenes == scenes,
    {
        Engine { scenes }
    }

    /// Whether `scene` is a loaded scene.
    pub open spec fn spec_has_scene(&self, scene: EntityRef) -> bool {
        self.scenes.spec_is_valid(scene)
    }

    /// The animation player behind `node` in the scene behind `scene`.
    pub open spec fn spec_animation_player(&self, scene: EntityRef, node: EntityRef) -> Option<
        AnimationPlayer,
    > {
        match self.scenes.spec_try_get(scene) {
            Some(s) => s.graph.spec_animation_player(node),
            None => None,
        }
    }

    /// Looks up the scene, then the node in its graph, and asks the node for
    /// its animation player.
    pub fn animation_player(&self, scene: EntityRef, node: EntityRef) -> (r: Option<
        &AnimationPlayer,
    >)
        ensures
            r.is_some() == self.spec_animation_player(scene, node).is_some(),
            r.is_some() ==> *r.unwrap() == self.spec_animation_player(scene, node).unwrap(),
    {
        match self.scenes.try_get(scene) {
            Some(s) => s.graph.animation_player(node),
            None => None,
        }
    }

    /// Whether `scene` is a loaded scene.
    pub fn has_scene(&self, scene: EntityRef) -> (r: bool)
        ensures
            r == self.spec_has_scene(scene),
    {
        self.scenes.is_valid_handle(scene)
    }
}

impl EditorScene {
    pub fn new(scene: EntityRef, selection: Selection) -> (r: EditorScene)
        ensures
            r.scene == scene,
            r.selection == selection,
    {
        EditorScene { scene, selection }
    }
}

} // verus!
