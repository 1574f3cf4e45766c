//! What is selected in the editor, and what of it the animation editor sees.

use vstd::prelude::*;
use crate::handle::EntityRef;

verus! {

/// One selected part of an animation.
#[derive(Clone, Copy, Debug, PartialEq, Eq, Structural)]
pub enum SelectedEntity {
    Track(u128),
    Curve(u128),
    Keyframe(u128),
}

/// The selection as the animation editor works with it: a player, one of its
/// animations, and the selected parts of that animation. Any of the two
/// references may be null.
#[derive(Debug, PartialEq, Eq)]
pub struct AnimationSelection {
    pub animation_player: EntityRef,
    pub animation: EntityRef,
    pub entities: Vec<SelectedEntity>,
}

/// What an [`AnimationSelection`] holds, as mathematical values.
pub ghost struct AnimationSelectionModel {
    pub animation_player: EntityRef,
    pub animation: EntityRef,
    pub entities: Seq<SelectedEntity>,
}

impl AnimationSelectionModel {
    /// The selection of nothing.
    pub open spec fn empty() -> AnimationSelectionModel {
        AnimationSelectionModel {
            animation_player: EntityRef::spec_none(),
            animation: EntityRef::spec_none(),
            entities: Seq::empty(),
        }
    }

    /// The selection of a player alone.
    pub open spec fn player_only(animation_player: EntityRef) -> AnimationSelectionModel {
        AnimationSelectionModel {
            animation_player,
            animation: EntityRef::spec_none(),
            entities: Seq::empty(),
        }
    }

    /// Without an animation nothing of an animation is selected.
    pub open spec fn wf(&self) -> bool {
        self.animation.spec_is_none() ==> self.entities.len() == 0
    }

    /// The curve that drives the curve editor: the one named by the first
    /// selected entity, if that is a curve.
    pub open spec fn first_curve(&self) -> Option<u128> {
        if self.entities.len() > 0 {
            match self.entities[0] {
                SelectedEntity::Curve(id) => Some(id),
                _ => None,
            }
        } else {
            None
        }
    }
}

impl View for AnimationSelection {
    type V = AnimationSelectionModel;

    open spec fn view(&self) -> AnimationSelectionModel {
        AnimationSelectionModel {
            animation_player: self.animation_player,
            animation: self.animation,
            entities: self.entities@,
        }
    }
}

impl Clone for AnimationSelection {
    fn clone(&self) -> (r: AnimationSelection)
        ensures
            r@ == self@,
    {
        let mut entities: Vec<SelectedEntity> = Vec::new();
        let mut i: usize = 0;
        while i < self.entities.len()
            invariant
                i <= self.entities@.len(),
                entities@ == self.entities@.take(i as int),
            decreases self.entities@.len() - i,
        {
            entities.push(self.entities[i]);
            i = i + 1;
            assert(entities@ =~= self.entities@.take(i as int));
        }
        assert(entities@ =~= self.entities@);
        AnimationSelection {
            animation_player: self.animation_player,
            animation: self.animation,
            entities,
        }
    }
}

impl AnimationSelection {
    pub fn new(animation_player: EntityRef, animation: EntityRef, entities: Vec<SelectedEntity>) -> (r:
        AnimationSelection)
        ensures
            r@ == (AnimationSelectionModel { animation_player, animation, entities: entities@ }),
    {
        AnimationSelection { animation_player, animation, entities }
    }

    /// The identity of the curve named by the first selected entity, if that
    /// entity is a curve.
    pub fn first_curve(&self) -> (r: Option<u128>)
        ensures
            r == self@.first_curve(),
    {
        if self.entities.len() > 0 {
            match self.entities[0] {
                SelectedEntity::Curve(id) => Some(id),
                _ => None,
            }
        } else {
            None
        }
    }
}

/// A selection of nodes of the scene graph, in the order they were selected.
#[derive(Debug, PartialEq, Eq)]
pub struct GraphSelection {
    pub nodes: Vec<EntityRef>,
}

impl GraphSelection {
    pub fn new(nodes: Vec<EntityRef>) -> (r: GraphSelection)
        ensures
            r.nodes@ == nodes@,
    {
        GraphSelection { nodes }
    }
}

/// The selection of the whole editor. The animation editor understands two
/// kinds of it; every other kind is `Other` to it.
#[derive(Debug, PartialEq, Eq)]
pub enum Selection {
    Empty,
    Graph(GraphSelection),
    Animation(AnimationSelection),
    Other,
}

impl Selection {
    /// An animation selection inside obeys the rule of
    /// [`AnimationSelectionModel::wf`].
    pub open spec fn wf(&self) -> bool {
        match self {
            Selection::Animation(s) => s@.wf(),
            _ => true,
        }
    }

    /// The animation selection that this selection stands for: an animation
    /// selection stands for itself, a graph selection for its first node as
    /// the player, everything else for nothing.
    pub open spec fn spec_resolve(&self) -> AnimationSelectionModel {
        match self {
            Selection::Animation(s) => s@,
            Selection::Graph(g) => if g.nodes@.len() > 0 {
                AnimationSelectionModel::player_only(g.nodes@[0])
            } else {
                AnimationSelectionModel::empty()
            },
            _ => AnimationSelectionModel::empty(),
        }
    }
}

/// Reads the editor's selection as an animation selection. Every kind of
/// selection has an answer.
pub fn fetch_selection(editor_selection: &Selection) -> (r: AnimationSelection)
    ensures
        r@ == editor_selection.spec_resolve(),
        editor_selection.wf() ==> r@.wf(),
        match editor_selection {
            Selection::Animation(s) => r@ == s@,
            Selection::Graph(g) => g.nodes@.len() > 0 ==> r@ == AnimationSelectionModel::player_only(
                g.nodes@[0],
            ),
            _ => r@ == AnimationSelectionModel::empty(),
        },
{
    match editor_selection {
        Selection::Animation(selection) => selection.clone(),
        Selection::Graph(selection) => {
            let animation_player = if selection.nodes.len() > 0 {
                selection.nodes[0]
            } else {
                EntityRef::none()
            };
            AnimationSelection {
                animation_player,
                animation: EntityRef::none(),
                entities: Vec::new(),
            }
        },
        _ => AnimationSelection {
            animation_player: EntityRef::none(),
            animation: EntityRef::none(),
            entities: Vec::new(),
        },
    }
}

} // verus!
