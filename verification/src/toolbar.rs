//! The toolbar of the animation editor.

use vstd::prelude::*;
use crate::handle::WidgetRef;
use crate::selection::{AnimationSelection, AnimationSelectionModel};

verus! {

/// The toolbar: the panel that holds the playback and track controls.
#[derive(Clone, Copy, Debug, PartialEq, Eq, Structural)]
pub struct Toolbar {
    pub panel: WidgetRef,
}

impl Toolbar {
    pub fn new(panel: WidgetRef) -> (r: Toolbar)
        ensures
            r.panel == panel,
    {
        Toolbar { panel }
    }

    /// The controls are switched on where an animation is selected.
    pub open spec fn spec_controls_enabled(selection: AnimationSelectionModel) -> bool {
        !selection.animation.spec_is_none()
    }

    /// Whether the controls are to be switched on for `selection`.
    pub fn controls_enabled(&self, selection: &AnimationSelection) -> (r: bool)
        ensures
            r == Toolbar::spec_controls_enabled(selection@),
    {
        selection.animation.is_some()
    }
}

} // verus!
