//! Curves and the keyframes they are made of.

use vstd::prelude::*;

verus! {

/// How a curve runs from one keyframe to the next. The tangents of a cubic
/// segment are kept as the bit patterns of single-precision numbers.
#[derive(Clone, Copy, Debug, PartialEq, Eq, Structural)]
pub enum KeyKind {
    Constant,
    Linear,
    Cubic { left_tangent: u32, right_tangent: u32 },
}

/// A sample of a curve. `location` and `value` are the bit patterns of
/// single-precision numbers: the controller carries keyframes around and
/// compares them bit for bit, it never computes with them.
#[derive(Clone, Copy, Debug, PartialEq, Eq, Structural)]
pub struct Keyframe {
    pub id: u128,
    pub location: u32,
    pub value: u32,
    pub kind: KeyKind,
}

/// A curve: an identity, a name, and its keyframes in order.
#[derive(Debug, PartialEq, Eq)]
pub struct Curve {
    pub id: u128,
    pub name: String,
    pub keys: Vec<Keyframe>,
}

/// What a [`Curve`] holds, as mathematical values.
pub ghost struct CurveModel {
    pub id: u128,
    pub name: Seq<char>,
    pub keys: Seq<Keyframe>,
}

impl View for Curve {
    type V = CurveModel;

    open spec fn view(&self) -> CurveModel {
        CurveModel { id: self.id, name: self.name@, keys: self.keys@ }
    }
}

impl Clone for Curve {
    /// A full copy: same identity, same name, the same keyframes in the same
    /// order.
    fn clone(&self) -> (r: Curve)
        ensures
            r@ == self@,
    {
        let mut keys: Vec<Keyframe> = Vec::new();
        let mut i: usize = 0;
        while i < self.keys.len()
            invariant
                i <= self.keys@.len(),
                keys@ == self.keys@.take(i as int),
            decreases self.keys@.len() - i,
        {
            keys.push(self.keys[i]);
            i = i + 1;
            assert(keys@ =~= self.keys@.take(i as int));
        }
        assert(keys@ =~= self.keys@);
        Curve { id: self.id, name: self.name.clone(), keys }
    }
}

impl Curve {
    pub fn new(id: u128, name: String, keys: Vec<Keyframe>) -> (r: Curve)
        ensures
            r@ == (CurveModel { id, name: name@, keys: keys@ }),
    {
        Curve { id, name, keys }
    }

    pub fn id(&self) -> (r: u128)
        ensures
            r == self@.id,
    {
        self.id
    }

    pub fn keys(&self) -> (r: &Vec<Keyframe>)
        ensures
            r@ == self@.keys,
    {
        &self.keys
    }

    /// Whether two curves hold the same identity, name and keyframes.
    pub fn same_as(&self, other: &Curve) -> (r: bool)
        ensures
            r == (self@ == other@),
    {
        if self.id != other.id || self.name != other.name || self.keys.len() != other.keys.len() {
            assert(self.keys@.len() != other.keys@.len() ==> self.keys@ != other.keys@);
            return false;
        }
        let mut i: usize = 0;
        while i < self.keys.len()
            invariant
                i <= self.keys@.len(),
                self.keys@.len() == other.keys@.len(),
                forall|j: int| 0 <= j < i ==> self.keys@[j] == other.keys@[j],
            decreases self.keys@.len() - i,
        {
            if self.keys[i] != other.keys[i] {
                return false;
            }
            i = i + 1;
        }
        assert(self.keys@ =~= other.keys@);
        true
    }
}

} // verus!
