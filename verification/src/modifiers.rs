use vstd::prelude::*;

verus! {

/// A set of named keyboard modifiers, reported alongside every key event.
///
/// The session reports SHIFT, CTRL, ALT and SUPER.  Two distinct physical
/// modifiers (the "logo" modifier `Mod4` and the additional `Mod3`) are
/// both folded into SUPER when the set is computed from the live state.
#[derive(Clone, Copy, Debug, PartialEq, Eq, Structural)]
pub struct ModifierSet {
    pub shift: bool,
    pub ctrl: bool,
    pub alt: bool,
    pub sup: bool,
}

impl ModifierSet {
    /// The empty modifier set.
    pub open spec fn spec_empty() -> ModifierSet {
        ModifierSet { shift: false, ctrl: false, alt: false, sup: false }
    }

    /// The empty modifier set.
    pub fn empty() -> (r: ModifierSet)
        ensures
            r == ModifierSet::spec_empty(),
    {
        ModifierSet { shift: false, ctrl: false, alt: false, sup: false }
    }

    /// The same set with SHIFT removed and every other member kept.
    pub open spec fn spec_without_shift(self) -> ModifierSet {
        ModifierSet { shift: false, ..self }
    }

    /// The same set with SHIFT removed and every other member kept.
    pub fn without_shift(self) -> (r: ModifierSet)
        ensures
            r == self.spec_without_shift(),
    {
        ModifierSet { shift: false, ctrl: self.ctrl, alt: self.alt, sup: self.sup }
    }

}

impl Default for ModifierSet {
    /// A fresh modifier set holds nothing.
    fn default() -> (r: ModifierSet)
        ensures
            r == ModifierSet::spec_empty(),
    {
        ModifierSet { shift: false, ctrl: false, alt: false, sup: false }
    }
}

} // verus!
