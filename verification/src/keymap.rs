use crate::keysyms::KEYSYM_NONE;
use crate::text::str_eq;
use vstd::prelude::*;

verus! {

/// The symbols one physical key resolves to, conditioned on the active
/// group (layout layer) and shift level.
#[derive(Clone, Debug)]
pub struct KeyMapping {
    /// The physical, device-scoped key code this entry maps.
    pub keycode: u32,
    /// For each group, the keysym per shift level.  A missing level
    /// falls back to the first level of its group; an empty group, or a
    /// group past the end, resolves to no symbol.
    pub groups: Vec<Vec<u32>>,
}

/// A keyboard layout: the compiled mapping from physical key codes to
/// symbols.  The surrounding program compiles it for one device at
/// bootstrap and on every layout-change notification.
#[derive(Clone, Debug)]
pub struct Keymap {
    /// One entry per mapped key; the first entry for a key code wins.
    pub keys: Vec<KeyMapping>,
    /// How many groups the layout carries; the effective group index
    /// wraps around this count.
    pub num_groups: u32,
    /// The modifier names of the layout; the position of a name is its
    /// bit in the modifier masks.
    pub mod_names: Vec<String>,
}

/// Live modifier/group tracking for one device, derived from a layout
/// and refreshed in place by state-change notifications.
#[derive(Clone, Copy, Debug, PartialEq, Eq, Structural)]
pub struct XkbState {
    pub base_mods: u32,
    pub latched_mods: u32,
    pub locked_mods: u32,
    pub base_group: u32,
    pub latched_group: u32,
    pub locked_group: u32,
}

impl XkbState {
    /// The effective modifier mask: base, latched and locked combined.
    pub open spec fn spec_effective_mods(self) -> u32 {
        self.base_mods | self.latched_mods | self.locked_mods
    }

    /// The effective modifier mask: base, latched and locked combined.
    pub fn effective_mods(&self) -> (r: u32)
        ensures
            r == self.spec_effective_mods(),
    {
        self.base_mods | self.latched_mods | self.locked_mods
    }

    /// The effective group: base, latched and locked group combined,
    /// wrapped around the layout's group count.  A layout with no
    /// groups pins the effective group to zero.
    pub open spec fn spec_effective_group(self, num_groups: u32) -> u32 {
        if num_groups == 0 {
            0
        } else {
            (((self.base_group + self.latched_group + self.locked_group) as int) % (
            num_groups as int)) as u32
        }
    }

    /// The effective group: base, latched and locked group combined,
    /// wrapped around the layout's group count.
    pub fn effective_group(&self, num_groups: u32) -> (r: u32)
        ensures
            r == self.spec_effective_group(num_groups),
    {
        if num_groups == 0 {
            0
        } else {
            let sum: u64 = self.base_group as u64 + self.latched_group as u64
                + self.locked_group as u64;
            (sum % (num_groups as u64)) as u32
        }
    }
}

/// True when bit `i` of `mask` is set; bits past the mask's width count
/// as clear.
pub open spec fn spec_mask_bit(mask: u32, i: int) -> bool {
    0 <= i < 32 && (mask >> (i as u32)) & 1 == 1
}

/// True when bit `i` of `mask` is set; bits past the mask's width count
/// as clear.
pub fn mask_bit(mask: u32, i: usize) -> (r: bool)
    ensures
        r == spec_mask_bit(mask, i as int),
{
    if i < 32 {
        ((mask >> (i as u32)) & 1) == 1
    } else {
        false
    }
}

/// The position of `name` among the layout's modifier names, searching
/// from position `i` on; `None` when the name is unknown.
pub open spec fn spec_mod_index_from(names: Seq<String>, name: Seq<char>, i: int) -> Option<int>
    decreases names.len() - i,
{
    if i < 0 || i >= names.len() {
        None
    } else if names[i]@ == name {
        Some(i)
    } else {
        spec_mod_index_from(names, name, i + 1)
    }
}

/// True when the modifier called `name` is effectively active.  A name
/// the layout does not know counts as inactive rather than erroring.
pub open spec fn spec_mod_name_active(keymap: Keymap, state: XkbState, name: Seq<char>) -> bool {
    match spec_mod_index_from(keymap.mod_names@, name, 0) {
        Some(i) => spec_mask_bit(state.spec_effective_mods(), i),
        None => false,
    }
}

/// The shift level symbol resolution uses: level one while the modifier
/// named `Shift` is effectively active, level zero otherwise.
pub open spec fn spec_shift_level(keymap: Keymap, state: XkbState) -> u32 {
    if spec_mod_name_active(keymap, state, "Shift"@) {
        1
    } else {
        0
    }
}

/// The keysym one mapping yields for a group and shift level.
pub open spec fn spec_sym_in_mapping(m: KeyMapping, group: u32, level: u32) -> u32 {
    if group < m.groups@.len() {
        let levels = m.groups@[group as int]@;
        if levels.len() == 0 {
            KEYSYM_NONE
        } else if level < levels.len() {
            levels[level as int]
        } else {
            levels[0]
        }
    } else {
        KEYSYM_NONE
    }
}

/// The keysym for `code` found from entry `i` on; the first entry for a
/// key code wins, and an unmapped code resolves to no symbol.
pub open spec fn spec_resolve_from(keymap: Keymap, group: u32, level: u32, code: u32, i: int) -> u32
    decreases keymap.keys@.len() - i,
{
    if i < 0 || i >= keymap.keys@.len() {
        KEYSYM_NONE
    } else if keymap.keys@[i].keycode == code {
        spec_sym_in_mapping(keymap.keys@[i], group, level)
    } else {
        spec_resolve_from(keymap, group, level, code, i + 1)
    }
}

/// The keysym the layout and live state resolve a physical key code to.
pub open spec fn spec_resolve_sym(keymap: Keymap, state: XkbState, code: u32) -> u32 {
    spec_resolve_from(
        keymap,
        state.spec_effective_group(keymap.num_groups),
        spec_shift_level(keymap, state),
        code,
        0,
    )
}

/// The keysym one mapping yields for a group and shift level.
fn sym_in_mapping(m: &KeyMapping, group: u32, level: u32) -> (r: u32)
    ensures
        r == spec_sym_in_mapping(*m, group, level),
{
    if (group as usize) < m.groups.len() {
        let levels: &Vec<u32> = &m.groups[group as usize];
        if levels.len() == 0 {
            KEYSYM_NONE
        } else if (level as usize) < levels.len() {
            levels[level as usize]
        } else {
            levels[0]
        }
    } else {
        KEYSYM_NONE
    }
}

/// The keysym for `code` found from entry `i` on.
fn resolve_from(keymap: &Keymap, group: u32, level: u32, code: u32, i: usize) -> (r: u32)
    requires
        i <= keymap.keys@.len(),
    ensures
        r == spec_resolve_from(*keymap, group, level, code, i as int),
    decreases keymap.keys@.len() - i,
{
    if i == keymap.keys.len() {
        KEYSYM_NONE
    } else if keymap.keys[i].keycode == code {
        sym_in_mapping(&keymap.keys[i], group, level)
    } else {
        resolve_from(keymap, group, level, code, i + 1)
    }
}

/// The position of `name` among the layout's modifier names, from
/// position `i` on.
fn mod_index_from(names: &Vec<String>, name: &str, i: usize) -> (r: Option<usize>)
    requires
        i <= names@.len(),
    ensures
        match r {
            Some(k) => spec_mod_index_from(names@, name@, i as int) == Some(k as int),
            None => spec_mod_index_from(names@, name@, i as int) is None,
        },
    decreases names@.len() - i,
{
    if i == names.len() {
        None
    } else if str_eq(names[i].as_str(), name) {
        Some(i)
    } else {
        mod_index_from(names, name, i + 1)
    }
}

/// The layout and the live state of one device, owned and replaced as a
/// pair: a reload never leaves a new layout next to an old state or the
/// other way round.
#[derive(Clone, Debug)]
pub struct KeymapStateContainer {
    pub keymap: Keymap,
    pub state: XkbState,
}

impl KeymapStateContainer {
    /// Resolve a physical key code to a keysym through the current
    /// layout, group and shift level.
    pub fn resolve_sym(&self, code: u32) -> (r: u32)
        ensures
            r == spec_resolve_sym(self.keymap, self.state, code),
    {
        let group: u32 = self.state.effective_group(self.keymap.num_groups);
        let level: u32 = if self.mod_name_is_active("Shift") {
            1
        } else {
            0
        };
        resolve_from(&self.keymap, group, level, code, 0)
    }

    /// True when the modifier called `name` is effectively active; an
    /// unknown name counts as inactive.
    pub fn mod_name_is_active(&self, name: &str) -> (r: bool)
        ensures
            r == spec_mod_name_active(self.keymap, self.state, name@),
    {
        match mod_index_from(&self.keymap.mod_names, name, 0) {
            Some(i) => mask_bit(self.state.effective_mods(), i),
            None => false,
        }
    }

    /// Refresh the modifier and group masks in place from a
    /// state-change notification; the layout itself is untouched.
    pub fn update_mask(
        &mut self,
        base_mods: u32,
        latched_mods: u32,
        locked_mods: u32,
        base_group: u32,
        latched_group: u32,
        locked_group: u32,
    )
        ensures
            final(self).keymap == old(self).keymap,
            final(self).state == (XkbState {
                base_mods,
                latched_mods,
                locked_mods,
                base_group,
                latched_group,
                locked_group,
            }),
    {
        self.state = XkbState {
            base_mods,
            latched_mods,
            locked_mods,
            base_group,
            latched_group,
            locked_group,
        };
    }
}

} // verus!
