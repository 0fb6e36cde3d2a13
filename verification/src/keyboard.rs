use crate::compose::{lemma_full_sequence_composes, lemma_prefix_composing, spec_feed_all};
use crate::compose::{spec_lookup, ComposeModel, ComposeStateMachine, ComposeStatus, ComposeTable};
use crate::keymap::{Keymap, KeymapStateContainer, XkbState};
use crate::keymap::{spec_mod_name_active, spec_resolve_sym};
use crate::keysyms::{keysym_to_keycode, spec_keycode_of, KeyCode};
use crate::modifiers::ModifierSet;
use crate::protocol::{spec_is_press, spec_parse_generic, spec_parse_state_notify};
use crate::protocol::{RawKeyEvent, StateNotifyEvent, XkbGenericEvent};
use crate::protocol::{XKB_MAP_NOTIFY, XKB_NEW_KEYBOARD_NOTIFY, XKB_STATE_NOTIFY};
use crate::text::{is_ascii_control, is_ascii_space, spec_is_ascii_control, spec_is_ascii_space};
use vstd::prelude::*;

verus! {

/// A normalized key event, delivered to the caller once per processed
/// press or release.
#[derive(Clone, Copy, Debug, PartialEq, Eq)]
pub struct KeyEvent {
    /// The resolved logical key.
    pub key: KeyCode,
    /// The corrected modifier set: SHIFT is removed when the resolved
    /// key is a printable, non-whitespace, non-control character, since
    /// such a symbol already has the shift level applied.
    pub modifiers: ModifierSet,
    /// A less-resolved key identity; this layer never fills it.
    pub raw_key: Option<KeyCode>,
    /// The modifier set as the live state reports it, uncorrected.
    pub raw_modifiers: ModifierSet,
    /// The physical key code the event came from.
    pub raw_code: Option<u32>,
    /// Always one here; coalescing repeats is a downstream concern.
    pub repeat_count: u16,
    /// True for a press, false for a release.
    pub key_is_down: bool,
}

/// Why a session could not be built.  Every one is fatal: there is no
/// partial or degraded session.
#[derive(Clone, Copy, Debug, PartialEq, Eq, Structural)]
pub enum InitError {
    /// The server offered no data for the keyboard extension.
    ExtensionDataUnavailable,
    /// The extension is present but not at the required version.
    ExtensionUnsupported,
    /// No core keyboard device could be resolved.
    NoCoreKeyboardDevice,
    /// No compose table could be derived from the process locale.
    ComposeTableUnavailable,
    /// The server rejected the event subscription.
    EventSelectionRejected,
}

/// Why a layout reload was refused.  Recoverable: the session keeps its
/// previous layout and state untouched.
#[derive(Clone, Copy, Debug, PartialEq, Eq, Structural)]
pub enum ReloadError {
    /// The rebuilt layout was a null or invalid handle.
    InvalidKeymap,
    /// The state derived from the rebuilt layout was a null or invalid
    /// handle.
    InvalidState,
}

/// What processing a keyboard-extension wire event did, and what the
/// caller owes in turn.
#[derive(Clone, Copy, Debug, PartialEq, Eq, Structural)]
pub enum XkbEventAction {
    /// The event was for another device, malformed, or of an unknown
    /// sub-type; nothing changed.
    Ignored,
    /// A state-change notification refreshed the modifier and group
    /// masks in place.
    StateRefreshed,
    /// A map-change or new-keyboard notification: the caller must
    /// rebuild the layout/state pair for this device and hand it to
    /// `update_keymap`.
    ReloadNeeded,
}

/// The plain values the bootstrap decision runs on.  The surrounding
/// program gathers them from the display server and the process locale;
/// a `None` stands for a lookup or build that failed there.
pub struct BootstrapInput {
    /// The extension's first event code, when the server offered
    /// extension data at all.
    pub first_event: Option<u8>,
    /// Whether the server supports the extension at the required
    /// version.
    pub extension_supported: bool,
    /// The core keyboard device, with -1 standing for none, as the
    /// device query reports it.
    pub device_id: i32,
    /// The layout compiled for that device.
    pub keymap: Keymap,
    /// The live state derived from that layout.
    pub state: XkbState,
    /// The compose table derived from the process locale.
    pub compose_table: Option<ComposeTable>,
    /// Whether the server accepted the subscription to the layout- and
    /// state-change event classes.
    pub events_selected: bool,
}

/// The first failure the bootstrap checks meet, in the order the checks
/// run; `None` when the session can be built.
pub open spec fn spec_bootstrap_error(input: BootstrapInput) -> Option<InitError> {
    if input.first_event is None {
        Some(InitError::ExtensionDataUnavailable)
    } else if !input.extension_supported {
        Some(InitError::ExtensionUnsupported)
    } else if input.device_id == -1 {
        Some(InitError::NoCoreKeyboardDevice)
    } else if input.compose_table is None {
        Some(InitError::ComposeTableUnavailable)
    } else if !input.events_selected {
        Some(InitError::EventSelectionRejected)
    } else {
        None
    }
}

/// The symbol a press carries on through the session, after the compose
/// machine has seen it: `None` while a sequence is in flight or just
/// aborted (the press is swallowed), the composed result when a
/// sequence completes (falling back to the resolved symbol if the
/// machine yields none), and the resolved symbol itself otherwise.  A
/// release never consults the machine.
pub open spec fn spec_effective_sym(press: bool, m: ComposeModel, sym: u32) -> Option<u32> {
    if !press {
        Some(sym)
    } else {
        let fed = m.feed_transition(sym);
        match fed.status {
            ComposeStatus::Composing => None,
            ComposeStatus::Cancelled => None,
            ComposeStatus::Composed => match fed.result {
                Some(res) => Some(res),
                None => Some(sym),
            },
            ComposeStatus::Nothing => Some(sym),
        }
    }
}

/// The compose machine after the session has processed one key event:
/// untouched by a release; advanced by a press, and reset right away
/// when the press completed or aborted a sequence.
pub open spec fn spec_compose_after(press: bool, m: ComposeModel, sym: u32) -> ComposeModel {
    if !press {
        m
    } else {
        let fed = m.feed_transition(sym);
        match fed.status {
            ComposeStatus::Composed => fed.reset_transition(),
            ComposeStatus::Cancelled => fed.reset_transition(),
            _ => fed,
        }
    }
}

/// The logical key of an event: the effective symbol's mapping, falling
/// back to the directly resolved symbol's mapping, and `None` (event
/// dropped) when neither maps.
pub open spec fn spec_event_keycode(effective: u32, sym: u32) -> Option<KeyCode> {
    if spec_keycode_of(effective) is Some {
        spec_keycode_of(effective)
    } else {
        spec_keycode_of(sym)
    }
}

/// The raw modifier set the live state reports: SHIFT, CTRL and ALT
/// from their named modifiers, SUPER from either of the two physical
/// modifiers folded into it.
pub open spec fn spec_raw_mods(keymap: Keymap, state: XkbState) -> ModifierSet {
    ModifierSet {
        shift: spec_mod_name_active(keymap, state, "Shift"@),
        ctrl: spec_mod_name_active(keymap, state, "Control"@),
        alt: spec_mod_name_active(keymap, state, "Mod1"@),
        sup: spec_mod_name_active(keymap, state, "Mod4"@) || spec_mod_name_active(
            keymap,
            state,
            "Mod3"@,
        ),
    }
}

/// The corrected modifier set: SHIFT is removed for a printable,
/// non-whitespace, non-control character, which already carries its
/// shift level; every other key keeps the raw set unchanged.
pub open spec fn spec_corrected_mods(kc: KeyCode, mods: ModifierSet) -> ModifierSet {
    if kc matches KeyCode::Char(c) && !spec_is_ascii_space(c) && !spec_is_ascii_control(c) {
        mods.spec_without_shift()
    } else {
        mods
    }
}

/// The event, if any, that processing one raw key event yields from the
/// given layout/state pair and compose machine.
pub open spec fn spec_key_event(
    c: KeymapStateContainer,
    m: ComposeModel,
    ev: RawKeyEvent,
) -> Option<KeyEvent> {
    let press = spec_is_press(ev.response_type);
    let sym = spec_resolve_sym(c.keymap, c.state, ev.detail as u32);
    match spec_effective_sym(press, m, sym) {
        None => None,
        Some(effective) => match spec_event_keycode(effective, sym) {
            None => None,
            Some(kc) => {
                let raw = spec_raw_mods(c.keymap, c.state);
                Some(
                    KeyEvent {
                        key: kc,
                        modifiers: spec_corrected_mods(kc, raw),
                        raw_key: None,
                        raw_modifiers: raw,
                        raw_code: Some(ev.detail as u32),
                        repeat_count: 1,
                        key_is_down: press,
                    },
                )
            },
        },
    }
}

/// What a keyboard-extension wire event does to a session for the given
/// device: events for other devices, short events and unknown sub-types
/// are ignored; a state-change refreshes the masks; a map-change or
/// new-keyboard notification asks the caller for a reload.
pub open spec fn spec_xkb_action(device_id: i32, raw: Seq<u8>) -> XkbEventAction {
    match spec_parse_generic(raw) {
        None => XkbEventAction::Ignored,
        Some(ev) => {
            if ev.device_id as i32 == device_id {
                if ev.xkb_type == XKB_STATE_NOTIFY {
                    if spec_parse_state_notify(raw) is Some {
                        XkbEventAction::StateRefreshed
                    } else {
                        XkbEventAction::Ignored
                    }
                } else if ev.xkb_type == XKB_MAP_NOTIFY || ev.xkb_type == XKB_NEW_KEYBOARD_NOTIFY {
                    XkbEventAction::ReloadNeeded
                } else {
                    XkbEventAction::Ignored
                }
            } else {
                XkbEventAction::Ignored
            }
        },
    }
}

/// A rebuilt layout/state pair offered to `update_keymap`; a `None`
/// stands for a build that came back as a null or invalid handle.
pub struct KeymapCandidate {
    pub keymap: Option<Keymap>,
    pub state: Option<XkbState>,
}

/// The keyboard session: one layout/state container, one compose
/// machine, and the device the session was bootstrapped for.  Every
/// wire event carrying another device is ignored.
#[derive(Debug)]
pub struct Keyboard {
    container: KeymapStateContainer,
    compose_state: ComposeStateMachine,
    device_id: i32,
}

impl Keyboard {
    /// The session's layout/state pair.
    pub closed spec fn spec_container(self) -> KeymapStateContainer {
        self.container
    }

    /// The session's compose machine, as its mathematical state.
    pub closed spec fn spec_compose(self) -> ComposeModel {
        self.compose_state@
    }

    /// The device the session is scoped to.
    pub closed spec fn spec_device_id(self) -> i32 {
        self.device_id
    }

    /// Build a session from the bootstrap values, checking them in the
    /// order the handshake runs: extension data, extension version,
    /// core device, compose table, event subscription.  The first check
    /// that fails names the error; when all pass, the session starts
    /// with the given layout/state pair, an idle compose machine over
    /// the given table, and the extension's first event code is handed
    /// back for demultiplexing.
    pub fn new(input: BootstrapInput) -> (r: Result<(Keyboard, u8), InitError>)
        ensures
            r is Ok <==> spec_bootstrap_error(input) is None,
            spec_bootstrap_error(input) matches Some(e) ==> r == Err::<(Keyboard, u8), _>(e),
            r matches Ok(p) ==> ({
                &&& input.first_event is Some
                &&& p.1 == input.first_event->Some_0
                &&& p.0.spec_container() == (KeymapStateContainer {
                    keymap: input.keymap,
                    state: input.state,
                })
                &&& input.compose_table is Some
                &&& p.0.spec_compose() == (ComposeModel {
                    table: (input.compose_table->Some_0)@,
                    status: ComposeStatus::Nothing,
                    pending: Seq::<u32>::empty(),
                    result: None,
                })
                &&& p.0.spec_device_id() == input.device_id
            }),
    {
        let first_event: u8 = match input.first_event {
            Some(fe) => fe,
            None => {
                return Err(InitError::ExtensionDataUnavailable);
            },
        };
        if !input.extension_supported {
            return Err(InitError::ExtensionUnsupported);
        }
        if input.device_id == -1 {
            return Err(InitError::NoCoreKeyboardDevice);
        }
        let table: ComposeTable = match input.compose_table {
            Some(t) => t,
            None => {
                return Err(InitError::ComposeTableUnavailable);
            },
        };
        if !input.events_selected {
            return Err(InitError::EventSelectionRejected);
        }
        let kbd = Keyboard {
            container: KeymapStateContainer { keymap: input.keymap, state: input.state },
            compose_state: ComposeStateMachine::new(table),
            device_id: input.device_id,
        };
        Ok((kbd, first_event))
    }

    /// Process one raw key press/release event into at most one
    /// normalized event.  The physical code is resolved through the
    /// current layout and state; a press feeds the symbol to the
    /// compose machine, which may swallow it, substitute a composed
    /// result, or pass it through; a symbol without a logical mapping
    /// drops the event.  Swallowing a press and advancing the compose
    /// machine are this method's only effects.
    pub fn process_key_event(&mut self, ev: &RawKeyEvent) -> (r: Option<KeyEvent>)
        ensures
            r == spec_key_event(old(self).spec_container(), old(self).spec_compose(), *ev),
            final(self).spec_container() == old(self).spec_container(),
            final(self).spec_device_id() == old(self).spec_device_id(),
            final(self).spec_compose() == spec_compose_after(
                spec_is_press(ev.response_type),
                old(self).spec_compose(),
                spec_resolve_sym(
                    old(self).spec_container().keymap,
                    old(self).spec_container().state,
                    ev.detail as u32,
                ),
            ),
    {
        let pressed: bool = ev.is_press();
        let xcode: u32 = ev.detail as u32;
        let xsym: u32 = self.container.resolve_sym(xcode);

        let ksym: u32 = if pressed {
            self.compose_state.feed(xsym);
            match self.compose_state.status() {
                ComposeStatus::Composing => {
                    return None;
                },
                ComposeStatus::Composed => {
                    let res: Option<u32> = self.compose_state.keysym();
                    self.compose_state.reset();
                    match res {
                        Some(r0) => r0,
                        None => xsym,
                    }
                },
                ComposeStatus::Nothing => xsym,
                ComposeStatus::Cancelled => {
                    self.compose_state.reset();
                    return None;
                },
            }
        } else {
            xsym
        };

        let kc: KeyCode = match keysym_to_keycode(ksym) {
            Some(kc) => kc,
            None => match keysym_to_keycode(xsym) {
                Some(kc) => kc,
                None => {
                    return None;
                },
            },
        };
        let raw_modifiers: ModifierSet = self.get_key_modifiers();
        let modifiers: ModifierSet = match kc {
            KeyCode::Char(c) => {
                if !is_ascii_space(c) && !is_ascii_control(c) {
                    raw_modifiers.without_shift()
                } else {
                    raw_modifiers
                }
            },
            _ => raw_modifiers,
        };

        Some(
            KeyEvent {
                key: kc,
                modifiers,
                raw_key: None,
                raw_modifiers,
                raw_code: Some(xcode),
                repeat_count: 1,
                key_is_down: pressed,
            },
        )
    }

    /// True when the named modifier is effectively active in the live
    /// state; an unknown name counts as inactive.
    fn mod_is_active(&self, modifier: &str) -> (r: bool)
        ensures
            r == spec_mod_name_active(
                self.spec_container().keymap,
                self.spec_container().state,
                modifier@,
            ),
    {
        self.container.mod_name_is_active(modifier)
    }

    /// The raw modifier set the live state reports right now, with no
    /// correction applied.
    pub fn get_key_modifiers(&self) -> (r: ModifierSet)
        ensures
            r == spec_raw_mods(self.spec_container().keymap, self.spec_container().state),
    {
        let mut res = ModifierSet::default();
        if self.mod_is_active("Shift") {
            res.shift = true;
        }
        if self.mod_is_active("Control") {
            res.ctrl = true;
        }
        if self.mod_is_active("Mod1") {
            res.alt = true;
        }
        if self.mod_is_active("Mod4") {
            res.sup = true;
        }
        if self.mod_is_active("Mod3") {
            res.sup = true;
        }
        res
    }

    /// Process one keyboard-extension wire event.  Events for other
    /// devices, short events and unknown sub-types are ignored; a
    /// state-change notification refreshes the modifier and group
    /// masks in place; a map-change or new-keyboard notification
    /// touches nothing and asks the caller to rebuild the layout/state
    /// pair and hand it to `update_keymap`.  The compose machine is
    /// never touched here.
    pub fn process_xkb_event(&mut self, raw: &[u8]) -> (r: XkbEventAction)
        ensures
            r == spec_xkb_action(old(self).spec_device_id(), raw@),
            final(self).spec_device_id() == old(self).spec_device_id(),
            final(self).spec_compose() == old(self).spec_compose(),
            !(r is StateRefreshed) ==> final(self).spec_container() == old(self).spec_container(),
            r is StateRefreshed ==> ({
                let sn = spec_parse_state_notify(raw@)->Some_0;
                spec_parse_state_notify(raw@) is Some && final(self).spec_container() == (
                KeymapStateContainer {
                    keymap: old(self).spec_container().keymap,
                    state: XkbState {
                        base_mods: sn.base_mods as u32,
                        latched_mods: sn.latched_mods as u32,
                        locked_mods: sn.locked_mods as u32,
                        base_group: sn.base_group as u32,
                        latched_group: sn.latched_group as u32,
                        locked_group: sn.locked_group as u32,
                    },
                })
            }),
    {
        let generic: Option<XkbGenericEvent> = XkbGenericEvent::parse(raw);
        match generic {
            None => XkbEventAction::Ignored,
            Some(ev) => {
                if ev.device_id() as i32 == self.device_id {
                    let t: u8 = ev.xkb_type();
                    if t == XKB_STATE_NOTIFY {
                        match StateNotifyEvent::parse(raw) {
                            Some(sn) => {
                                self.update_state(&sn);
                                XkbEventAction::StateRefreshed
                            },
                            None => XkbEventAction::Ignored,
                        }
                    } else if t == XKB_MAP_NOTIFY || t == XKB_NEW_KEYBOARD_NOTIFY {
                        XkbEventAction::ReloadNeeded
                    } else {
                        XkbEventAction::Ignored
                    }
                } else {
                    XkbEventAction::Ignored
                }
            },
        }
    }

    /// Refresh the live state's modifier and group masks in place from
    /// a state-change payload; the layout is untouched, and no reload
    /// happens.
    pub fn update_state(&mut self, ev: &StateNotifyEvent)
        ensures
            final(self).spec_device_id() == old(self).spec_device_id(),
            final(self).spec_compose() == old(self).spec_compose(),
            final(self).spec_container().keymap == old(self).spec_container().keymap,
            final(self).spec_container().state == (XkbState {
                base_mods: ev.base_mods as u32,
                latched_mods: ev.latched_mods as u32,
                locked_mods: ev.locked_mods as u32,
                base_group: ev.base_group as u32,
                latched_group: ev.latched_group as u32,
                locked_group: ev.locked_group as u32,
            }),
    {
        self.container.update_mask(
            ev.base_mods as u32,
            ev.latched_mods as u32,
            ev.locked_mods as u32,
            ev.base_group as u32,
            ev.latched_group as u32,
            ev.locked_group as u32,
        );
    }

    /// Replace the layout and state as a pair, after validating the
    /// rebuilt candidate.  A candidate with a missing layout or state
    /// is refused and the session keeps its previous pair fully intact
    /// — a reader never sees a new layout next to an old state.  The
    /// compose machine is never reset by a reload.
    pub fn update_keymap(&mut self, candidate: KeymapCandidate) -> (r: Result<(), ReloadError>)
        ensures
            final(self).spec_device_id() == old(self).spec_device_id(),
            final(self).spec_compose() == old(self).spec_compose(),
            candidate.keymap is None ==> r == Err::<(), ReloadError>(ReloadError::InvalidKeymap),
            candidate.keymap is Some && candidate.state is None ==> r == Err::<(), ReloadError>(
                ReloadError::InvalidState,
            ),
            r is Err ==> *final(self) == *old(self),
            (candidate.keymap is Some && candidate.state is Some) ==> (r is Ok
                && final(self).spec_container() == (KeymapStateContainer {
                keymap: candidate.keymap->Some_0,
                state: candidate.state->Some_0,
            })),
    {
        let k: Keymap = match candidate.keymap {
            Some(k) => k,
            None => {
                return Err(ReloadError::InvalidKeymap);
            },
        };
        let st: XkbState = match candidate.state {
            Some(st) => st,
            None => {
                return Err(ReloadError::InvalidState);
            },
        };
        self.container = KeymapStateContainer { keymap: k, state: st };
        Ok(())
    }

    /// The device the session was bootstrapped for.
    pub fn get_device_id(&self) -> (r: i32)
        ensures
            r == self.spec_device_id(),
    {
        self.device_id
    }
}

/// Law: a symbol fed by a press while the compose machine is idle, and
/// which leaves it idle, carries through as the effective symbol
/// unchanged.  (A symbol that starts or completes a sequence is the
/// machine's business instead and is excluded.)
pub proof fn lemma_idle_press_passes_symbol_through(m: ComposeModel, sym: u32)
    requires
        m.status is Nothing,
        m.feed_transition(sym).status is Nothing,
    ensures
        spec_effective_sym(true, m, sym) == Some(sym),
        spec_compose_after(true, m, sym).status is Nothing,
{
}

/// Law: while a press leaves the machine mid-sequence, or aborts the
/// sequence, the press yields no event at all.
pub proof fn lemma_composing_press_swallowed(c: KeymapStateContainer, m: ComposeModel, ev: RawKeyEvent)
    requires
        spec_is_press(ev.response_type),
        ({
            let fed = m.feed_transition(
                spec_resolve_sym(c.keymap, c.state, ev.detail as u32),
            );
            fed.status is Composing || fed.status is Cancelled
        }),
    ensures
        spec_key_event(c, m, ev) is None,
{
}

/// Law: the press that completes a sequence yields exactly the one
/// event carrying the composed (or fallback) symbol — provided that
/// symbol, or the directly resolved one, has a logical mapping — and
/// the machine is idle again right after, with nothing in flight.
pub proof fn lemma_completing_press_emits_once(c: KeymapStateContainer, m: ComposeModel, ev: RawKeyEvent)
    requires
        spec_is_press(ev.response_type),
        ({
            let sym = spec_resolve_sym(c.keymap, c.state, ev.detail as u32);
            let fed = m.feed_transition(sym);
            &&& fed.status is Composed
            &&& spec_event_keycode(
                match fed.result {
                    Some(res) => res,
                    None => sym,
                },
                sym,
            ) is Some
        }),
    ensures
        spec_key_event(c, m, ev) is Some,
        ({
            let sym = spec_resolve_sym(c.keymap, c.state, ev.detail as u32);
            &&& spec_compose_after(true, m, sym).status is Nothing
            &&& spec_compose_after(true, m, sym).pending =~= Seq::<u32>::empty()
            &&& spec_compose_after(true, m, sym).result is None
        }),
{
}


/// The compose machine after the session has processed a run of presses
/// resolving to `syms`, in order.
pub open spec fn spec_compose_after_run(m: ComposeModel, syms: Seq<u32>) -> ComposeModel
    decreases syms.len(),
{
    if syms.len() == 0 {
        m
    } else {
        spec_compose_after(true, spec_compose_after_run(m, syms.drop_last()), syms.last())
    }
}

/// While a run of presses is still strictly inside a table sequence, the
/// session applies exactly the machine's feed steps: no reset happens
/// mid-sequence.
proof fn lemma_run_matches_feed(m: ComposeModel, keys: Seq<u32>, k: int)
    requires
        m.status is Nothing,
        spec_lookup(m.table, keys) is Some,
        forall|j: int| 1 <= j < keys.len() ==> spec_lookup(m.table, keys.subrange(0, j)) is None,
        0 <= k < keys.len(),
    ensures
        spec_compose_after_run(m, keys.subrange(0, k)) == spec_feed_all(m, keys.subrange(0, k)),
        spec_compose_after_run(m, keys.subrange(0, k)).status is Nothing || spec_compose_after_run(
            m,
            keys.subrange(0, k),
        ).status is Composing,
    decreases k,
{
    if k == 0 {
        assert(keys.subrange(0, 0) =~= Seq::<u32>::empty());
    } else {
        lemma_run_matches_feed(m, keys, k - 1);
        lemma_prefix_composing(m, keys, k);
        let sub = keys.subrange(0, k);
        assert(sub.drop_last() =~= keys.subrange(0, k - 1));
        assert(sub.last() == keys[k - 1]);
        let prev = spec_feed_all(m, keys.subrange(0, k - 1));
        assert(spec_feed_all(m, sub) == prev.feed_transition(keys[k - 1]));
        assert(spec_feed_all(m, sub).status is Composing);
        assert(spec_compose_after_run(m, sub) == spec_compose_after(
            true,
            spec_compose_after_run(m, keys.subrange(0, k - 1)),
            keys[k - 1],
        ));
    }
}

/// Law: a run of presses that feeds a whole table sequence from an idle
/// machine yields exactly one event, on the completing press alone —
/// every earlier press is swallowed — and leaves the machine idle and
/// empty, ready for a fresh sequence.  The completing press emits
/// provided the composed result (or the press's own symbol) has a
/// logical mapping, and sequences a proper prefix of which already
/// completes some entry finish early and are excluded.
pub proof fn lemma_press_run_emits_exactly_once(
    c: KeymapStateContainer,
    m: ComposeModel,
    evs: Seq<RawKeyEvent>,
    keys: Seq<u32>,
)
    requires
        m.status is Nothing,
        evs.len() == keys.len(),
        keys.len() >= 1,
        forall|k: int| 0 <= k < evs.len() ==> spec_is_press(#[trigger] evs[k].response_type),
        forall|k: int|
            0 <= k < evs.len() ==> spec_resolve_sym(c.keymap, c.state, #[trigger] evs[k].detail as u32)
                == keys[k],
        spec_lookup(m.table, keys) is Some,
        forall|j: int| 1 <= j < keys.len() ==> spec_lookup(m.table, keys.subrange(0, j)) is None,
        ({
            let fin = spec_feed_all(m, keys);
            spec_event_keycode(
                match fin.result {
                    Some(res) => res,
                    None => keys.last(),
                },
                keys.last(),
            ) is Some
        }),
    ensures
        forall|k: int|
            0 <= k < keys.len() - 1 ==> spec_key_event(
                c,
                #[trigger] spec_compose_after_run(m, keys.subrange(0, k)),
                evs[k],
            ) is None,
        spec_key_event(
            c,
            spec_compose_after_run(m, keys.subrange(0, keys.len() - 1)),
            evs[keys.len() - 1],
        ) is Some,
        spec_compose_after_run(m, keys).status is Nothing,
        spec_compose_after_run(m, keys).pending =~= Seq::<u32>::empty(),
{
    let n = keys.len() as int;
    lemma_full_sequence_composes(m, keys);
    assert forall|k: int|
        0 <= k < n - 1 implies spec_key_event(
        c,
        #[trigger] spec_compose_after_run(m, keys.subrange(0, k)),
        evs[k],
    ) is None by {
        lemma_run_matches_feed(m, keys, k);
        lemma_prefix_composing(m, keys, k + 1);
        let state_k = spec_feed_all(m, keys.subrange(0, k));
        let sub = keys.subrange(0, k + 1);
        assert(sub.drop_last() =~= keys.subrange(0, k));
        assert(sub.last() == keys[k]);
        assert(state_k.feed_transition(keys[k]) == spec_feed_all(m, sub));
        assert(state_k.feed_transition(keys[k]).status is Composing);
    }
    lemma_run_matches_feed(m, keys, n - 1);
    let state_last = spec_feed_all(m, keys.subrange(0, n - 1));
    assert(keys.drop_last() =~= keys.subrange(0, n - 1));
    assert(state_last.feed_transition(keys[n - 1]) == spec_feed_all(m, keys));
    assert(spec_feed_all(m, keys).status is Composed);
    lemma_completing_press_emits_once(c, state_last, evs[n - 1]);
    assert(keys.subrange(0, n) =~= keys);
    assert(spec_compose_after_run(m, keys) == spec_compose_after(
        true,
        spec_compose_after_run(m, keys.subrange(0, n - 1)),
        keys[n - 1],
    ));
}

/// Law: the corrected modifier set never contains SHIFT for a
/// printable, non-whitespace, non-control character, even when the raw
/// set does — and for every other key, named keys such as Enter or Tab
/// and the function keys among them, corrected equals raw.
pub proof fn lemma_shift_suppression(kc: KeyCode, mods: ModifierSet)
    ensures
        kc matches KeyCode::Char(ch) && !spec_is_ascii_space(ch) && !spec_is_ascii_control(ch)
            ==> !spec_corrected_mods(kc, mods).shift,
        kc matches KeyCode::Char(ch) && !spec_is_ascii_space(ch) && !spec_is_ascii_control(ch)
            ==> spec_corrected_mods(kc, mods) == mods.spec_without_shift(),
        !(kc matches KeyCode::Char(ch) && !spec_is_ascii_space(ch) && !spec_is_ascii_control(ch))
            ==> spec_corrected_mods(kc, mods) == mods,
{
}

} // verus!

