use vstd::prelude::*;

verus! {

/// The opcode carried by key-press wire events (the high bit of the
/// response type marks events sent from another client and is masked
/// off before comparing).
pub const KEY_PRESS_OPCODE: u8 = 2;

/// The keyboard extension's sub-type for a new-keyboard notification.
pub const XKB_NEW_KEYBOARD_NOTIFY: u8 = 0;

/// The keyboard extension's sub-type for a map-change notification.
pub const XKB_MAP_NOTIFY: u8 = 1;

/// The keyboard extension's sub-type for a state-change notification.
pub const XKB_STATE_NOTIFY: u8 = 2;

/// A raw key press/release wire event: its response type and the
/// physical key code (`detail`) it carries.
#[derive(Clone, Copy, Debug, PartialEq, Eq, Structural)]
pub struct RawKeyEvent {
    pub response_type: u8,
    pub detail: u8,
}

/// True when a response type denotes a key press (rather than a
/// release), with the sent-event bit masked off.
pub open spec fn spec_is_press(response_type: u8) -> bool {
    response_type & 0x7f == KEY_PRESS_OPCODE
}

impl RawKeyEvent {
    /// True when this event is a key press rather than a release.
    pub fn is_press(&self) -> (r: bool)
        ensures
            r == spec_is_press(self.response_type),
    {
        self.response_type & 0x7f == KEY_PRESS_OPCODE
    }
}

/// The little-endian 16-bit value at byte offset `i` of `raw`.
pub open spec fn spec_u16_at(raw: Seq<u8>, i: int) -> u16
    recommends
        0 <= i && i + 2 <= raw.len(),
{
    (raw[i] + 256 * raw[i + 1]) as u16
}

/// The fields common to the keyboard extension's wire events: every one
/// starts with the response type, the sub-type, a sequence number, a
/// timestamp, and the source device, in that byte layout.
#[derive(Clone, Copy, Debug, PartialEq, Eq, Structural)]
pub struct XkbGenericEvent {
    pub response_type: u8,
    pub xkb_type: u8,
    pub sequence: u16,
    pub time: u32,
    pub device_id: u8,
}

/// The common fields read from the leading bytes of a wire event, when
/// the event is long enough to carry them.
pub open spec fn spec_parse_generic(raw: Seq<u8>) -> Option<XkbGenericEvent> {
    if raw.len() >= 9 {
        Some(
            XkbGenericEvent {
                response_type: raw[0],
                xkb_type: raw[1],
                sequence: spec_u16_at(raw, 2),
                time: (raw[4] + 0x100 * raw[5] + 0x10000 * raw[6] + 0x1000000 * raw[7]) as u32,
                device_id: raw[8],
            },
        )
    } else {
        None
    }
}

impl XkbGenericEvent {
    /// Read the common fields from the leading bytes of a wire event;
    /// an event too short to carry them is rejected rather than read
    /// past its end.
    pub fn parse(raw: &[u8]) -> (r: Option<XkbGenericEvent>)
        ensures
            r == spec_parse_generic(raw@),
    {
        if raw.len() >= 9 {
            let sequence: u16 = raw[2] as u16 + 256 * (raw[3] as u16);
            let time: u32 = raw[4] as u32 + 0x100 * (raw[5] as u32) + 0x10000 * (raw[6] as u32)
                + 0x1000000 * (raw[7] as u32);
            Some(
                XkbGenericEvent {
                    response_type: raw[0],
                    xkb_type: raw[1],
                    sequence,
                    time,
                    device_id: raw[8],
                },
            )
        } else {
            None
        }
    }

    /// The sub-type discriminator the event carries.
    pub fn xkb_type(&self) -> (r: u8)
        ensures
            r == self.xkb_type,
    {
        self.xkb_type
    }

    /// The device the event is scoped to.
    pub fn device_id(&self) -> (r: u8)
        ensures
            r == self.device_id,
    {
        self.device_id
    }
}

/// The payload of a state-change notification: the modifier masks and
/// group indices that refresh the live state.
#[derive(Clone, Copy, Debug, PartialEq, Eq, Structural)]
pub struct StateNotifyEvent {
    pub device_id: u8,
    pub base_mods: u8,
    pub latched_mods: u8,
    pub locked_mods: u8,
    pub base_group: u16,
    pub latched_group: u16,
    pub locked_group: u8,
}

/// The state-change fields read from their fixed byte offsets: the
/// device at offset 8, the base, latched and locked modifier masks at
/// offsets 10 through 12, the base and latched groups as 16-bit values
/// at offsets 14 and 16, and the locked group at offset 18.
pub open spec fn spec_parse_state_notify(raw: Seq<u8>) -> Option<StateNotifyEvent> {
    if raw.len() >= 19 {
        Some(
            StateNotifyEvent {
                device_id: raw[8],
                base_mods: raw[10],
                latched_mods: raw[11],
                locked_mods: raw[12],
                base_group: spec_u16_at(raw, 14),
                latched_group: spec_u16_at(raw, 16),
                locked_group: raw[18],
            },
        )
    } else {
        None
    }
}

impl StateNotifyEvent {
    /// Read a state-change payload from its fixed byte offsets; an
    /// event too short to carry them is rejected rather than read past
    /// its end.
    pub fn parse(raw: &[u8]) -> (r: Option<StateNotifyEvent>)
        ensures
            r == spec_parse_state_notify(raw@),
    {
        if raw.len() >= 19 {
            Some(
                StateNotifyEvent {
                    device_id: raw[8],
                    base_mods: raw[10],
                    latched_mods: raw[11],
                    locked_mods: raw[12],
                    base_group: raw[14] as u16 + 256 * (raw[15] as u16),
                    latched_group: raw[16] as u16 + 256 * (raw[17] as u16),
                    locked_group: raw[18],
                },
            )
        } else {
            None
        }
    }
}

} // verus!
