//! The named flags of a window and the byte that holds them.
//!
//! Bit 7 of the byte enables the window, bit 5 lets it blend, bit 4 shows
//! the objects in it, and bits 0 to 3 show one background layer each. Bit 6
//! means nothing and is always clear.

use vstd::prelude::*;
use crate::background::{BackgroundID, BACKGROUNDS};
use crate::bits::{bit_of, lemma_with_bit, with_bit};

verus! {

/// Position in the flag byte of the bit that enables the window.
pub const ENABLE_BIT: usize = 7;

/// Position in the flag byte of the bit that no flag uses.
pub const RESERVED_BIT: usize = 6;

/// Position in the flag byte of the bit that lets the window blend.
pub const BLEND_BIT: usize = 5;

/// Position in the flag byte of the bit that shows the objects.
pub const OBJECT_BIT: usize = 4;

/// What a window's flag byte says, flag by flag.
#[derive(Clone, Copy, Debug, PartialEq, Eq)]
pub struct WindowFlags {
    pub enabled: bool,
    pub blend: bool,
    pub object: bool,
    pub background0: bool,
    pub background1: bool,
    pub background2: bool,
    pub background3: bool,
}

/// One call of a setter of a window.
pub enum FlagChange {
    /// A call of `enable`.
    Enable,
    /// A call of `disable`.
    Disable,
    /// A call of `reset`.
    Reset,
    /// A call of `set_blend_enable` with the given value.
    Blend(bool),
    /// A call of `set_object_enable` with the given value.
    Object(bool),
    /// A call of `set_background_enable` for the given layer, with the
    /// given value.
    Background(BackgroundID, bool),
}

/// The flags that `byte` holds.
pub open spec fn flags_of(byte: u8) -> WindowFlags {
    WindowFlags {
        enabled: bit_of(byte, 7),
        blend: bit_of(byte, 5),
        object: bit_of(byte, 4),
        background0: bit_of(byte, 0),
        background1: bit_of(byte, 1),
        background2: bit_of(byte, 2),
        background3: bit_of(byte, 3),
    }
}

/// The weight of a flag in the byte: `weight` if the flag is set, else 0.
pub open spec fn weighed(flag: bool, weight: int) -> int {
    if flag {
        weight
    } else {
        0
    }
}

impl WindowFlags {
    /// The flags of a window that was just made or reset: none is set.
    pub open spec fn cleared() -> WindowFlags {
        WindowFlags {
            enabled: false,
            blend: false,
            object: false,
            background0: false,
            background1: false,
            background2: false,
            background3: false,
        }
    }

    /// The byte that holds these flags.
    pub open spec fn byte(self) -> int {
        weighed(self.enabled, 128) + weighed(self.blend, 32) + weighed(self.object, 16) + weighed(
            self.background3,
            8,
        ) + weighed(self.background2, 4) + weighed(self.background1, 2) + weighed(
            self.background0,
            1,
        )
    }

    /// Whether the background layer in `slot` shows in the window.
    pub open spec fn background(self, slot: int) -> bool {
        if slot == 0 {
            self.background0
        } else if slot == 1 {
            self.background1
        } else if slot == 2 {
            self.background2
        } else {
            self.background3
        }
    }

    /// These flags with the enable flag replaced.
    pub open spec fn with_enabled(self, on: bool) -> WindowFlags {
        WindowFlags { enabled: on, ..self }
    }

    /// These flags with the blend flag replaced.
    pub open spec fn with_blend(self, on: bool) -> WindowFlags {
        WindowFlags { blend: on, ..self }
    }

    /// These flags with the object flag replaced.
    pub open spec fn with_object(self, on: bool) -> WindowFlags {
        WindowFlags { object: on, ..self }
    }

    /// These flags with the flag of the background layer in `slot` replaced.
    pub open spec fn with_background(self, slot: int, on: bool) -> WindowFlags {
        if slot == 0 {
            WindowFlags { background0: on, ..self }
        } else if slot == 1 {
            WindowFlags { background1: on, ..self }
        } else if slot == 2 {
            WindowFlags { background2: on, ..self }
        } else {
            WindowFlags { background3: on, ..self }
        }
    }

    /// These flags after one setter call.
    pub open spec fn after(self, change: FlagChange) -> WindowFlags {
        match change {
            FlagChange::Enable => self.with_enabled(true),
            FlagChange::Disable => self.with_enabled(false),
            FlagChange::Reset => WindowFlags::cleared(),
            FlagChange::Blend(on) => self.with_blend(on),
            FlagChange::Object(on) => self.with_object(on),
            FlagChange::Background(back, on) => self.with_background(back.slot() as int, on),
        }
    }

    /// These flags after a run of setter calls, made in order.
    pub open spec fn after_all(self, changes: Seq<FlagChange>) -> WindowFlags
        decreases changes.len(),
    {
        if changes.len() == 0 {
            self
        } else {
            self.after_all(changes.drop_last()).after(changes.last())
        }
    }
}

/// Whether the window is enabled after a run of setter calls, going only by
/// the calls that switch it: the last `Enable` switches it on, the last
/// `Disable` or `Reset` switches it off, and with no such call it stays as
/// it was.
pub open spec fn last_switch(enabled: bool, changes: Seq<FlagChange>) -> bool
    decreases changes.len(),
{
    if changes.len() == 0 {
        enabled
    } else {
        match changes.last() {
            FlagChange::Enable => true,
            FlagChange::Disable => false,
            FlagChange::Reset => false,
            _ => last_switch(enabled, changes.drop_last()),
        }
    }
}

/// The enable flag follows the most recent call that switches the window,
/// whatever other flags were set or cleared before, between or after.
pub proof fn lemma_enabled_follows_last_switch(flags: WindowFlags, changes: Seq<FlagChange>)
    ensures
        flags.after_all(changes).enabled == last_switch(flags.enabled, changes),
    decreases changes.len(),
{
    if changes.len() > 0 {
        lemma_enabled_follows_last_switch(flags, changes.drop_last());
    }
}

/// A setter call changes the flag that it names and no other.
pub proof fn lemma_flags_independent(flags: WindowFlags, change: FlagChange)
    requires
        change matches FlagChange::Background(back, _) ==> back.wf(),
    ensures
        !(change is Enable || change is Disable || change is Reset) ==> flags.after(change).enabled
            == flags.enabled,
        !(change is Blend || change is Reset) ==> flags.after(change).blend == flags.blend,
        !(change is Object || change is Reset) ==> flags.after(change).object == flags.object,
        forall|slot: int|
            0 <= slot < BACKGROUNDS && !(change is Reset) && !(change matches FlagChange::Background(
                back,
                _,
            ) && back.slot() == slot) ==> #[trigger] flags.after(change).background(slot)
                == flags.background(slot),
{
    if let FlagChange::Background(back, _) = change {
        back.lemma_slot_in_range();
    }
}

/// Flags survive being packed into a byte, and the byte of any flags has
/// its reserved bit clear.
pub proof fn lemma_flags_of_byte(flags: WindowFlags)
    ensures
        0 <= flags.byte() <= u8::MAX,
        flags_of(flags.byte() as u8) == flags,
        !bit_of(flags.byte() as u8, RESERVED_BIT as u8),
{
    let byte = flags.byte() as u8;
    lemma_byte_bits(byte);
}

/// A byte with its reserved bit clear is the byte of the flags that it
/// holds.
pub proof fn lemma_byte_of_flags(byte: u8)
    requires
        !bit_of(byte, RESERVED_BIT as u8),
    ensures
        flags_of(byte).byte() == byte,
{
    lemma_byte_bits(byte);
}

/// A byte is the sum of the weights of its set bits.
proof fn lemma_byte_bits(byte: u8)
    by (bit_vector)
    ensures
        byte == (if bit_of(byte, 7) { 128u8 } else { 0 }) + (if bit_of(byte, 6) { 64u8 } else { 0 })
            + (if bit_of(byte, 5) { 32u8 } else { 0 }) + (if bit_of(byte, 4) { 16u8 } else { 0 })
            + (if bit_of(byte, 3) { 8u8 } else { 0 }) + (if bit_of(byte, 2) { 4u8 } else { 0 })
            + (if bit_of(byte, 1) { 2u8 } else { 0 }) + (if bit_of(byte, 0) { 1u8 } else { 0 }),
{
}

/// Replacing one bit of a flag byte replaces the flag that the bit stands
/// for and keeps the others.
pub proof fn lemma_flags_with_bit(byte: u8, on: bool)
    ensures
        flags_of(with_bit(byte, ENABLE_BIT as u8, on)) == flags_of(byte).with_enabled(on),
        flags_of(with_bit(byte, BLEND_BIT as u8, on)) == flags_of(byte).with_blend(on),
        flags_of(with_bit(byte, OBJECT_BIT as u8, on)) == flags_of(byte).with_object(on),
        forall|slot: u8|
            slot < BACKGROUNDS ==> #[trigger] flags_of(with_bit(byte, slot, on)) == flags_of(
                byte,
            ).with_background(slot as int, on),
{
    lemma_with_bit(byte, 7, on);
    lemma_with_bit(byte, 5, on);
    lemma_with_bit(byte, 4, on);
    lemma_with_bit(byte, 0, on);
    lemma_with_bit(byte, 1, on);
    lemma_with_bit(byte, 2, on);
    lemma_with_bit(byte, 3, on);
}

/// The zero byte holds no flag, and its reserved bit is clear.
pub proof fn lemma_zero_byte()
    ensures
        flags_of(0) == WindowFlags::cleared(),
        !bit_of(0, RESERVED_BIT as u8),
{
    lemma_byte_bits(0);
}

} // verus!
