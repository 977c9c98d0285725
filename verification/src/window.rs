//! The windows of the display: their cached settings, and the commit that
//! writes those settings to the registers.

use vstd::prelude::*;
use crate::background::{BackgroundID, BACKGROUNDS};
use crate::bits::{
    bit_of, lemma_fields_by_arithmetic, lemma_read_after_write, lemma_write_keeps_disjoint_field,
    set_bit, with_bit, write_field,
};
use crate::flags::{
    flags_of, lemma_byte_of_flags, lemma_flags_with_bit, lemma_zero_byte, weighed, WindowFlags,
    BLEND_BIT, ENABLE_BIT, OBJECT_BIT, RESERVED_BIT,
};
use crate::geometry::{edges_fit, empty, on_screen, to_screen, Rect, Vector2D, HEIGHT, WIDTH};
use crate::registers::{
    is_register, register_address, register_at, Registers, DISPLAY_CONTROL, REG_HORIZONTAL_BASE,
    REG_VERTICAL_BASE, REG_WINDOW_CONTROL_BASE,
};

verus! {

/// Number of window slots whose flags the control registers hold.
pub const SLOTS: usize = 4;

/// Number of those slots that have extent registers: the first two.
pub const MOVABLE_SLOTS: usize = 2;

/// The registers `regs` after the flag byte `byte` was written to the
/// control field of slot `id`. Two slots share one control register: the
/// even slot has its low byte, the odd slot its high byte.
pub open spec fn with_control(regs: Map<u32, u16>, id: int, byte: u8) -> Map<u32, u16> {
    let address = register_at(REG_WINDOW_CONTROL_BASE, id / 2);
    regs.insert(address, write_field(regs[address], byte as u16, 8, ((id % 2) * 8) as u16))
}

/// Writing the flag byte of a slot puts the byte into the slot's half of its
/// control register, and keeps the other half and every other register.
pub proof fn lemma_with_control(regs: Map<u32, u16>, id: int, byte: u8)
    requires
        0 <= id < SLOTS,
    ensures
        ({
            let address = register_at(REG_WINDOW_CONTROL_BASE, id / 2);
            let after = with_control(regs, id, byte);
            &&& after.dom() == regs.dom().insert(address)
            &&& forall|other: u32| other != address ==> after[other] == regs[other]
            &&& id % 2 == 0 ==> after[address] % 256 == byte && after[address] / 256
                == regs[address] / 256
            &&& id % 2 == 1 ==> after[address] / 256 == byte && after[address] % 256
                == regs[address] % 256
        }),
{
    let address = register_at(REG_WINDOW_CONTROL_BASE, id / 2);
    let reg = regs[address];
    let shift = ((id % 2) * 8) as u16;
    let written = write_field(reg, byte as u16, 8, shift);
    lemma_fields_by_arithmetic(reg);
    lemma_fields_by_arithmetic(written);
    lemma_fields_by_arithmetic(byte as u16);
    lemma_read_after_write(reg, byte as u16, 8, shift);
    lemma_write_keeps_disjoint_field(reg, byte as u16, 8, shift, 8, (8 - shift) as u16);
    assert((byte as u16) & 255 == byte as u16) by (bit_vector);
}

/// Where the flags of slot `id` lie: the index of the control register, and
/// the position in it of the lowest bit of the slot's byte.
pub fn control_field(id: usize) -> (place: (usize, u16))
    requires
        id < SLOTS,
    ensures
        place.0 == id / 2,
        place.1 == (id % 2) * 8,
{
    (id / 2, ((id % 2) * 8) as u16)
}

/// What an extent register holds for a side that starts at `start` and is
/// `length` long: the near edge in its high byte, the far edge in its low
/// byte.
pub open spec fn extent(start: u8, length: u8) -> int {
    start * 256 + (start + length)
}

/// Packs the two edges of a side into the value of an extent register.
pub fn edge_pair(start: u8, length: u8) -> (packed: u16)
    requires
        start + length <= u8::MAX,
    ensures
        packed == extent(start, length),
{
    let near: u16 = start as u16;
    let far: u16 = (start + length) as u16;
    assert((near << 8) | far == near * 256 + far) by (bit_vector)
        requires
            near < 256,
            far < 256,
    ;
    near << 8 | far
}

/// The flags of one window.
pub struct Window {
    window_bits: u8,
}

impl View for Window {
    type V = WindowFlags;

    open spec fn view(&self) -> WindowFlags {
        flags_of(self.bits())
    }
}

impl Window {
    /// The window's flag byte.
    pub closed spec fn spec_bits(&self) -> u8 {
        self.window_bits
    }

    /// A window is well formed when the reserved bit of its flag byte is
    /// clear.
    #[verifier::type_invariant]
    pub open spec fn wf(&self) -> bool {
        !bit_of(self.bits(), RESERVED_BIT as u8)
    }

    /// A window with no flag set.
    pub fn new() -> (window: Window)
        ensures
            window.bits() == 0,
            window@ == WindowFlags::cleared(),
    {
        proof {
            lemma_zero_byte();
        }
        Self { window_bits: 0 }
    }

    /// The window's flag byte, as the control register holds it: the byte
    /// of the window's flags, with the reserved bit clear.
    #[verifier::when_used_as_spec(spec_bits)]
    pub fn bits(&self) -> (byte: u8)
        ensures
            byte == self.bits(),
            byte == self@.byte(),
            !bit_of(byte, RESERVED_BIT as u8),
            self.wf(),
    {
        proof {
            use_type_invariant(self);
            lemma_byte_of_flags(self.window_bits);
        }
        self.window_bits
    }

    /// Enables the window.
    pub fn enable(&mut self) -> (ret: &mut Self)
        ensures
            ret.bits() == with_bit(old(self).bits(), ENABLE_BIT as u8, true),
            ret@ == old(self)@.with_enabled(true),
            *final(self) == *final(ret),
    {
        self.set_bit(ENABLE_BIT, true);
        self
    }

    /// Disables the window.
    pub fn disable(&mut self) -> (ret: &mut Self)
        ensures
            ret.bits() == with_bit(old(self).bits(), ENABLE_BIT as u8, false),
            ret@ == old(self)@.with_enabled(false),
            *final(self) == *final(ret),
    {
        self.set_bit(ENABLE_BIT, false);
        self
    }

    /// Whether the window is enabled.
    pub fn is_enabled(&self) -> (enabled: bool)
        ensures
            enabled == self@.enabled,
    {
        let byte = self.window_bits;
        assert(((byte >> 7u8) != 0) == bit_of(byte, 7)) by (bit_vector);
        (self.window_bits >> 7u8) != 0
    }

    /// The window's flags by name.
    pub fn flags(&self) -> (flags: WindowFlags)
        ensures
            flags == self@,
    {
        let byte = self.window_bits;
        WindowFlags {
            enabled: (byte >> 7u8) & 1 == 1,
            blend: (byte >> 5u8) & 1 == 1,
            object: (byte >> 4u8) & 1 == 1,
            background0: (byte >> 0u8) & 1 == 1,
            background1: (byte >> 1u8) & 1 == 1,
            background2: (byte >> 2u8) & 1 == 1,
            background3: (byte >> 3u8) & 1 == 1,
        }
    }

    /// Replaces one bit of the flag byte and keeps the others.
    fn set_bit(&mut self, bit: usize, value: bool)
        requires
            bit < 8,
            bit != RESERVED_BIT,
        ensures
            final(self).bits() == with_bit(old(self).bits(), bit as u8, value),
            bit == ENABLE_BIT ==> final(self)@ == old(self)@.with_enabled(value),
            bit == BLEND_BIT ==> final(self)@ == old(self)@.with_blend(value),
            bit == OBJECT_BIT ==> final(self)@ == old(self)@.with_object(value),
            bit < BACKGROUNDS ==> final(self)@ == old(self)@.with_background(bit as int, value),
    {
        proof {
            use_type_invariant(&*self);
            lemma_flags_with_bit(self.window_bits, value);
        }
        self.window_bits = set_bit(self.window_bits, bit, value);
    }

    /// Clears every flag of the window.
    pub fn reset(&mut self) -> (ret: &mut Self)
        ensures
            ret.bits() == 0,
            ret@ == WindowFlags::cleared(),
            *final(self) == *final(ret),
    {
        *self = Self::new();
        self
    }

    /// Lets the window blend, or not.
    pub fn set_blend_enable(&mut self, blnd: bool) -> (ret: &mut Self)
        ensures
            ret.bits() == with_bit(old(self).bits(), BLEND_BIT as u8, blnd),
            ret@ == old(self)@.with_blend(blnd),
            *final(self) == *final(ret),
    {
        self.set_bit(BLEND_BIT, blnd);
        self
    }

    /// Shows the background layer `back` in the window, or hides it.
    pub fn set_background_enable(&mut self, back: BackgroundID, enable: bool) -> (ret: &mut Self)
        ensures
            ret.bits() == with_bit(old(self).bits(), back.slot(), enable),
            ret@ == old(self)@.with_background(back.slot() as int, enable),
            *final(self) == *final(ret),
    {
        self.set_bit(back.index() as usize, enable);
        self
    }

    /// Shows the objects in the window, or hides them.
    pub fn set_object_enable(&mut self, obj: bool) -> (ret: &mut Self)
        ensures
            ret.bits() == with_bit(old(self).bits(), OBJECT_BIT as u8, obj),
            ret@ == old(self)@.with_object(obj),
            *final(self) == *final(ret),
    {
        self.set_bit(OBJECT_BIT, obj);
        self
    }

    /// The registers `regs` after this window was committed as slot `id`.
    pub open spec fn committed(&self, id: int, regs: Map<u32, u16>) -> Map<u32, u16> {
        with_control(regs, id, self.bits())
    }

    /// Writes the window's flag byte to the control field of slot `id`. The
    /// other byte of that control register, and every other register, stay
    /// as they are.
    pub fn commit(&self, id: usize, regs: &mut Registers)
        requires
            id < SLOTS,
        ensures
            final(regs)@ == self.committed(id as int, old(regs)@),
    {
        let (base_reg, offset_in_reg) = control_field(id);
        let address = register_address(REG_WINDOW_CONTROL_BASE, base_reg);
        regs.set_bits(address, self.window_bits as u16, 8, offset_in_reg);
    }
}

/// A window with a place on the screen.
pub struct MovableWindow {
    inner: Window,
    rect: Rect<u8>,
}

impl View for MovableWindow {
    type V = (WindowFlags, Rect<u8>);

    open spec fn view(&self) -> (WindowFlags, Rect<u8>) {
        (flags_of(self.bits()), self.rect())
    }
}

impl MovableWindow {
    /// The window's flag byte.
    pub closed spec fn spec_bits(&self) -> u8 {
        self.inner.bits()
    }

    /// The rectangle that the window covers.
    pub closed spec fn spec_rect(&self) -> Rect<u8> {
        self.rect
    }

    /// A movable window is well formed when the reserved bit of its flag
    /// byte is clear.
    pub open spec fn wf(&self) -> bool {
        !bit_of(self.bits(), RESERVED_BIT as u8)
    }

    /// A window with no flag set and an empty rectangle in the top left
    /// corner.
    pub fn new() -> (window: MovableWindow)
        ensures
            window.bits() == 0,
            window@.0 == WindowFlags::cleared(),
            window.rect() == empty(),
    {
        Self { inner: Window::new(), rect: Rect::new(Vector2D::new(0, 0), Vector2D::new(0, 0)) }
    }

    /// The window's flag byte, as the control register holds it: the byte
    /// of the window's flags, with the reserved bit clear.
    #[verifier::when_used_as_spec(spec_bits)]
    pub fn bits(&self) -> (byte: u8)
        ensures
            byte == self.bits(),
            byte == self@.0.byte(),
            !bit_of(byte, RESERVED_BIT as u8),
            self.wf(),
    {
        self.inner.bits()
    }

    /// The rectangle that the window covers.
    #[verifier::when_used_as_spec(spec_rect)]
    pub fn rect(&self) -> (rect: Rect<u8>)
        ensures
            rect == self.rect(),
    {
        self.rect
    }

    /// The window's flags by name.
    pub fn flags(&self) -> (flags: WindowFlags)
        ensures
            flags == self@.0,
    {
        self.inner.flags()
    }

    /// Enables the window.
    pub fn enable(&mut self) -> (ret: &mut Self)
        ensures
            ret.bits() == with_bit(old(self).bits(), ENABLE_BIT as u8, true),
            ret@ == (old(self)@.0.with_enabled(true), old(self).rect()),
            *final(self) == *final(ret),
    {
        self.inner.enable();
        self
    }

    /// Disables the window.
    pub fn disable(&mut self) -> (ret: &mut Self)
        ensures
            ret.bits() == with_bit(old(self).bits(), ENABLE_BIT as u8, false),
            ret@ == (old(self)@.0.with_enabled(false), old(self).rect()),
            *final(self) == *final(ret),
    {
        self.inner.disable();
        self
    }

    /// Whether the window is enabled.
    pub fn is_enabled(&self) -> (enabled: bool)
        ensures
            enabled == self@.0.enabled,
    {
        self.inner.is_enabled()
    }

    /// Clears every flag of the window and empties its rectangle.
    pub fn reset(&mut self) -> (ret: &mut Self)
        ensures
            ret.bits() == 0,
            ret@.0 == WindowFlags::cleared(),
            ret.rect() == empty(),
            *final(self) == *final(ret),
    {
        *self = Self::new();
        self
    }

    /// Lets the window blend, or not.
    pub fn set_blend_enable(&mut self, blnd: bool) -> (ret: &mut Self)
        ensures
            ret.bits() == with_bit(old(self).bits(), BLEND_BIT as u8, blnd),
            ret@ == (old(self)@.0.with_blend(blnd), old(self).rect()),
            *final(self) == *final(ret),
    {
        self.inner.set_blend_enable(blnd);
        self
    }

    /// Shows the background layer `back` in the window, or hides it.
    pub fn set_background_enable(&mut self, back: BackgroundID, enable: bool) -> (ret: &mut Self)
        ensures
            ret.bits() == with_bit(old(self).bits(), back.slot(), enable),
            ret@ == (old(self)@.0.with_background(back.slot() as int, enable), old(self).rect()),
            *final(self) == *final(ret),
    {
        self.inner.set_background_enable(back, enable);
        self
    }

    /// Shows the objects in the window, or hides them.
    pub fn set_object_enable(&mut self, obj: bool) -> (ret: &mut Self)
        ensures
            ret.bits() == with_bit(old(self).bits(), OBJECT_BIT as u8, obj),
            ret@ == (old(self)@.0.with_object(obj), old(self).rect()),
            *final(self) == *final(ret),
    {
        self.inner.set_object_enable(obj);
        self
    }

    /// The registers `regs` after this window was committed as slot `id`:
    /// its flag byte in the control field of the slot, its left and right
    /// edge in the slot's horizontal extent register, its top and bottom
    /// edge in the slot's vertical extent register.
    pub open spec fn committed(&self, id: int, regs: Map<u32, u16>) -> Map<u32, u16> {
        with_control(regs, id, self.bits()).insert(
            register_at(REG_HORIZONTAL_BASE, id),
            extent(self.rect().position.x, self.rect().size.x) as u16,
        ).insert(
            register_at(REG_VERTICAL_BASE, id),
            extent(self.rect().position.y, self.rect().size.y) as u16,
        )
    }

    /// Writes the window's flag byte to the control field of slot `id`, and
    /// its edges to the extent registers of that slot.
    pub fn commit(&self, id: usize, regs: &mut Registers)
        requires
            id < MOVABLE_SLOTS,
            edges_fit(self.rect()),
        ensures
            final(regs)@ == self.committed(id as int, old(regs)@),
    {
        self.inner.commit(id, regs);

        let left_right = edge_pair(self.rect.position.x, self.rect.size.x);
        let top_bottom = edge_pair(self.rect.position.y, self.rect.size.y);
        regs.write(register_address(REG_HORIZONTAL_BASE, id), left_right);
        regs.write(register_address(REG_VERTICAL_BASE, id), top_bottom);
    }

    /// Places the window at `rect`, which is stored as it is.
    pub fn set_position_u8(&mut self, rect: Rect<u8>) -> (ret: &mut Self)
        ensures
            ret.rect() == rect,
            ret.bits() == old(self).bits(),
            *final(self) == *final(ret),
    {
        self.rect = rect;
        self
    }

    /// Places the window at `rect`, given in screen coordinates: the corner
    /// is brought onto the screen, and of each side of the size the lowest
    /// eight bits are stored.
    pub fn set_position(&mut self, rect: &Rect<i32>) -> (ret: &mut Self)
        ensures
            ret.rect() == on_screen(*rect),
            ret.rect().position.x <= WIDTH,
            ret.rect().position.y <= HEIGHT,
            ret.bits() == old(self).bits(),
            *final(self) == *final(ret),
    {
        let new_rect = to_screen(rect);
        self.set_position_u8(new_rect)
    }
}

/// Names one of the two movable windows.
#[derive(Clone, Copy, Debug)]
pub enum WinIn {
    Win0,
    Win1,
}

impl WinIn {
    /// The slot of the window: 0 or 1.
    pub open spec fn slot(self) -> int {
        match self {
            WinIn::Win0 => 0,
            WinIn::Win1 => 1,
        }
    }

    /// The other movable window.
    pub open spec fn other(self) -> WinIn {
        match self {
            WinIn::Win0 => WinIn::Win1,
            WinIn::Win1 => WinIn::Win0,
        }
    }

    /// The slot of the window: 0 or 1.
    pub fn index(self) -> (slot: usize)
        ensures
            slot == self.slot(),
    {
        match self {
            WinIn::Win0 => 0,
            WinIn::Win1 => 1,
        }
    }
}

/// Position in the display control register of the lowest bit of the
/// window enable field.
pub const SUMMARY_SHIFT: u16 = 0xD;

/// Number of bits of the window enable field.
pub const SUMMARY_LENGTH: u16 = 3;

/// The window enable field: bit 0 for the first movable window, bit 1 for
/// the second, bit 2 for the object window.
pub open spec fn summary(window0: bool, window1: bool, objects: bool) -> int {
    weighed(window0, 1) + weighed(window1, 2) + weighed(objects, 4)
}

/// The registers `regs` after `enabled_bits` was written to the window
/// enable field of the display control register.
pub open spec fn with_summary(regs: Map<u32, u16>, enabled_bits: u16) -> Map<u32, u16> {
    regs.insert(
        DISPLAY_CONTROL,
        write_field(regs[DISPLAY_CONTROL], enabled_bits, SUMMARY_LENGTH, SUMMARY_SHIFT),
    )
}

/// The four windows of the display: two movable ones, the one outside all
/// others, and the one that the objects shape.
pub struct Windows {
    wins: [MovableWindow; 2],
    out: Window,
    obj: Window,
}

impl Windows {
    /// The movable window that `id` names.
    pub closed spec fn inside(&self, id: WinIn) -> MovableWindow {
        self.wins[id.slot()]
    }

    /// The window outside all others.
    pub closed spec fn outside(&self) -> Window {
        self.out
    }

    /// The object window.
    pub closed spec fn objects(&self) -> Window {
        self.obj
    }

    /// Whether the edges of both movable windows fit in a byte each.
    pub open spec fn spec_edges_fit(&self) -> bool {
        edges_fit(self.inside(WinIn::Win0).rect()) && edges_fit(self.inside(WinIn::Win1).rect())
    }

    /// Whether `after` holds, register by register, what a commit of these
    /// windows leaves in registers that held `before`: each control
    /// register holds the flag bytes of its two slots, each extent register
    /// the edges of its movable window, and the display control register
    /// the window enable field in its top three bits, above the thirteen
    /// bits that it held before. Nothing else differs.
    pub open spec fn laid_out(&self, before: Map<u32, u16>, after: Map<u32, u16>) -> bool {
        let window0 = self.inside(WinIn::Win0);
        let window1 = self.inside(WinIn::Win1);
        &&& forall|address: u32|
            after.dom().contains(address) <==> before.dom().contains(address) || is_register(
                address,
            )
        &&& forall|address: u32| !is_register(address) ==> after[address] == before[address]
        &&& after[register_at(REG_WINDOW_CONTROL_BASE, 0)] == window0.bits() + 256
            * window1.bits()
        &&& after[register_at(REG_WINDOW_CONTROL_BASE, 1)] == self.outside().bits() + 256
            * self.objects().bits()
        &&& after[register_at(REG_HORIZONTAL_BASE, 0)] == extent(
            window0.rect().position.x,
            window0.rect().size.x,
        ) as u16
        &&& after[register_at(REG_HORIZONTAL_BASE, 1)] == extent(
            window1.rect().position.x,
            window1.rect().size.x,
        ) as u16
        &&& after[register_at(REG_VERTICAL_BASE, 0)] == extent(
            window0.rect().position.y,
            window0.rect().size.y,
        ) as u16
        &&& after[register_at(REG_VERTICAL_BASE, 1)] == extent(
            window1.rect().position.y,
            window1.rect().size.y,
        ) as u16
        &&& after[DISPLAY_CONTROL] / 8192 == self.enable_summary()
        &&& after[DISPLAY_CONTROL] % 8192 == before[DISPLAY_CONTROL] % 8192
    }

    /// The window enable field for these windows. The window outside has no
    /// bit in it.
    pub open spec fn spec_enable_summary(&self) -> u16 {
        summary(
            self.inside(WinIn::Win0)@.0.enabled,
            self.inside(WinIn::Win1)@.0.enabled,
            self.objects()@.enabled,
        ) as u16
    }

    /// The registers `regs` after all four windows were committed: the
    /// movable windows as slots 0 and 1, the window outside as slot 2, the
    /// object window as slot 3, and then the window enable field of the
    /// display control register.
    pub open spec fn committed(&self, regs: Map<u32, u16>) -> Map<u32, u16> {
        let first = self.inside(WinIn::Win0).committed(0, regs);
        let second = self.inside(WinIn::Win1).committed(1, first);
        let third = self.outside().committed(2, second);
        let fourth = self.objects().committed(3, third);
        with_summary(fourth, self.enable_summary())
    }

    /// A commit leaves the registers laid out as the windows say.
    pub proof fn lemma_committed(&self, regs: Map<u32, u16>)
        ensures
            self.laid_out(regs, self.committed(regs)),
    {
        let window0 = self.inside(WinIn::Win0);
        let window1 = self.inside(WinIn::Win1);
        let first = window0.committed(0, regs);
        let second = window1.committed(1, first);
        let third = self.outside().committed(2, second);
        let fourth = self.objects().committed(3, third);
        lemma_with_control(regs, 0, window0.bits());
        lemma_with_control(first, 1, window1.bits());
        lemma_with_control(second, 2, self.outside().bits());
        lemma_with_control(third, 3, self.objects().bits());
        let held = fourth[DISPLAY_CONTROL];
        let summary = self.enable_summary();
        let written = write_field(held, summary, SUMMARY_LENGTH, SUMMARY_SHIFT);
        lemma_fields_by_arithmetic(held);
        lemma_fields_by_arithmetic(written);
        lemma_read_after_write(held, summary, SUMMARY_LENGTH, SUMMARY_SHIFT);
        lemma_write_keeps_disjoint_field(held, summary, SUMMARY_LENGTH, SUMMARY_SHIFT, 13, 0);
        assert(summary < 8 ==> summary & 7 == summary) by (bit_vector);
    }

    /// The window outside has no part in the window enable field: windows
    /// that agree in the other three have the same field.
    pub proof fn lemma_summary_ignores_outside(&self, other: Windows)
        requires
            self.inside(WinIn::Win0)@.0.enabled == other.inside(WinIn::Win0)@.0.enabled,
            self.inside(WinIn::Win1)@.0.enabled == other.inside(WinIn::Win1)@.0.enabled,
            self.objects()@.enabled == other.objects()@.enabled,
        ensures
            self.enable_summary() == other.enable_summary(),
    {
    }

    /// Four windows with no flag set and empty rectangles, committed to
    /// `regs` at once.
    pub fn new(regs: &mut Registers) -> (windows: Self)
        ensures
            windows.inside(WinIn::Win0).bits() == 0,
            windows.inside(WinIn::Win1).bits() == 0,
            windows.outside().bits() == 0,
            windows.objects().bits() == 0,
            windows.inside(WinIn::Win0).rect() == empty(),
            windows.inside(WinIn::Win1).rect() == empty(),
            windows.enable_summary() == 0,
            final(regs)@ == windows.committed(old(regs)@),
            windows.laid_out(old(regs)@, final(regs)@),
    {
        let s = Self {
            wins: [MovableWindow::new(), MovableWindow::new()],
            out: Window::new(),
            obj: Window::new(),
        };
        s.commit(regs);
        s
    }

    /// The window outside all others, to be configured.
    pub fn win_out(&mut self) -> (ret: &mut Window)
        ensures
            *ret == old(self).outside(),
            final(self).outside() == *final(ret),
            final(self).objects() == old(self).objects(),
            forall|id: WinIn| final(self).inside(id) == old(self).inside(id),
    {
        &mut self.out
    }

    /// The movable window that `id` names, to be configured.
    pub fn win_in(&mut self, id: WinIn) -> (ret: &mut MovableWindow)
        ensures
            *ret == old(self).inside(id),
            final(self).inside(id) == *final(ret),
            final(self).inside(id.other()) == old(self).inside(id.other()),
            final(self).outside() == old(self).outside(),
            final(self).objects() == old(self).objects(),
    {
        &mut self.wins[id.index()]
    }

    /// The object window, to be configured.
    pub fn win_obj(&mut self) -> (ret: &mut Window)
        ensures
            *ret == old(self).objects(),
            final(self).objects() == *final(ret),
            final(self).outside() == old(self).outside(),
            forall|id: WinIn| final(self).inside(id) == old(self).inside(id),
    {
        &mut self.obj
    }

    /// Whether the edges of both movable windows fit in a byte each.
    #[verifier::when_used_as_spec(spec_edges_fit)]
    pub fn edges_fit(&self) -> (fit: bool)
        ensures
            fit == self.edges_fit(),
    {
        edges_fit(self.wins[0].rect()) && edges_fit(self.wins[1].rect())
    }

    /// The window enable field for these windows.
    #[verifier::when_used_as_spec(spec_enable_summary)]
    pub fn enable_summary(&self) -> (enabled_bits: u16)
        ensures
            enabled_bits == self.enable_summary(),
            enabled_bits < 8,
    {
        let objects = self.obj.is_enabled() as u16;
        let second = self.wins[1].is_enabled() as u16;
        let first = self.wins[0].is_enabled() as u16;
        assert(((objects << 2) | (second << 1) | first) == first + 2 * second + 4 * objects)
            by (bit_vector)
            requires
                objects < 2,
                second < 2,
                first < 2,
        ;
        (objects << 2) | (second << 1) | first
    }

    /// Commits the four windows, each to its slot, and then writes the
    /// window enable field of the display control register. The other bits
    /// of that register stay as they are.
    pub fn commit(&self, regs: &mut Registers)
        requires
            self.edges_fit(),
        ensures
            final(regs)@ == self.committed(old(regs)@),
            self.laid_out(old(regs)@, final(regs)@),
    {
        let ghost before = regs@;
        proof {
            self.lemma_committed(before);
        }
        let mut id: usize = 0;
        while id < MOVABLE_SLOTS
            invariant
                id <= MOVABLE_SLOTS,
                self.edges_fit(),
                regs@ == if id == 0 {
                    before
                } else if id == 1 {
                    self.inside(WinIn::Win0).committed(0, before)
                } else {
                    self.inside(WinIn::Win1).committed(
                        1,
                        self.inside(WinIn::Win0).committed(0, before),
                    )
                },
            decreases MOVABLE_SLOTS - id,
        {
            self.wins[id].commit(id, regs);
            id += 1;
        }
        self.out.commit(2, regs);
        self.obj.commit(3, regs);

        let enabled_bits = self.enable_summary();
        regs.set_bits(DISPLAY_CONTROL, enabled_bits, SUMMARY_LENGTH, SUMMARY_SHIFT);
    }
}

} // verus!
