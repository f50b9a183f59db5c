use vstd::prelude::*;

verus! {

/// The extended window style bit that makes a window layered, which input
/// transparency requires (`WS_EX_LAYERED`).
pub const LAYERED_STYLE: i32 = 0x0008_0000;

/// The extended window style bit that lets mouse and keyboard input pass
/// through the window to whatever lies beneath it (`WS_EX_TRANSPARENT`).
pub const TRANSPARENT_STYLE: i32 = 0x0000_0020;

/// The extended style that results from `style` when click-through is switched
/// on (`enable`) or off: the layered bit is always set, the transparent bit is
/// set or cleared, and every other bit is kept.
pub open spec fn click_through_style_spec(style: i32, enable: bool) -> i32 {
    if enable {
        style | LAYERED_STYLE | TRANSPARENT_STYLE
    } else {
        (style | LAYERED_STYLE) & !TRANSPARENT_STYLE
    }
}

/// The extended window style to store so that a window whose current extended
/// style is `style` passes input through (`enable`) or receives it again.
pub fn click_through_style(style: i32, enable: bool) -> (r: i32)
    ensures
        r == click_through_style_spec(style, enable),
{
    let with_layer = style | LAYERED_STYLE;
    if enable {
        with_layer | TRANSPARENT_STYLE
    } else {
        with_layer & !TRANSPARENT_STYLE
    }
}

/// The new style is layered, is transparent exactly when click-through is on,
/// and keeps every other bit of the old style.
pub proof fn lemma_click_through_bits(style: i32, enable: bool)
    ensures
        click_through_style_spec(style, enable) & LAYERED_STYLE == LAYERED_STYLE,
        (click_through_style_spec(style, enable) & TRANSPARENT_STYLE == TRANSPARENT_STYLE)
            == enable,
        (click_through_style_spec(style, enable) & TRANSPARENT_STYLE == 0) == !enable,
        click_through_style_spec(style, enable) & !(LAYERED_STYLE | TRANSPARENT_STYLE) == style
            & !(LAYERED_STYLE | TRANSPARENT_STYLE),
{
    let on = style | 0x0008_0000i32 | 0x0000_0020i32;
    let off = (style | 0x0008_0000i32) & !0x0000_0020i32;
    assert(on & 0x0008_0000i32 == 0x0008_0000i32) by (bit_vector)
        requires
            on == style | 0x0008_0000i32 | 0x0000_0020i32,
    ;
    assert(on & 0x0000_0020i32 == 0x0000_0020i32) by (bit_vector)
        requires
            on == style | 0x0008_0000i32 | 0x0000_0020i32,
    ;
    assert(on & !(0x0008_0000i32 | 0x0000_0020i32) == style & !(0x0008_0000i32 | 0x0000_0020i32))
        by (bit_vector)
        requires
            on == style | 0x0008_0000i32 | 0x0000_0020i32,
    ;
    assert(off & 0x0008_0000i32 == 0x0008_0000i32) by (bit_vector)
        requires
            off == (style | 0x0008_0000i32) & !0x0000_0020i32,
    ;
    assert(off & 0x0000_0020i32 == 0) by (bit_vector)
        requires
            off == (style | 0x0008_0000i32) & !0x0000_0020i32,
    ;
    assert(off & !(0x0008_0000i32 | 0x0000_0020i32) == style & !(0x0008_0000i32
        | 0x0000_0020i32)) by (bit_vector)
        requires
            off == (style | 0x0008_0000i32) & !0x0000_0020i32,
    ;
}

/// Switching click-through on, or off, a second time changes nothing.
pub proof fn lemma_click_through_idempotent(style: i32, enable: bool)
    ensures
        click_through_style_spec(click_through_style_spec(style, enable), enable)
            == click_through_style_spec(style, enable),
{
    let on = style | 0x0008_0000i32 | 0x0000_0020i32;
    let off = (style | 0x0008_0000i32) & !0x0000_0020i32;
    assert(on | 0x0008_0000i32 | 0x0000_0020i32 == on) by (bit_vector)
        requires
            on == style | 0x0008_0000i32 | 0x0000_0020i32,
    ;
    assert((off | 0x0008_0000i32) & !0x0000_0020i32 == off) by (bit_vector)
        requires
            off == (style | 0x0008_0000i32) & !0x0000_0020i32,
    ;
}

/// Switching click-through off after switching it on clears exactly the
/// transparent bit of the style it had set, and leaves the window layered.
pub proof fn lemma_disable_after_enable(style: i32)
    ensures
        click_through_style_spec(click_through_style_spec(style, true), false)
            == click_through_style_spec(style, true) & !TRANSPARENT_STYLE,
        click_through_style_spec(click_through_style_spec(style, true), false) & LAYERED_STYLE
            == LAYERED_STYLE,
        click_through_style_spec(click_through_style_spec(style, true), false) & TRANSPARENT_STYLE
            == 0,
{
    let on = style | 0x0008_0000i32 | 0x0000_0020i32;
    let off = (on | 0x0008_0000i32) & !0x0000_0020i32;
    assert(off == on & !0x0000_0020i32) by (bit_vector)
        requires
            on == style | 0x0008_0000i32 | 0x0000_0020i32,
            off == (on | 0x0008_0000i32) & !0x0000_0020i32,
    ;
    lemma_click_through_bits(on, false);
}

} // verus!
