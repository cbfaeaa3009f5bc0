//! A verified model of a safe API surface for the LVGL 9 graphics library.
//!
//! The crate mirrors the value layer of an LVGL binding: typed event codes,
//! widget state and flag sets, colors, geometry, style properties and the
//! observable state of each widget handle.  Every conversion to and from the
//! C ABI's integer codes is specified exactly, and every setter states how
//! the handle's observable state changes.

pub mod anim;
pub mod color;
pub mod display;
pub mod drivers;
pub mod event;
pub mod font;
pub mod fragment;
pub mod group;
pub mod indev;
pub mod layout;
pub mod observer;
pub mod scroll;
pub mod style;
pub mod sync;
pub mod timer;
pub mod widgets;
pub mod xml;

use vstd::prelude::*;

verus! {

/// The LVGL major version line this API models.
pub fn version_info() -> (r: &'static str)
    ensures
        r@ == "9.x"@,
{
    "9.x"
}

/// Copy a byte slice into a fresh vector.
pub fn copy_bytes(src: &[u8]) -> (v: Vec<u8>)
    ensures
        v@ == src@,
{
    let mut v: Vec<u8> = Vec::new();
    let mut i: usize = 0;
    while i < src.len()
        invariant
            i <= src.len(),
            v@ == src@.subrange(0, i as int),
        decreases src.len() - i,
    {
        v.push(src[i]);
        i = i + 1;
        proof {
            assert(v@ == src@.subrange(0, i as int));
        }
    }
    proof {
        assert(src@.subrange(0, src@.len() as int) == src@);
    }
    v
}

} // verus!
