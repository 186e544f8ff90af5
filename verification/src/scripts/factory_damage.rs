//! The scorch marks on a wounded factory: three frames of damage art, cycling
//! every four frames. How wounded a factory must be for which art, and the
//! flicker it is drawn with, are the renderer's; which frame shows is counted
//! here.
use vstd::prelude::*;

verus! {

/// `a / 4` rounded toward zero, as integer division does.
pub open spec fn quarter_toward_zero(a: int) -> int {
    if a >= 0 {
        a / 4
    } else {
        -((-a) / 4)
    }
}

/// The frame of damage art showing `time` frames after the factory was built:
/// 1, 2 or 3, each held for four frames.
pub open spec fn damage_frame(time: int) -> int {
    quarter_toward_zero(time) % 3 + 1
}

/// Which of the three frames of damage art is showing, `time` frames after
/// the factory was built.
pub fn frame(time: i64) -> (f: usize)
    ensures
        f == damage_frame(time as int),
        1 <= f <= 3,
{
    let q: i64 = if time >= 0 {
        time / 4
    } else {
        let magnitude: i128 = -(time as i128);
        -((magnitude / 4) as i64)
    };
    let r: i64 = if time >= 0 {
        q % 3
    } else {
        let m: i128 = (-(q as i128)) % 3;
        if m == 0 {
            0
        } else {
            (3 - m) as i64
        }
    };
    (r + 1) as usize
}

} // verus!
