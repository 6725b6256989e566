//! The clip kernels VCH, VCR and VCL: what each does to one lane.

use crate::lane::{sx, sx16, wrap, wrap16, LaneResult, LaneState};
use vstd::prelude::*;

verus! {

/// The operands have different signs.
pub open spec fn opposite(vs: u16, vt: u16) -> bool {
    (sx16(vs) < 0) != (sx16(vt) < 0)
}

/// VCH, the signed clip that starts from no flag state.
///
/// Where the operands have different signs `vs` is held against `-vt`:
/// carry is set; compare says `vs <= -vt`; clip says `vs >= 0`; the
/// extension flag says `vs == -vt - 1`; not-equal says that `vs` is neither
/// `-vt` nor `-vt - 1`; the result is `-vt` where compare is set, else `vs`.
///
/// Where they have the same sign `vs` is held against `vt`: carry and the
/// extension flag are clear; compare says `vs < 0`; clip says `vs >= vt`;
/// not-equal says `vs != vt`; the result is `vt` where clip is set, else
/// `vs`.
pub open spec fn vch_spec(vs: u16, vt: u16, st: LaneState) -> LaneResult {
    let s = sx16(vs);
    let t = sx16(vt);
    if opposite(vs, vt) {
        let le = s + t <= 0;
        let vd = if le {
            wrap16(-t)
        } else {
            vs
        };
        LaneResult {
            vd,
            st: LaneState {
                lo: vd,
                carry: true,
                ne: s + t != 0 && s + t != -1,
                normal: le,
                clip: s >= 0,
                vce: s + t == -1,
                ..st
            },
        }
    } else {
        let ge = s - t >= 0;
        let vd = if ge {
            vt
        } else {
            vs
        };
        LaneResult {
            vd,
            st: LaneState {
                lo: vd,
                carry: false,
                ne: s != t,
                normal: s < 0,
                clip: ge,
                vce: false,
                ..st
            },
        }
    }
}

/// VCR, the clip in ones' complement: like VCH, but `vs` is held against the
/// complement `-vt - 1` where the signs differ, and carry, not-equal and the
/// extension flag are always left clear.
pub open spec fn vcr_spec(vs: u16, vt: u16, st: LaneState) -> LaneResult {
    let s = sx16(vs);
    let t = sx16(vt);
    if opposite(vs, vt) {
        let le = s + t + 1 <= 0;
        let vd = if le {
            wrap16(-t - 1)
        } else {
            vs
        };
        LaneResult {
            vd,
            st: LaneState {
                lo: vd,
                carry: false,
                ne: false,
                normal: le,
                clip: s >= 0,
                vce: false,
                ..st
            },
        }
    } else {
        let ge = s - t >= 0;
        let vd = if ge {
            vt
        } else {
            vs
        };
        LaneResult {
            vd,
            st: LaneState {
                lo: vd,
                carry: false,
                ne: false,
                normal: s < 0,
                clip: ge,
                vce: false,
                ..st
            },
        }
    }
}

/// VCL, the clip that finishes what VCH began, on unsigned low halves.
///
/// With carry set (VCH saw different signs): compare is kept where
/// not-equal is set; else it is recomputed from the 17-bit sum `vs + vt`:
/// with the extension flag set, the low 16 bits are zero or there is no
/// carry out; with it clear, both. The result is `-vt` where compare is
/// set, else `vs`.
///
/// With carry clear: clip is kept where not-equal is set, else it says
/// `vs >= vt` as unsigned numbers. The result is `vt` where clip is set,
/// else `vs`.
///
/// Carry, not-equal and the extension flag are left clear.
pub open spec fn vcl_spec(vs: u16, vt: u16, st: LaneState) -> LaneResult {
    if st.carry {
        let zero = (vs + vt) % 0x10000 == 0;
        let over = vs + vt > 0xFFFF;
        let le = if st.ne {
            st.normal
        } else if st.vce {
            zero || !over
        } else {
            zero && !over
        };
        let vd = if le {
            wrap16(-(vt as int))
        } else {
            vs
        };
        LaneResult {
            vd,
            st: LaneState { lo: vd, carry: false, ne: false, normal: le, vce: false, ..st },
        }
    } else {
        let ge = if st.ne {
            st.clip
        } else {
            vs >= vt
        };
        let vd = if ge {
            vt
        } else {
            vs
        };
        LaneResult {
            vd,
            st: LaneState { lo: vd, carry: false, ne: false, clip: ge, vce: false, ..st },
        }
    }
}

fn clip_result(
    vd: u16,
    carry: bool,
    ne: bool,
    le: bool,
    ge: bool,
    vce: bool,
    st: LaneState,
) -> (r: LaneResult)
    ensures
        r == (LaneResult {
            vd,
            st: LaneState { lo: vd, carry, ne, normal: le, clip: ge, vce, ..st },
        }),
{
    LaneResult {
        vd,
        st: LaneState { lo: vd, md: st.md, hi: st.hi, carry, ne, normal: le, clip: ge, vce },
    }
}

pub fn vch(vs: u16, vt: u16, st: LaneState) -> (r: LaneResult)
    ensures
        r == vch_spec(vs, vt, st),
{
    let s = sx(vs);
    let t = sx(vt);
    if (s < 0) != (t < 0) {
        let le = s + t <= 0;
        let vd = if le {
            wrap(-t)
        } else {
            vs
        };
        clip_result(vd, true, s + t != 0 && s + t != -1, le, s >= 0, s + t == -1, st)
    } else {
        let ge = s - t >= 0;
        let vd = if ge {
            vt
        } else {
            vs
        };
        clip_result(vd, false, s != t, s < 0, ge, false, st)
    }
}

pub fn vcr(vs: u16, vt: u16, st: LaneState) -> (r: LaneResult)
    ensures
        r == vcr_spec(vs, vt, st),
{
    let s = sx(vs);
    let t = sx(vt);
    if (s < 0) != (t < 0) {
        let le = s + t + 1 <= 0;
        let vd = if le {
            wrap(-t - 1)
        } else {
            vs
        };
        clip_result(vd, false, false, le, s >= 0, false, st)
    } else {
        let ge = s - t >= 0;
        let vd = if ge {
            vt
        } else {
            vs
        };
        clip_result(vd, false, false, s < 0, ge, false, st)
    }
}

pub fn vcl(vs: u16, vt: u16, st: LaneState) -> (r: LaneResult)
    ensures
        r == vcl_spec(vs, vt, st),
{
    if st.carry {
        let sum: u32 = vs as u32 + vt as u32;
        let zero = sum % 0x10000 == 0;
        let over = sum > 0xFFFF;
        let le = if st.ne {
            st.normal
        } else if st.vce {
            zero || !over
        } else {
            zero && !over
        };
        let vd = if le {
            wrap(-(vt as i32))
        } else {
            vs
        };
        clip_result(vd, false, false, le, st.clip, false, st)
    } else {
        let ge = if st.ne {
            st.clip
        } else {
            vs >= vt
        };
        let vd = if ge {
            vt
        } else {
            vs
        };
        clip_result(vd, false, false, st.normal, ge, false, st)
    }
}

} // verus!
