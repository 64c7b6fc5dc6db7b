//! Laws that relate several instructions, proved over the model in `state`.
use vstd::prelude::*;

use crate::state::{Chip8State, VF};

verus! {

/// A `CALL` followed by a `RET` brings back the program counter that was
/// current just before the `CALL`, and the stack depth it had then.
pub proof fn lemma_call_then_ret(s: Chip8State, call: u16, random: u8, random_after: u8)
    requires
        s.wf(),
        call >> 12u16 == 2,
        s.sp < 16,
    ensures
        s.execute(call, random) is Ok,
        s.execute(call, random)->Ok_0.execute(0x00EE, random_after) is Ok,
        s.execute(call, random)->Ok_0.execute(0x00EE, random_after)->Ok_0.pc == s.pc,
        s.execute(call, random)->Ok_0.execute(0x00EE, random_after)->Ok_0.sp == s.sp,
{
    assert(0x00EEu16 >> 12u16 == 0) by (bit_vector);
}

/// `CLS` leaves every pixel off, whatever was drawn before it.
pub proof fn lemma_cls_after_draw(s: Chip8State, x: int, y: int, n: u8)
    requires
        s.wf(),
        0 <= x < 16,
        0 <= y < 16,
    ensures
        forall|c: int, r: int|
            0 <= c < 64 && 0 <= r < 32 ==> !(#[trigger] s.drw_vx_vy_nibble(x, y, n).cls().pixel(
                c,
                r,
            )),
{
}

/// After a draw, `VF` is 1 exactly when some pixel went from on to off, and
/// 0 otherwise; so a sprite drawn wholly onto pixels that were off leaves
/// `VF` at 0.
pub proof fn lemma_draw_collision_flag(s: Chip8State, x: int, y: int, n: u8)
    requires
        s.wf(),
        0 <= x < 16,
        0 <= y < 16,
    ensures
        ({
            let t = s.drw_vx_vy_nibble(x, y, n);
            &&& t.v[VF as int] == 0 || t.v[VF as int] == 1
            &&& t.v[VF as int] == 1 <==> exists|c: int, r: int|
                0 <= c < 64 && 0 <= r < 32 && #[trigger] s.pixel(c, r) && !t.pixel(c, r)
            &&& (forall|c: int, r: int|
                0 <= c < 64 && 0 <= r < 32 && s.covers(s.v[x], s.v[y], n, c, r) ==> !#[trigger] s.pixel(
                    c,
                    r,
                )) ==> t.v[VF as int] == 0
        }),
{
    let t = s.drw_vx_vy_nibble(x, y, n);
    if t.v[VF as int] == 1 {
        let (c, r) = choose|c: int, r: int|
            0 <= c < 64 && 0 <= r < 32 && #[trigger] s.pixel(c, r) && s.covers(
                s.v[x],
                s.v[y],
                n,
                c,
                r,
            );
        assert(!t.pixel(c, r));
    }
    if exists|c: int, r: int| 0 <= c < 64 && 0 <= r < 32 && #[trigger] s.pixel(c, r) && !t.pixel(c, r) {
        let (c, r) = choose|c: int, r: int|
            0 <= c < 64 && 0 <= r < 32 && #[trigger] s.pixel(c, r) && !t.pixel(c, r);
        assert(s.covers(s.v[x], s.v[y], n, c, r));
    }
}

/// `LD [I], Vx` followed by `LD Vx, [I]` with the same `x` gives back the
/// registers as they were, and changes nothing beyond what the store did.
pub proof fn lemma_store_then_load(s: Chip8State, x: int)
    requires
        s.wf(),
        0 <= x < 16,
        s.i + x + 1 <= 4096,
    ensures
        s.ld_i_vx(x).ld_vx_i(x).v == s.v,
        s.ld_i_vx(x).ld_vx_i(x) == s.ld_i_vx(x),
{
    assert(s.ld_i_vx(x).ld_vx_i(x).v =~= s.v);
}

} // verus!
