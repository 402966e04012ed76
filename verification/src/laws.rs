//! Laws of the controller: properties that relate several operations.
//!
//! Each proof function here states a guarantee over the transition functions
//! of [`SplitController`]; single-operation guarantees (a move while idle is
//! a no-op, a resize never touches the ratio) are already part of the
//! operations' own contracts.

use vstd::prelude::*;

use crate::controller::SplitController;

verus! {

/// Law: a press followed immediately by a release, with no move in between,
/// leaves the ratio exactly as it was before the press — and the container
/// extent and the axis with it.
pub proof fn lemma_press_release_preserves_ratio(
    c: SplitController,
    pointer_coordinate: i32,
    sibling_size: i32,
)
    ensures
        c.spec_press(pointer_coordinate, sibling_size).spec_release().ratio == c.ratio,
        c.spec_press(pointer_coordinate, sibling_size).spec_release().container_size
            == c.container_size,
        c.spec_press(pointer_coordinate, sibling_size).spec_release().axis == c.axis,
        !c.spec_press(pointer_coordinate, sibling_size).spec_release().spec_is_dragging(),
{
}

/// Law: a repeated identical move changes nothing. The ratio is a pure
/// function of the drag anchor, the container extent and the current pointer
/// coordinate — not of how many move events delivered that coordinate.
pub proof fn lemma_duplicate_move_is_idempotent(c: SplitController, pointer_coordinate: i32)
    ensures
        c.spec_move(pointer_coordinate).spec_move(pointer_coordinate) == c.spec_move(
            pointer_coordinate,
        ),
{
}

/// Law: across a mid-drag resize, the quantity held constant is the anchor
/// size in pixels, not the percentage. A resize followed by a move at the
/// anchor coordinate (zero displacement) yields the ratio `anchor_size * 100
/// / new_size`, whatever the ratio was before.
pub proof fn lemma_resize_rescales_zero_delta_ratio(c: SplitController, new_size: i32)
    requires
        c.spec_is_dragging(),
    ensures
        ({
            let after = c.spec_resize(new_size).spec_move(c.session->Some_0.anchor_coordinate);
            &&& after.ratio.num == c.session->Some_0.anchor_size * 100
            &&& after.ratio.den == new_size as int
        }),
{
}

/// Law: doubling the container extent between two zero-displacement moves
/// halves the ratio as a number. With `before` the ratio a move at the
/// anchor coordinate computes at extent `m`, and `after` the ratio the same
/// move computes after a resize to `2 * m`, cross-multiplication gives
/// `after == before / 2`.
pub proof fn lemma_resize_doubling_halves_zero_delta_ratio(c: SplitController, new_size: i32)
    requires
        c.spec_is_dragging(),
        c.container_size != 0,
        new_size != 0,
        new_size == 2 * c.container_size as int,
    ensures
        ({
            let before = c.spec_move(c.session->Some_0.anchor_coordinate).ratio;
            let after = c.spec_resize(new_size).spec_move(c.session->Some_0.anchor_coordinate).ratio;
            &&& before.is_finite()
            &&& after.is_finite()
            &&& 2 * after.num * before.den == before.num * after.den
        }),
{
    let s = c.session->Some_0.anchor_size as int;
    let m = c.container_size as int;
    assert(2 * (s * 100) * m == (s * 100) * (2 * m)) by (nonlinear_arith);
}

} // verus!
