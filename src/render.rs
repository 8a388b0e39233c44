use vstd::prelude::*;

verus! {

/// Byte `k` (red, green, blue, then alpha) of the pixel of a cell. Without
/// `invert` a live cell is white and a dead one black; `invert` swaps the two.
/// Alpha is always opaque.
pub open spec fn pixel_byte(alive: bool, invert: bool, k: int) -> u8 {
    if k == 3 || alive != invert {
        255
    } else {
        0
    }
}

/// The RGBA image of a grid: four bytes for each cell, in the cells' order.
/// A cell is alive where it is not zero.
pub open spec fn rendered(cells: Seq<i8>, invert: bool) -> Seq<u8> {
    Seq::new(cells.len() * 4, |j: int| pixel_byte(cells[j / 4] != 0, invert, j % 4))
}

/// Renders a grid as RGBA bytes.
pub fn render(cells: &Vec<i8>, invert: bool) -> (r: Vec<u8>)
    requires
        cells@.len() * 4 <= usize::MAX,
    ensures
        r@ == rendered(cells@, invert),
{
    let mut im: Vec<u8> = Vec::new();
    let mut i: usize = 0;
    while i < cells.len()
        invariant
            i <= cells@.len(),
            im@ == rendered(cells@, invert).take(4 * i),
        decreases cells@.len() - i,
    {
        let pix: u8 = if (cells[i] != 0) != invert { 255 } else { 0 };
        im.push(pix);
        im.push(pix);
        im.push(pix);
        im.push(255);
        proof {
            assert forall|k: int| 0 <= k < 4 implies (#[trigger] ((4 * i + k) / 4)) == i && (4 * i
                + k) % 4 == k by {
                vstd::arithmetic::div_mod::lemma_fundamental_div_mod_converse(
                    4 * i + k,
                    4,
                    i as int,
                    k,
                );
            }
            assert(((4 * i + 0) / 4) == i);
            assert(((4 * i + 1) / 4) == i);
            assert(((4 * i + 2) / 4) == i);
            assert(((4 * i + 3) / 4) == i);
            assert(im@ =~= rendered(cells@, invert).take(4 * i + 4));
        }
        i += 1;
    }
    assert(im@ =~= rendered(cells@, invert));
    im
}

/// A grid of `len` dead cells.
pub open spec fn dead_cells(len: nat) -> Seq<i8> {
    Seq::new(len, |i: int| 0i8)
}

/// A grid whose only live cell is cell `k` renders as the all-dead grid
/// does, but for the three colour bytes of pixel `k`, which differ.
pub proof fn lemma_single_live_cell(cells: Seq<i8>, k: int, invert: bool)
    requires
        0 <= k < cells.len(),
        cells[k] != 0,
        forall|i: int| 0 <= i < cells.len() && i != k ==> cells[i] == 0,
    ensures
        rendered(cells, invert).len() == rendered(dead_cells(cells.len()), invert).len(),
        forall|j: int|
            0 <= j < cells.len() * 4 ==> (rendered(cells, invert)[j] != rendered(
                dead_cells(cells.len()),
                invert,
            )[j] <==> 4 * k <= j < 4 * k + 3),
{
    assert forall|j: int| 0 <= j < cells.len() * 4 implies (rendered(cells, invert)[j] != rendered(
        dead_cells(cells.len()),
        invert,
    )[j] <==> 4 * k <= j < 4 * k + 3) by {
        vstd::arithmetic::div_mod::lemma_fundamental_div_mod(j, 4);
        assert(0 <= j % 4 < 4);
        assert((j / 4 == k) <==> (4 * k <= j < 4 * k + 4));
    }
}

} // verus!
