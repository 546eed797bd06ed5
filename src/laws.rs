//! What holds of every quarter turn, for every cube, face and direction.

use crate::adjacency::{border, feeder, neighbor, ring_place, source, strip_cell, strip_place, Side};
use crate::color_facet::ColorFacet;
use crate::face::{turn_source, Face};
use crate::facet::Facet;
use crate::rotation_direction::RotationDirection;
use crate::rubiks_cube::RubiksCube;
use vstd::prelude::*;

verus! {

/// Whether `(r, k)` names a cell of a face.
pub open spec fn on_face(r: int, k: int) -> bool {
    0 <= r < 3 && 0 <= k < 3
}

/// A turn sends cells to cells.
proof fn lemma_source_on_face(c: ColorFacet, d: RotationDirection, f: ColorFacet, r: int, k: int)
    requires
        on_face(r, k),
    ensures
        on_face(source(c, d, f, r, k).1, source(c, d, f, r, k).2),
{
    reveal(source);
}

/// Looking back through a turn one way and then through the turn the other
/// way lands on the cell one started from.
proof fn lemma_source_back(c: ColorFacet, d: RotationDirection, f: ColorFacet, r: int, k: int)
    requires
        on_face(r, k),
    ensures
        ({
            let (g, r1, k1) = source(c, d.reversed(), f, r, k);
            source(c, d, g, r1, k1) == (f, r, k)
        }),
{
    reveal(source);
}

/// The strips of the table are consistent: neighbor `i` of `c` is found at
/// place `i`, and the cell at place `j` of its strip at place `j`.
proof fn lemma_table(c: ColorFacet, i: int, j: int)
    requires
        0 <= i < 4,
        0 <= j < 3,
    ensures
        neighbor(c, i) != c,
        ring_place(c, neighbor(c, i)) == i,
        on_face(strip_cell(c, i, j).0, strip_cell(c, i, j).1),
        strip_place(c, i, strip_cell(c, i, j).0, strip_cell(c, i, j).1) == j,
{
    match c {
        ColorFacet::Red => {},
        ColorFacet::Blue => {},
        ColorFacet::Green => {},
        ColorFacet::Orange => {},
        ColorFacet::White => {},
        ColorFacet::Yellow => {},
    }
}

/// A cell that the table finds on a strip around `c` is the cell at that
/// place of that strip.
proof fn lemma_table_back(c: ColorFacet, f: ColorFacet, r: int, k: int)
    requires
        f != c,
        on_face(r, k),
        ring_place(c, f) < 4,
        strip_place(c, ring_place(c, f), r, k) < 3,
    ensures
        0 <= ring_place(c, f),
        0 <= strip_place(c, ring_place(c, f), r, k),
        f == neighbor(c, ring_place(c, f)),
        (r, k) == strip_cell(c, ring_place(c, f), strip_place(c, ring_place(c, f), r, k)),
{
}

/// A turn takes the facet at place `j` of the strip of the feeding neighbor
/// to place `j` of the strip of neighbor `i`.
proof fn lemma_source_ring(c: ColorFacet, d: RotationDirection, i: int, j: int)
    requires
        0 <= i < 4,
        0 <= j < 3,
    ensures
        source(c, d, neighbor(c, i), strip_cell(c, i, j).0, strip_cell(c, i, j).1) == (
            neighbor(c, feeder(d, i)),
            strip_cell(c, feeder(d, i), j).0,
            strip_cell(c, feeder(d, i), j).1,
        ),
        0 <= feeder(d, i) < 4,
{
    lemma_table(c, i, j);
    reveal(source);
}

/// A turn of `c` leaves every cell off `c` and off its strips alone, and
/// turns `c` itself as a face turns.
proof fn lemma_source_off_ring(c: ColorFacet, d: RotationDirection, f: ColorFacet, r: int, k: int)
    ensures
        f == c ==> source(c, d, f, r, k) == (c, turn_source(d, r, k).0, turn_source(d, r, k).1),
        f != c && !(ring_place(c, f) < 4 && strip_place(c, ring_place(c, f), r, k) < 3) ==> source(
            c,
            d,
            f,
            r,
            k,
        ) == (f, r, k),
{
    reveal(source);
}

/// Looking back through four turns in one direction lands on the cell one
/// started from.
proof fn lemma_source_four(c: ColorFacet, d: RotationDirection, f: ColorFacet, r: int, k: int)
    requires
        on_face(r, k),
    ensures
        ({
            let (f1, r1, k1) = source(c, d, f, r, k);
            let (f2, r2, k2) = source(c, d, f1, r1, k1);
            let (f3, r3, k3) = source(c, d, f2, r2, k2);
            source(c, d, f3, r3, k3) == (f, r, k)
        }),
{
    if f != c && ring_place(c, f) < 4 && strip_place(c, ring_place(c, f), r, k) < 3 {
        let i = ring_place(c, f);
        let j = strip_place(c, i, r, k);
        lemma_table_back(c, f, r, k);
        lemma_source_ring(c, d, i, j);
        let i1 = feeder(d, i);
        lemma_source_ring(c, d, i1, j);
        let i2 = feeder(d, i1);
        lemma_source_ring(c, d, i2, j);
        let i3 = feeder(d, i2);
        lemma_source_ring(c, d, i3, j);
        assert(feeder(d, i3) == i);
    } else if f == c {
        let (r1, k1) = turn_source(d, r, k);
        let (r2, k2) = turn_source(d, r1, k1);
        let (r3, k3) = turn_source(d, r2, k2);
        lemma_source_off_ring(c, d, c, r, k);
        lemma_source_off_ring(c, d, c, r1, k1);
        lemma_source_off_ring(c, d, c, r2, k2);
        lemma_source_off_ring(c, d, c, r3, k3);
    } else {
        lemma_source_off_ring(c, d, f, r, k);
    }
}

/// A cell of the turned cube holds the facet its source cell held.
proof fn lemma_turned_cell(
    cube: RubiksCube,
    c: ColorFacet,
    d: RotationDirection,
    f: ColorFacet,
    r: int,
    k: int,
)
    requires
        on_face(r, k),
    ensures
        cube.turned(c, d).cell(f, r, k) == cube.moved_cell(c, d, f, r, k),
{
}

/// Two faces that agree on every cell are equal.
proof fn lemma_same_face(a: Face, b: Face)
    requires
        forall|r: int, k: int| on_face(r, k) ==> #[trigger] a.cell(r, k) == b.cell(r, k),
    ensures
        a == b,
{
    assert(a.cell(0, 0) == b.cell(0, 0));
    assert(a.cell(0, 1) == b.cell(0, 1));
    assert(a.cell(0, 2) == b.cell(0, 2));
    assert(a.cell(1, 0) == b.cell(1, 0));
    assert(a.cell(1, 1) == b.cell(1, 1));
    assert(a.cell(1, 2) == b.cell(1, 2));
    assert(a.cell(2, 0) == b.cell(2, 0));
    assert(a.cell(2, 1) == b.cell(2, 1));
    assert(a.cell(2, 2) == b.cell(2, 2));
}

/// Two cubes that agree on every cell are equal.
proof fn lemma_same_cells(a: RubiksCube, b: RubiksCube)
    requires
        forall|f: ColorFacet, r: int, k: int| on_face(r, k) ==> #[trigger] a.cell(f, r, k) == b.cell(f, r, k),
    ensures
        a == b,
{
    assert forall|f: ColorFacet| #[trigger] a.face(f) == b.face(f) by {
        assert forall|r: int, k: int| on_face(r, k) implies #[trigger] a.face(f).cell(r, k) == b.face(
            f,
        ).cell(r, k) by {
            assert(a.cell(f, r, k) == b.cell(f, r, k));
        }
        lemma_same_face(a.face(f), b.face(f));
    }
    assert(a.face(ColorFacet::Red) == b.face(ColorFacet::Red));
    assert(a.face(ColorFacet::Blue) == b.face(ColorFacet::Blue));
    assert(a.face(ColorFacet::Green) == b.face(ColorFacet::Green));
    assert(a.face(ColorFacet::Orange) == b.face(ColorFacet::Orange));
    assert(a.face(ColorFacet::White) == b.face(ColorFacet::White));
    assert(a.face(ColorFacet::Yellow) == b.face(ColorFacet::Yellow));
}

/// A lone face turned one way and then the other, or four times the same
/// way, is the face it was.
pub proof fn lemma_face_turns(face: Face, d: RotationDirection)
    ensures
        face.turned(d).turned(d.reversed()) == face,
        face.turned(d).turned(d).turned(d).turned(d) == face,
{
    match d {
        RotationDirection::Clockwise => {},
        RotationDirection::Anticlockwise => {},
    }
}

/// A quarter turn of a face followed by a quarter turn of the same face the
/// other way gives back the cube.
pub proof fn lemma_turn_then_back(cube: RubiksCube, c: ColorFacet, d: RotationDirection)
    ensures
        cube.turned(c, d).turned(c, d.reversed()) == cube,
{
    let once = cube.turned(c, d);
    let back = once.turned(c, d.reversed());
    assert forall|f: ColorFacet, r: int, k: int| on_face(r, k) implies #[trigger] back.cell(f, r, k)
        == cube.cell(f, r, k) by {
        let (g, r1, k1) = source(c, d.reversed(), f, r, k);
        lemma_turned_cell(once, c, d.reversed(), f, r, k);
        lemma_source_on_face(c, d.reversed(), f, r, k);
        lemma_turned_cell(cube, c, d, g, r1, k1);
        lemma_source_back(c, d, f, r, k);
        reveal(RubiksCube::moved_cell);
    }
    lemma_same_cells(back, cube);
}

/// Four quarter turns of the same face in the same direction give back the
/// cube.
pub proof fn lemma_four_turns(cube: RubiksCube, c: ColorFacet, d: RotationDirection)
    ensures
        cube.turned(c, d).turned(c, d).turned(c, d).turned(c, d) == cube,
{
    let t1 = cube.turned(c, d);
    let t2 = t1.turned(c, d);
    let t3 = t2.turned(c, d);
    let t4 = t3.turned(c, d);
    assert forall|f: ColorFacet, r: int, k: int| on_face(r, k) implies #[trigger] t4.cell(f, r, k)
        == cube.cell(f, r, k) by {
        reveal(RubiksCube::moved_cell);
        let (f1, r1, k1) = source(c, d, f, r, k);
        lemma_source_on_face(c, d, f, r, k);
        let (f2, r2, k2) = source(c, d, f1, r1, k1);
        lemma_source_on_face(c, d, f1, r1, k1);
        let (f3, r3, k3) = source(c, d, f2, r2, k2);
        lemma_source_on_face(c, d, f2, r2, k2);
        lemma_turned_cell(t3, c, d, f, r, k);
        lemma_turned_cell(t2, c, d, f1, r1, k1);
        lemma_turned_cell(t1, c, d, f2, r2, k2);
        lemma_turned_cell(cube, c, d, f3, r3, k3);
        lemma_source_four(c, d, f, r, k);
    }
    lemma_same_cells(t4, cube);
}

/// One quarter turn of a face equals three quarter turns of the same face the
/// other way.
pub proof fn lemma_one_turn_is_three_back(cube: RubiksCube, c: ColorFacet, d: RotationDirection)
    ensures
        cube.turned(c, d) == cube.turned(c, d.reversed()).turned(c, d.reversed()).turned(
            c,
            d.reversed(),
        ),
{
    let e = d.reversed();
    let t1 = cube.turned(c, d);
    let t2 = t1.turned(c, d);
    let t3 = t2.turned(c, d);
    lemma_four_turns(cube, c, d);
    lemma_turn_then_back(t3, c, d);
    lemma_turn_then_back(t2, c, d);
    lemma_turn_then_back(t1, c, d);
    assert(cube.turned(c, e) == t3);
    assert(t3.turned(c, e) == t2);
    assert(t2.turned(c, e) == t1);
}

/// The face across from `c` is neither `c` nor one of its neighbors.
proof fn lemma_across(c: ColorFacet)
    ensures
        c.across() != c,
        ring_place(c, c.across()) == 4,
{
}

/// A quarter turn of a face never changes a facet of the face across from it.
pub proof fn lemma_across_untouched(cube: RubiksCube, c: ColorFacet, d: RotationDirection)
    ensures
        cube.turned(c, d).face(c.across()) == cube.face(c.across()),
{
    let a = c.across();
    let t = cube.turned(c, d);
    lemma_across(c);
    assert forall|r: int, k: int| on_face(r, k) implies #[trigger] t.face(a).cell(r, k) == cube.face(
        a,
    ).cell(r, k) by {
        lemma_turned_cell(cube, c, d, a, r, k);
        lemma_source_off_ring(c, d, a, r, k);
        reveal(RubiksCube::moved_cell);
    }
    lemma_same_face(t.face(a), cube.face(a));
}

/// The turned face itself turns as a lone face does.
proof fn lemma_own_face(cube: RubiksCube, c: ColorFacet, d: RotationDirection)
    ensures
        cube.turned(c, d).face(c) == cube.face(c).turned(d),
{
    let t = cube.turned(c, d);
    assert forall|r: int, k: int| on_face(r, k) implies #[trigger] t.face(c).cell(r, k) == cube.face(
        c,
    ).turned(d).cell(r, k) by {
        lemma_turned_cell(cube, c, d, c, r, k);
        lemma_source_off_ring(c, d, c, r, k);
        reveal(RubiksCube::moved_cell);
    }
    lemma_same_face(t.face(c), cube.face(c).turned(d));
}

/// How many of the three cells of the strip of neighbor `i` of `c` hold a
/// facet with property `p`.
#[verifier::opaque]
spec fn strip_count(cube: RubiksCube, c: ColorFacet, i: int, p: spec_fn(Facet) -> bool) -> int {
    let f = neighbor(c, i);
    (if p(cube.cell(f, strip_cell(c, i, 0).0, strip_cell(c, i, 0).1)) { 1int } else { 0 }) + (if p(
        cube.cell(f, strip_cell(c, i, 1).0, strip_cell(c, i, 1).1),
    ) { 1int } else { 0 }) + (if p(cube.cell(f, strip_cell(c, i, 2).0, strip_cell(c, i, 2).1)) { 1int } else { 0 })
}

/// How many of the three cells on side `s` of a face hold a facet with
/// property `p`.
#[verifier::opaque]
spec fn side_count(face: Face, s: Side, p: spec_fn(Facet) -> bool) -> int {
    (if p(face.cell(s.cell(0).0, s.cell(0).1)) { 1int } else { 0 }) + (if p(
        face.cell(s.cell(1).0, s.cell(1).1),
    ) { 1int } else { 0 }) + (if p(face.cell(s.cell(2).0, s.cell(2).1)) { 1int } else { 0 })
}

/// Turning a lone face keeps its count of facets with any property.
proof fn lemma_face_turn_count(face: Face, d: RotationDirection, p: spec_fn(Facet) -> bool)
    ensures
        face.turned(d).count_where(p) == face.count_where(p),
{
    reveal(Face::count_where);
    match d {
        RotationDirection::Clockwise => {},
        RotationDirection::Anticlockwise => {},
    }
}

/// A strip covers the side of its face it lies on, in one order or the other.
proof fn lemma_strip_is_side(cube: RubiksCube, c: ColorFacet, i: int, p: spec_fn(Facet) -> bool)
    ensures
        strip_count(cube, c, i, p) == side_count(cube.face(neighbor(c, i)), border(c, i).0, p),
{
    reveal(strip_count);
    reveal(side_count);
}

/// Two faces that agree off side `s` have as many facets with property `p`
/// off that side.
#[verifier::rlimit(40)]
proof fn lemma_off_side(a: Face, b: Face, s: Side, p: spec_fn(Facet) -> bool)
    requires
        forall|r: int, k: int| on_face(r, k) && s.place(r, k) == 3 ==> #[trigger] a.cell(r, k) == b.cell(r, k),
    ensures
        a.count_where(p) - side_count(a, s, p) == b.count_where(p) - side_count(b, s, p),
{
    reveal(Face::count_where);
    reveal(side_count);
    match s {
        Side::Top => {
            assert(a.cell(1, 0) == b.cell(1, 0));
            assert(a.cell(1, 1) == b.cell(1, 1));
            assert(a.cell(1, 2) == b.cell(1, 2));
            assert(a.cell(2, 0) == b.cell(2, 0));
            assert(a.cell(2, 1) == b.cell(2, 1));
            assert(a.cell(2, 2) == b.cell(2, 2));
        },
        Side::Bottom => {
            assert(a.cell(0, 0) == b.cell(0, 0));
            assert(a.cell(0, 1) == b.cell(0, 1));
            assert(a.cell(0, 2) == b.cell(0, 2));
            assert(a.cell(1, 0) == b.cell(1, 0));
            assert(a.cell(1, 1) == b.cell(1, 1));
            assert(a.cell(1, 2) == b.cell(1, 2));
        },
        Side::Left => {
            assert(a.cell(0, 1) == b.cell(0, 1));
            assert(a.cell(0, 2) == b.cell(0, 2));
            assert(a.cell(1, 1) == b.cell(1, 1));
            assert(a.cell(1, 2) == b.cell(1, 2));
            assert(a.cell(2, 1) == b.cell(2, 1));
            assert(a.cell(2, 2) == b.cell(2, 2));
        },
        Side::Right => {
            assert(a.cell(0, 0) == b.cell(0, 0));
            assert(a.cell(0, 1) == b.cell(0, 1));
            assert(a.cell(1, 0) == b.cell(1, 0));
            assert(a.cell(1, 1) == b.cell(1, 1));
            assert(a.cell(2, 0) == b.cell(2, 0));
            assert(a.cell(2, 1) == b.cell(2, 1));
        },
    }
}

/// On neighbor `i` of the turned face, a turn keeps every facet off the
/// strip and replaces the strip by the feeding neighbor's.
proof fn lemma_ring_face(
    cube: RubiksCube,
    c: ColorFacet,
    d: RotationDirection,
    i: int,
    p: spec_fn(Facet) -> bool,
)
    requires
        0 <= i < 4,
    ensures
        cube.turned(c, d).face(neighbor(c, i)).count_where(p) - strip_count(cube.turned(c, d), c, i, p)
            == cube.face(neighbor(c, i)).count_where(p) - strip_count(cube, c, i, p),
        strip_count(cube.turned(c, d), c, i, p) == strip_count(cube, c, feeder(d, i), p),
{
    let t = cube.turned(c, d);
    let f = neighbor(c, i);
    let side = border(c, i).0;
    lemma_table(c, i, 0);
    assert forall|r: int, k: int| on_face(r, k) && side.place(r, k) == 3 implies #[trigger] t.face(
        f,
    ).cell(r, k) == cube.face(f).cell(r, k) by {
        assert(strip_place(c, i, r, k) == 3);
        lemma_turned_cell(cube, c, d, f, r, k);
        lemma_source_off_ring(c, d, f, r, k);
        reveal(RubiksCube::moved_cell);
    }
    lemma_off_side(t.face(f), cube.face(f), side, p);
    lemma_strip_is_side(t, c, i, p);
    lemma_strip_is_side(cube, c, i, p);
    reveal(RubiksCube::moved_cell);
    lemma_table(c, i, 1);
    lemma_table(c, i, 2);
    lemma_source_ring(c, d, i, 0);
    lemma_source_ring(c, d, i, 1);
    lemma_source_ring(c, d, i, 2);
    lemma_turned_cell(cube, c, d, f, strip_cell(c, i, 0).0, strip_cell(c, i, 0).1);
    lemma_turned_cell(cube, c, d, f, strip_cell(c, i, 1).0, strip_cell(c, i, 1).1);
    lemma_turned_cell(cube, c, d, f, strip_cell(c, i, 2).0, strip_cell(c, i, 2).1);
    reveal(strip_count);
}

/// The six faces are `c`, the face across from it, and its four neighbors.
proof fn lemma_count_by_ring(cube: RubiksCube, c: ColorFacet, p: spec_fn(Facet) -> bool)
    ensures
        cube.count_where(p) == cube.face(c).count_where(p) + cube.face(c.across()).count_where(p)
            + cube.face(neighbor(c, 0)).count_where(p) + cube.face(neighbor(c, 1)).count_where(p)
            + cube.face(neighbor(c, 2)).count_where(p) + cube.face(neighbor(c, 3)).count_where(p),
{
}

/// A turn of `c` keeps the number of facets with property `p`.
proof fn lemma_turn_keeps_count(
    cube: RubiksCube,
    c: ColorFacet,
    d: RotationDirection,
    p: spec_fn(Facet) -> bool,
)
    ensures
        cube.turned(c, d).count_where(p) == cube.count_where(p),
{
    let t = cube.turned(c, d);
    lemma_count_by_ring(cube, c, p);
    lemma_count_by_ring(t, c, p);
    lemma_own_face(cube, c, d);
    lemma_face_turn_count(cube.face(c), d, p);
    lemma_across_untouched(cube, c, d);
    lemma_ring_face(cube, c, d, 0, p);
    lemma_ring_face(cube, c, d, 1, p);
    lemma_ring_face(cube, c, d, 2, p);
    lemma_ring_face(cube, c, d, 3, p);
    assert(strip_count(cube, c, feeder(d, 0), p) + strip_count(cube, c, feeder(d, 1), p) + strip_count(
        cube,
        c,
        feeder(d, 2),
        p,
    ) + strip_count(cube, c, feeder(d, 3), p) == strip_count(cube, c, 0, p) + strip_count(cube, c, 1, p)
        + strip_count(cube, c, 2, p) + strip_count(cube, c, 3, p)) by {
        match d {
            RotationDirection::Clockwise => {},
            RotationDirection::Anticlockwise => {},
        }
    }
}

/// A quarter turn moves facets without making, losing or changing any: for
/// every property of a facet, as many facets have it after the turn as
/// before.
pub proof fn lemma_turn_keeps_counts(cube: RubiksCube, c: ColorFacet, d: RotationDirection)
    ensures
        forall|p: spec_fn(Facet) -> bool| #[trigger] cube.turned(c, d).count_where(p) == cube.count_where(p),
{
    assert forall|p: spec_fn(Facet) -> bool| #[trigger] cube.turned(c, d).count_where(p) == cube.count_where(p) by {
        lemma_turn_keeps_count(cube, c, d, p);
    }
}

/// Any sequence of quarter turns keeps, for every property of a facet, the
/// number of facets that have it.
pub proof fn lemma_moves_keep_counts(cube: RubiksCube, moves: Seq<(ColorFacet, RotationDirection)>)
    ensures
        forall|p: spec_fn(Facet) -> bool| #[trigger] cube.after(moves).count_where(p) == cube.count_where(p),
    decreases moves.len(),
{
    if moves.len() > 0 {
        let (c, d) = moves.last();
        lemma_moves_keep_counts(cube, moves.drop_last());
        lemma_turn_keeps_counts(cube.after(moves.drop_last()), c, d);
    }
}

/// A solved face of color `g` holds nine facets of color `g` and none of
/// any other.
proof fn lemma_solved_face_colors(face: Face, g: ColorFacet, col: ColorFacet)
    requires
        face.is_solved_in(g),
    ensures
        face.count_where(|x: Facet| x.color == col) == if g == col { 9int } else { 0 },
{
    reveal(Face::count_where);
    assert(face.cell(0, 0).color == g);
    assert(face.cell(0, 1).color == g);
    assert(face.cell(0, 2).color == g);
    assert(face.cell(1, 0).color == g);
    assert(face.cell(1, 1).color == g);
    assert(face.cell(1, 2).color == g);
    assert(face.cell(2, 0).color == g);
    assert(face.cell(2, 1).color == g);
    assert(face.cell(2, 2).color == g);
}

/// Whatever quarter turns a solved cube goes through, it keeps nine facets of
/// each color: the multiset of its 54 color labels stays that of the solved
/// cube.
pub proof fn lemma_moves_keep_colors(
    cube: RubiksCube,
    moves: Seq<(ColorFacet, RotationDirection)>,
    col: ColorFacet,
)
    requires
        cube.is_solved(),
    ensures
        cube.after(moves).color_count(col) == cube.color_count(col),
        cube.after(moves).color_count(col) == 9,
{
    lemma_moves_keep_counts(cube, moves);
    assert(cube.face(ColorFacet::Red).is_solved_in(ColorFacet::Red));
    assert(cube.face(ColorFacet::Blue).is_solved_in(ColorFacet::Blue));
    assert(cube.face(ColorFacet::Green).is_solved_in(ColorFacet::Green));
    assert(cube.face(ColorFacet::Orange).is_solved_in(ColorFacet::Orange));
    assert(cube.face(ColorFacet::White).is_solved_in(ColorFacet::White));
    assert(cube.face(ColorFacet::Yellow).is_solved_in(ColorFacet::Yellow));
    lemma_solved_face_colors(cube.red, ColorFacet::Red, col);
    lemma_solved_face_colors(cube.blue, ColorFacet::Blue, col);
    lemma_solved_face_colors(cube.green, ColorFacet::Green, col);
    lemma_solved_face_colors(cube.orange, ColorFacet::Orange, col);
    lemma_solved_face_colors(cube.white, ColorFacet::White, col);
    lemma_solved_face_colors(cube.yellow, ColorFacet::Yellow, col);
}

} // verus!
