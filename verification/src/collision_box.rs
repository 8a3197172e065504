use vstd::prelude::*;
use crate::board::Board;
use crate::geometry::{lemma_turn_counts, turn_all, turn_all_by};
use crate::kinds::{Rotation, TetriminoType};

verus! {

/// One rectangle of a collision box. Lengths are given in half cells: the
/// cell `(x, y)` is the square around the point `(2x, 2y)` whose sides are
/// two half cells long. Heights grow upwards.
#[derive(Debug, Clone, Copy, PartialEq, Eq, Structural)]
pub struct BoxPart {
    /// The centre of the rectangle.
    pub center_x: i8,
    pub center_y: i8,
    /// Half the width and half the height of the rectangle before it is
    /// turned.
    pub half_width: u8,
    pub half_height: u8,
    /// Whether the rectangle is turned by a quarter turn about its centre,
    /// which makes its width its height.
    pub quarter_turned: bool,
}

/// The shape of a piece or of the board as rectangles, for the queries of a
/// collision world.
#[derive(Debug)]
pub struct CollisionBox {
    pub parts: Vec<BoxPart>,
    pub rotation: Rotation,
    pub tetrimino_type: Option<TetriminoType>,
}

impl BoxPart {
    /// Half the extent of the rectangle along the horizontal axis, as it
    /// lies.
    pub open spec fn reach_x(self) -> int {
        if self.quarter_turned {
            self.half_height as int
        } else {
            self.half_width as int
        }
    }

    /// Half the extent of the rectangle along the vertical axis, as it
    /// lies.
    pub open spec fn reach_y(self) -> int {
        if self.quarter_turned {
            self.half_width as int
        } else {
            self.half_height as int
        }
    }

    /// Whether the whole cell `(x, y)` lies in the rectangle.
    pub open spec fn covers(self, x: int, y: int) -> bool {
        &&& self.center_x - self.reach_x() <= 2 * x - 1
        &&& 2 * x + 1 <= self.center_x + self.reach_x()
        &&& self.center_y - self.reach_y() <= 2 * y - 1
        &&& 2 * y + 1 <= self.center_y + self.reach_y()
    }

    /// Whether the sides of the rectangle run along sides of cells, so that
    /// it is made of whole cells.
    pub open spec fn aligned(self) -> bool {
        &&& (self.center_x - self.reach_x()) % 2 != 0
        &&& (self.center_x + self.reach_x()) % 2 != 0
        &&& (self.center_y - self.reach_y()) % 2 != 0
        &&& (self.center_y + self.reach_y()) % 2 != 0
    }
}

/// Whether one of the rectangles covers the cell `(x, y)`.
pub open spec fn parts_cover(parts: Seq<BoxPart>, x: int, y: int) -> bool {
    exists|i: int| 0 <= i < parts.len() && (#[trigger] parts[i]).covers(x, y)
}

/// The four cells of a kind as its collision box has them before any turn,
/// as displacements from the pivot.
pub open spec fn box_base_cells(kind: TetriminoType) -> Seq<(int, int)> {
    match kind {
        TetriminoType::T => seq![(0, 0), (-1, -1), (0, -1), (1, -1)],
        TetriminoType::I => seq![(-1, 0), (0, 0), (1, 0), (2, 0)],
        TetriminoType::J => seq![(0, 0), (0, -1), (1, -1), (2, -1)],
        TetriminoType::L => seq![(0, 0), (-2, -1), (-1, -1), (0, -1)],
        TetriminoType::Z => seq![(-1, 0), (0, 0), (0, -1), (1, -1)],
        TetriminoType::S => seq![(0, 0), (1, 0), (-1, -1), (0, -1)],
        TetriminoType::O => seq![(0, 0), (1, 0), (0, -1), (1, -1)],
    }
}

/// The four cells of a kind in the given orientation: its cells before any
/// turn, each taken through that many quarter turns, a quarter turn taking
/// `(x, y)` to `(-y, x)`.
pub open spec fn box_cells(kind: TetriminoType, rotation: Rotation) -> Seq<(int, int)> {
    turn_all_by(box_base_cells(kind), rotation.turns())
}

impl CollisionBox {
    /// Whether the box covers the cell `(x, y)`.
    pub open spec fn covers(&self, x: int, y: int) -> bool {
        parts_cover(self.parts@, x, y)
    }

    /// Every rectangle of the box is made of whole cells.
    pub open spec fn aligned(&self) -> bool {
        forall|i: int| 0 <= i < self.parts.len() ==> (#[trigger] self.parts[i]).aligned()
    }
}

/// A sequence of four cells holds a cell exactly if the cell is one of the
/// four.
pub proof fn lemma_one_of_four(cells: Seq<(int, int)>, cell: (int, int))
    requires
        cells.len() == 4,
    ensures
        cells.contains(cell) <==> cell == cells[0] || cell == cells[1] || cell == cells[2]
            || cell == cells[3],
{
    if cells.contains(cell) {
        let i = choose|i: int| 0 <= i < cells.len() && cells[i] == cell;
        assert(i == 0 || i == 1 || i == 2 || i == 3);
    }
}

/// What the collision box of a kind in an orientation has to be: rectangles
/// of whole cells that cover the four cells of the kind in that orientation
/// and no other cell.
pub open spec fn is_box_of(parts: Seq<BoxPart>, kind: TetriminoType, rotation: Rotation) -> bool {
    &&& forall|i: int| 0 <= i < parts.len() ==> (#[trigger] parts[i]).aligned()
    &&& forall|x: int, y: int| #[trigger]
        parts_cover(parts, x, y) <==> box_cells(kind, rotation).contains((x, y))
}

/// A box of one rectangle covers the four cells exactly if the rectangle
/// covers those and no other cell.
proof fn lemma_one_part(part: BoxPart, kind: TetriminoType, rotation: Rotation)
    requires
        part.aligned(),
        forall|x: int, y: int| #[trigger]
            part.covers(x, y) <==> {
                let cells = box_cells(kind, rotation);
                (x, y) == cells[0] || (x, y) == cells[1] || (x, y) == cells[2] || (x, y) == cells[3]
            },
    ensures
        is_box_of(seq![part], kind, rotation),
{
    let parts = seq![part];
    let cells = box_cells(kind, rotation);
    assert(box_base_cells(kind).len() == 4);
    assert forall|x: int, y: int| #[trigger]
        parts_cover(parts, x, y) <==> cells.contains((x, y)) by {
        lemma_one_of_four(cells, (x, y));
        if part.covers(x, y) {
            assert(parts[0].covers(x, y));
        }
    }
}

/// A box of two rectangles covers the four cells exactly if the two
/// rectangles together cover those and no other cell.
proof fn lemma_two_parts(first: BoxPart, second: BoxPart, kind: TetriminoType, rotation: Rotation)
    requires
        first.aligned(),
        second.aligned(),
        forall|x: int, y: int|
            (#[trigger] first.covers(x, y) || second.covers(x, y)) <==> {
                let cells = box_cells(kind, rotation);
                (x, y) == cells[0] || (x, y) == cells[1] || (x, y) == cells[2] || (x, y) == cells[3]
            },
    ensures
        is_box_of(seq![first, second], kind, rotation),
{
    let parts = seq![first, second];
    let cells = box_cells(kind, rotation);
    assert(box_base_cells(kind).len() == 4);
    assert forall|x: int, y: int| #[trigger]
        parts_cover(parts, x, y) <==> cells.contains((x, y)) by {
        lemma_one_of_four(cells, (x, y));
        assert(first.covers(x, y) || second.covers(x, y) <==> {
            (x, y) == cells[0] || (x, y) == cells[1] || (x, y) == cells[2] || (x, y) == cells[3]
        });
        if first.covers(x, y) {
            assert(parts[0].covers(x, y));
        }
        if second.covers(x, y) {
            assert(parts[1].covers(x, y));
        }
    }
}

/// The box of a kind in an orientation and its box one quarter turn further
/// cover the same cells but for that quarter turn: where the first covers
/// the cell `(x, y)`, the second covers the cell `(-y, x)`, and no other.
pub proof fn lemma_boxes_turn_with_the_piece(
    kind: TetriminoType,
    from: Rotation,
    to: Rotation,
    before: Seq<BoxPart>,
    after: Seq<BoxPart>,
)
    requires
        is_box_of(before, kind, from),
        is_box_of(after, kind, to),
        to.turns() == (from.turns() + 1) % 4,
    ensures
        forall|x: int, y: int| #[trigger] parts_cover(before, x, y) <==> parts_cover(after, -y, x),
{
    let base = box_base_cells(kind);
    let first = box_cells(kind, from);
    let second = box_cells(kind, to);
    lemma_turn_counts(base, from.turns(), true);
    lemma_turn_counts(base, from.turns() + 1, true);
    assert(second == turn_all(first, true));
    assert forall|x: int, y: int| #[trigger] parts_cover(before, x, y) <==> parts_cover(
        after,
        -y,
        x,
    ) by {
        assert(parts_cover(before, x, y) <==> first.contains((x, y)));
        assert(parts_cover(after, -y, x) <==> second.contains((-y, x)));
        if first.contains((x, y)) {
            let i = choose|i: int| 0 <= i < first.len() && first[i] == (x, y);
            assert(second[i] == (-y, x));
        }
        if second.contains((-y, x)) {
            let i = choose|i: int| 0 <= i < second.len() && second[i] == (-y, x);
            assert(first[i] == (x, y));
        }
    }
}

impl BoxPart {
    /// The rectangle with the given centre, half width and half height,
    /// turned by a quarter turn or not.
    pub fn new(
        center_x: i8,
        center_y: i8,
        half_width: u8,
        half_height: u8,
        quarter_turned: bool,
    ) -> (part: BoxPart)
        ensures
            part == (BoxPart { center_x, center_y, half_width, half_height, quarter_turned }),
    {
        BoxPart { center_x, center_y, half_width, half_height, quarter_turned }
    }
}

impl TetriminoType {
    /// The collision box of a piece of this kind in the given orientation:
    /// one or two rectangles of whole cells that cover the four cells of
    /// the piece and no other cell. The box names the kind and the
    /// orientation, but for an `I`, whose box always names the orientation
    /// without a turn.
    pub fn collision_box(&self, rotation: Rotation) -> (shape: CollisionBox)
        ensures
            is_box_of(shape.parts@, *self, rotation),
            shape.tetrimino_type == Some(*self),
            shape.rotation == (if *self == TetriminoType::I {
                Rotation::Zero
            } else {
                rotation
            }),
    {
        let parts = match self {
            TetriminoType::T => TetriminoType::parts_of_t(rotation),
            TetriminoType::I => TetriminoType::parts_of_i(rotation),
            TetriminoType::J => TetriminoType::parts_of_j(rotation),
            TetriminoType::L => TetriminoType::parts_of_l(rotation),
            TetriminoType::Z => TetriminoType::parts_of_z(rotation),
            TetriminoType::S => TetriminoType::parts_of_s(rotation),
            TetriminoType::O => TetriminoType::parts_of_o(rotation),
        };
        let named = match self {
            TetriminoType::I => Rotation::Zero,
            _ => rotation,
        };
        CollisionBox { parts, rotation: named, tetrimino_type: Some(*self) }
    }

    /// The box of a `T`: the cell of the pivot, and a bar of three cells.
    fn parts_of_t(rotation: Rotation) -> (parts: Vec<BoxPart>)
        ensures
            is_box_of(parts@, TetriminoType::T, rotation),
    {
        let mut parts: Vec<BoxPart> = Vec::new();
        let first = BoxPart::new(0, 0, 1, 1, false);
        let second = match rotation {
            Rotation::Zero => BoxPart::new(0, -2, 3, 1, false),
            Rotation::FracPi2 => BoxPart::new(2, 0, 3, 1, true),
            Rotation::Pi => BoxPart::new(0, 2, 3, 1, false),
            Rotation::Frac3Pi2 => BoxPart::new(-2, 0, 3, 1, true),
        };
        parts.push(first);
        parts.push(second);
        proof {
            lemma_two_parts(first, second, TetriminoType::T, rotation);
            assert(parts@ =~= seq![first, second]);
        }
        parts
    }

    /// The box of a `J`: the cell of the pivot, and a bar of three cells.
    fn parts_of_j(rotation: Rotation) -> (parts: Vec<BoxPart>)
        ensures
            is_box_of(parts@, TetriminoType::J, rotation),
    {
        let mut parts: Vec<BoxPart> = Vec::new();
        let first = BoxPart::new(0, 0, 1, 1, false);
        let second = match rotation {
            Rotation::Zero => BoxPart::new(2, -2, 3, 1, false),
            Rotation::FracPi2 => BoxPart::new(2, 2, 3, 1, true),
            Rotation::Pi => BoxPart::new(-2, 2, 3, 1, false),
            Rotation::Frac3Pi2 => BoxPart::new(-2, -2, 3, 1, true),
        };
        parts.push(first);
        parts.push(second);
        proof {
            lemma_two_parts(first, second, TetriminoType::J, rotation);
            assert(parts@ =~= seq![first, second]);
        }
        parts
    }

    /// The box of an `L`: the cell of the pivot, and a bar of three cells.
    fn parts_of_l(rotation: Rotation) -> (parts: Vec<BoxPart>)
        ensures
            is_box_of(parts@, TetriminoType::L, rotation),
    {
        let mut parts: Vec<BoxPart> = Vec::new();
        let first = BoxPart::new(0, 0, 1, 1, false);
        let second = match rotation {
            Rotation::Zero => BoxPart::new(-2, -2, 3, 1, false),
            Rotation::FracPi2 => BoxPart::new(2, -2, 3, 1, true),
            Rotation::Pi => BoxPart::new(2, 2, 3, 1, false),
            Rotation::Frac3Pi2 => BoxPart::new(-2, 2, 3, 1, true),
        };
        parts.push(first);
        parts.push(second);
        proof {
            lemma_two_parts(first, second, TetriminoType::L, rotation);
            assert(parts@ =~= seq![first, second]);
        }
        parts
    }

    /// The box of a `Z`: two bars of two cells each.
    fn parts_of_z(rotation: Rotation) -> (parts: Vec<BoxPart>)
        ensures
            is_box_of(parts@, TetriminoType::Z, rotation),
    {
        let mut parts: Vec<BoxPart> = Vec::new();
        let (first, second) = match rotation {
            Rotation::Zero => (BoxPart::new(-1, 0, 2, 1, false), BoxPart::new(1, -2, 2, 1, false)),
            Rotation::FracPi2 => (BoxPart::new(0, -1, 2, 1, true), BoxPart::new(2, 1, 2, 1, true)),
            Rotation::Pi => (BoxPart::new(1, 0, 2, 1, false), BoxPart::new(-1, 2, 2, 1, false)),
            Rotation::Frac3Pi2 => (BoxPart::new(0, 1, 2, 1, true), BoxPart::new(-2, -1, 2, 1, true)),
        };
        parts.push(first);
        parts.push(second);
        proof {
            lemma_two_parts(first, second, TetriminoType::Z, rotation);
            assert(parts@ =~= seq![first, second]);
        }
        parts
    }

    /// The box of an `S`: two bars of two cells each.
    fn parts_of_s(rotation: Rotation) -> (parts: Vec<BoxPart>)
        ensures
            is_box_of(parts@, TetriminoType::S, rotation),
    {
        let mut parts: Vec<BoxPart> = Vec::new();
        let (first, second) = match rotation {
            Rotation::Zero => (BoxPart::new(1, 0, 2, 1, false), BoxPart::new(-1, -2, 2, 1, false)),
            Rotation::FracPi2 => (BoxPart::new(0, 1, 2, 1, true), BoxPart::new(2, -1, 2, 1, true)),
            Rotation::Pi => (BoxPart::new(-1, 0, 2, 1, false), BoxPart::new(1, 2, 2, 1, false)),
            Rotation::Frac3Pi2 => (BoxPart::new(0, -1, 2, 1, true), BoxPart::new(-2, 1, 2, 1, true)),
        };
        parts.push(first);
        parts.push(second);
        proof {
            lemma_two_parts(first, second, TetriminoType::S, rotation);
            assert(parts@ =~= seq![first, second]);
        }
        parts
    }

    /// The box of an `I`: one bar of four cells.
    fn parts_of_i(rotation: Rotation) -> (parts: Vec<BoxPart>)
        ensures
            is_box_of(parts@, TetriminoType::I, rotation),
    {
        let mut parts: Vec<BoxPart> = Vec::new();
        let only = match rotation {
            Rotation::Zero => BoxPart::new(1, 0, 4, 1, false),
            Rotation::FracPi2 => BoxPart::new(0, 1, 4, 1, true),
            Rotation::Pi => BoxPart::new(-1, 0, 4, 1, false),
            Rotation::Frac3Pi2 => BoxPart::new(0, -1, 4, 1, true),
        };
        parts.push(only);
        proof {
            lemma_one_part(only, TetriminoType::I, rotation);
            assert(parts@ =~= seq![only]);
        }
        parts
    }

    /// The box of an `O`: one square of four cells.
    fn parts_of_o(rotation: Rotation) -> (parts: Vec<BoxPart>)
        ensures
            is_box_of(parts@, TetriminoType::O, rotation),
    {
        let mut parts: Vec<BoxPart> = Vec::new();
        let only = match rotation {
            Rotation::Zero => BoxPart::new(1, -1, 2, 2, false),
            Rotation::FracPi2 => BoxPart::new(1, 1, 2, 2, false),
            Rotation::Pi => BoxPart::new(-1, 1, 2, 2, false),
            Rotation::Frac3Pi2 => BoxPart::new(-1, -1, 2, 2, false),
        };
        parts.push(only);
        proof {
            lemma_one_part(only, TetriminoType::O, rotation);
            assert(parts@ =~= seq![only]);
        }
        parts
    }
}

impl Board {
    /// The collision box of the floor of the board: one rectangle, forty
    /// cells wide and one cell high, about the position of the board. It
    /// names no kind and no turn.
    pub fn collision_box(&self) -> (shape: CollisionBox)
        ensures
            shape.parts@ == seq![
                BoxPart {
                    center_x: 0,
                    center_y: 0,
                    half_width: 40,
                    half_height: 1,
                    quarter_turned: false,
                },
            ],
            shape.rotation == Rotation::Zero,
            shape.tetrimino_type is None,
    {
        let mut parts: Vec<BoxPart> = Vec::new();
        parts.push(BoxPart::new(0, 0, 40, 1, false));
        CollisionBox { parts, rotation: Rotation::Zero, tetrimino_type: None }
    }
}

} // verus!
