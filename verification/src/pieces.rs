//! The piece model and the move-legality rules.
//!
//! A board position is a collection of pieces, each with a color, a kind and
//! a coordinate pair `(x, y)` with both axes in `[0, 7]`.  The `x` axis is the
//! rank-like axis that pawns advance along (White toward larger `x`, Black
//! toward smaller `x`); the `y` axis is the file-like axis.
//!
//! The legality of a move is a pure function of the moving piece, the
//! destination square and the position, stated by [`is_move_legal`] and
//! computed by [`Piece::is_move_valid`].

use vstd::prelude::*;

verus! {

use vstd::math::abs;

/// The side a piece belongs to.
#[derive(Clone, Copy, PartialEq, Eq, Structural, Debug)]
pub enum PieceColor {
    White,
    Black,
}

impl PieceColor {
    /// The other side.
    pub open spec fn spec_opposite(self) -> PieceColor {
        match self {
            PieceColor::White => PieceColor::Black,
            PieceColor::Black => PieceColor::White,
        }
    }

    /// The other side.
    pub fn opposite(self) -> (r: PieceColor)
        ensures
            r == self.spec_opposite(),
    {
        match self {
            PieceColor::White => PieceColor::Black,
            PieceColor::Black => PieceColor::White,
        }
    }
}

/// The kind of a piece, which selects its movement rule.
#[derive(Clone, Copy, PartialEq, Eq, Structural, Debug)]
pub enum PieceType {
    King,
    Queen,
    Bishop,
    Knight,
    Rook,
    Pawn,
}

/// A piece in play: its side, its kind, and the square it stands on.
#[derive(Clone, Copy, PartialEq, Eq, Structural, Debug)]
pub struct Piece {
    pub color: PieceColor,
    pub piece_type: PieceType,
    pub x: u8,
    pub y: u8,
}

/// Whether `(x, y)` is a square of the 8x8 board.
pub open spec fn on_board(x: int, y: int) -> bool {
    0 <= x < 8 && 0 <= y < 8
}

/// Some piece of the position stands on `(x, y)`.
pub open spec fn sq_occupied(ps: Seq<Piece>, x: int, y: int) -> bool {
    exists|i: int| 0 <= i < ps.len() && ps[i].x == x && ps[i].y == y
}

/// Some piece of color `c` stands on `(x, y)`.
pub open spec fn sq_has_color(ps: Seq<Piece>, x: int, y: int, c: PieceColor) -> bool {
    exists|i: int| 0 <= i < ps.len() && ps[i].x == x && ps[i].y == y && ps[i].color == c
}

/// No two pieces of the position share a square.  The engine maintains this
/// invariant by removing a captured piece before relocating the mover.
pub open spec fn distinct_positions(ps: Seq<Piece>) -> bool {
    forall|i: int, j: int| #![trigger ps[i], ps[j]]
        0 <= i < ps.len() && 0 <= j < ps.len() && i != j ==> !(ps[i].x == ps[j].x && ps[i].y
            == ps[j].y)
}

/// `v` lies strictly between `a` and `b` (in either order).
pub open spec fn strictly_between(a: int, b: int, v: int) -> bool {
    (a < v && v < b) || (b < v && v < a)
}

/// `p` stands on a strict intermediate square of the straight or diagonal
/// segment from `(bx, by)` to `(ex, ey)`: on the same column with its `y`
/// strictly between the endpoints, on the same row with its `x` strictly
/// between, or on a strict interior step of the diagonal walk from begin
/// toward end.
pub open spec fn blocks_segment(p: Piece, bx: int, by: int, ex: int, ey: int) -> bool {
    ||| (bx == ex && p.x == bx && strictly_between(by, ey, p.y as int))
    ||| (by == ey && p.y == by && strictly_between(bx, ex, p.x as int))
    ||| (abs(bx - ex) == abs(by - ey) && bx != ex && strictly_between(bx, ex, p.x as int)
        && strictly_between(by, ey, p.y as int) && abs(bx - p.x) == abs(by - p.y))
}

/// Every strict intermediate square of the segment from `(bx, by)` to
/// `(ex, ey)` is unoccupied.  For a pair of squares that is neither on one
/// line nor on one diagonal there are no intermediate squares, so the path
/// counts as clear; callers only consult this after their own shape rule has
/// already restricted the move to a line or a diagonal.
pub open spec fn path_clear(ps: Seq<Piece>, bx: int, by: int, ex: int, ey: int) -> bool {
    forall|k: int| #![trigger ps[k]] 0 <= k < ps.len() ==> !blocks_segment(ps[k], bx, by, ex, ey)
}

/// The absolute difference of two coordinates.
pub fn abs_diff(a: u8, b: u8) -> (r: u8)
    ensures
        r == abs(a as int - b as int),
{
    if a >= b {
        a - b
    } else {
        b - a
    }
}

/// Whether `p` blocks the segment from `begin` to `end`.
fn piece_blocks(p: Piece, begin: (u8, u8), end: (u8, u8)) -> (r: bool)
    ensures
        r == blocks_segment(p, begin.0 as int, begin.1 as int, end.0 as int, end.1 as int),
{
    if begin.0 == end.0 && p.x == begin.0
        && ((begin.1 < p.y && p.y < end.1) || (end.1 < p.y && p.y < begin.1)) {
        return true;
    }
    if begin.1 == end.1 && p.y == begin.1
        && ((begin.0 < p.x && p.x < end.0) || (end.0 < p.x && p.x < begin.0)) {
        return true;
    }
    abs_diff(begin.0, end.0) == abs_diff(begin.1, end.1) && begin.0 != end.0
        && ((begin.0 < p.x && p.x < end.0) || (end.0 < p.x && p.x < begin.0))
        && ((begin.1 < p.y && p.y < end.1) || (end.1 < p.y && p.y < begin.1))
        && abs_diff(begin.0, p.x) == abs_diff(begin.1, p.y)
}

/// Whether all strict intermediate squares of the segment from `begin` to
/// `end` are unoccupied.  Only the sliding pieces (queen, bishop, rook) and
/// the pawn's double step consult this; for a pair of squares on no common
/// line or diagonal it returns true, since such a pair has no intermediate
/// squares to inspect.
pub fn is_path_clear(begin: (u8, u8), end: (u8, u8), pieces: &Vec<Piece>) -> (r: bool)
    ensures
        r == path_clear(pieces@, begin.0 as int, begin.1 as int, end.0 as int, end.1 as int),
{
    let mut k: usize = 0;
    while k < pieces.len()
        invariant
            k <= pieces@.len(),
            forall|m: int| #![trigger pieces@[m]]
                0 <= m < k ==> !blocks_segment(pieces@[m], begin.0 as int, begin.1 as int,
                    end.0 as int, end.1 as int),
        decreases pieces@.len() - k,
    {
        if piece_blocks(pieces[k], begin, end) {
            return false;
        }
        k += 1;
    }
    true
}

/// The index of the piece standing on `(x, y)`; meaningful when the square is
/// occupied and positions are distinct, which makes the index unique.
pub open spec fn index_of_piece_at(ps: Seq<Piece>, x: int, y: int) -> int {
    choose|i: int| 0 <= i < ps.len() && ps[i].x == x && ps[i].y == y
}

/// In a position with distinct positions, two pieces on the same square are
/// one and the same.
pub proof fn lemma_unique_position(ps: Seq<Piece>, i: int, j: int)
    requires
        distinct_positions(ps),
        0 <= i < ps.len(),
        0 <= j < ps.len(),
        ps[i].x == ps[j].x,
        ps[i].y == ps[j].y,
    ensures
        i == j,
{
}

/// Scan the collection for the piece standing on `(x, y)`.
pub(crate) fn find_piece_index(pieces: &Vec<Piece>, x: u8, y: u8) -> (r: Option<usize>)
    requires
        distinct_positions(pieces@),
    ensures
        match r {
            Some(i) => i < pieces@.len() && pieces@[i as int].x == x && pieces@[i as int].y == y
                && i as int == index_of_piece_at(pieces@, x as int, y as int),
            None => !sq_occupied(pieces@, x as int, y as int),
        },
{
    let mut k: usize = 0;
    while k < pieces.len()
        invariant
            k <= pieces@.len(),
            distinct_positions(pieces@),
            forall|m: int| #![trigger pieces@[m]]
                0 <= m < k ==> !(pieces@[m].x == x && pieces@[m].y == y),
        decreases pieces@.len() - k,
    {
        let p = pieces[k];
        if p.x == x && p.y == y {
            proof {
                assert(0 <= k < pieces@.len() && pieces@[k as int].x == x
                    && pieces@[k as int].y == y);
                let w = index_of_piece_at(pieces@, x as int, y as int);
                assert(0 <= w < pieces@.len() && pieces@[w].x == x && pieces@[w].y == y);
                lemma_unique_position(pieces@, k as int, w);
            }
            return Some(k);
        }
        k += 1;
    }
    None
}

/// The piece standing on `pos`, if any: a pure, read-only view of the
/// position, rebuilt from the collection on each query.
pub fn piece_at(pieces: &Vec<Piece>, pos: (u8, u8)) -> (r: Option<Piece>)
    requires
        distinct_positions(pieces@),
    ensures
        r is Some <==> sq_occupied(pieces@, pos.0 as int, pos.1 as int),
        r matches Some(p) ==> p == pieces@[index_of_piece_at(pieces@, pos.0 as int, pos.1 as int)]
            && p.x == pos.0 && p.y == pos.1,
{
    match find_piece_index(pieces, pos.0, pos.1) {
        Some(i) => Some(pieces[i]),
        None => None,
    }
}

/// The color of the piece standing on `pos`, if any.
pub fn square_color(pos: (u8, u8), pieces: &Vec<Piece>) -> (r: Option<PieceColor>)
    requires
        distinct_positions(pieces@),
    ensures
        r is Some <==> sq_occupied(pieces@, pos.0 as int, pos.1 as int),
        r matches Some(c) ==> sq_has_color(pieces@, pos.0 as int, pos.1 as int, c)
            && !sq_has_color(pieces@, pos.0 as int, pos.1 as int, c.spec_opposite()),
{
    match piece_at(pieces, pos) {
        Some(p) => {
            proof {
                let w = index_of_piece_at(pieces@, pos.0 as int, pos.1 as int);
                assert forall|j: int|
                    0 <= j < pieces@.len() && pieces@[j].x == pos.0 && pieces@[j].y == pos.1
                    implies pieces@[j].color == p.color by {
                    lemma_unique_position(pieces@, j, w);
                }
            }
            Some(p.color)
        },
        None => None,
    }
}

/// King shape: exactly one square away, as three disjoint cases — pure
/// horizontal, pure vertical, or one step on both axes.
pub open spec fn king_shape(dx: int, dy: int) -> bool {
    ||| (abs(dx) == 1 && dy == 0)
    ||| (abs(dy) == 1 && dx == 0)
    ||| (abs(dx) == 1 && abs(dy) == 1)
}

/// Knight shape: the axis deltas are `(2, 1)` or `(1, 2)` in either order.
pub open spec fn knight_shape(dx: int, dy: int) -> bool {
    ||| (abs(dx) == 2 && abs(dy) == 1)
    ||| (abs(dx) == 1 && abs(dy) == 2)
}

/// Straight line: exactly one axis delta is zero, the other is not.
pub open spec fn straight_line(dx: int, dy: int) -> bool {
    (dx == 0 && dy != 0) || (dy == 0 && dx != 0)
}

/// Diagonal line: equal non-zero absolute deltas on both axes.
pub open spec fn diagonal_line(dx: int, dy: int) -> bool {
    abs(dx) == abs(dy) && dx != 0
}

/// The pawn rule.  White advances toward larger `x` from starting rank 1,
/// Black toward smaller `x` from starting rank 6.  Three independently
/// sufficient sub-rules: a single forward step onto an empty square, a double
/// forward step from the starting rank over a clear path onto an empty
/// square, and a one-step diagonal capture of an opposing piece.  A pawn can
/// never move straight onto an occupied square, and a diagonal step onto an
/// empty square is not a move.
pub open spec fn pawn_rule(p: Piece, nx: int, ny: int, ps: Seq<Piece>) -> bool {
    let dir: int = if p.color is White { 1 } else { -1 };
    let start: int = if p.color is White { 1 } else { 6 };
    ||| (nx - p.x == dir && ny == p.y && !sq_occupied(ps, nx, ny))
    ||| (p.x == start && nx - p.x == 2 * dir && ny == p.y
        && path_clear(ps, p.x as int, p.y as int, nx, ny) && !sq_occupied(ps, nx, ny))
    ||| (nx - p.x == dir && abs(ny - p.y) == 1 && sq_has_color(ps, nx, ny, p.color.spec_opposite()))
}

/// The movement rule of `p`'s kind alone; [`is_move_legal`] conjoins it with
/// the universal own-color guard and the board bounds.
pub open spec fn kind_rule(p: Piece, nx: int, ny: int, ps: Seq<Piece>) -> bool {
    let px = p.x as int;
    let py = p.y as int;
    match p.piece_type {
        PieceType::King => king_shape(nx - px, ny - py),
        PieceType::Queen => path_clear(ps, px, py, nx, ny)
            && (straight_line(nx - px, ny - py) || diagonal_line(nx - px, ny - py)),
        PieceType::Bishop => path_clear(ps, px, py, nx, ny) && diagonal_line(nx - px, ny - py),
        PieceType::Knight => knight_shape(nx - px, ny - py),
        PieceType::Rook => path_clear(ps, px, py, nx, ny) && straight_line(nx - px, ny - py),
        PieceType::Pawn => pawn_rule(p, nx, ny, ps),
    }
}

/// Whether moving `p` to `(nx, ny)` is legal in the position `ps`: the
/// destination is a board square, it does not hold a piece of `p`'s own color
/// (a side can never capture its own piece), and the movement rule of `p`'s
/// kind holds.  An illegal move is a normal outcome, not a failure.
pub open spec fn is_move_legal(p: Piece, nx: int, ny: int, ps: Seq<Piece>) -> bool {
    &&& on_board(nx, ny)
    &&& !sq_has_color(ps, nx, ny, p.color)
    &&& kind_rule(p, nx, ny, ps)
}

impl Piece {
    /// Decide whether moving this piece to `new_position` is legal in the
    /// position `pieces`, judged against the collection exactly as handed in
    /// (a read-only snapshot of the board).  Destinations off the board are
    /// rejected.
    pub fn is_move_valid(&self, new_position: (u8, u8), pieces: &Vec<Piece>) -> (r: bool)
        requires
            distinct_positions(pieces@),
        ensures
            r == is_move_legal(*self, new_position.0 as int, new_position.1 as int, pieces@),
    {
        let (nx, ny) = new_position;
        if nx >= 8 || ny >= 8 {
            return false;
        }

        let same_color_dest = match square_color(new_position, pieces) {
            Some(c) => c == self.color,
            None => false,
        };
        if same_color_dest {
            return false;
        }
        proof {
            if sq_has_color(pieces@, nx as int, ny as int, self.color) {
                assert(sq_occupied(pieces@, nx as int, ny as int));
            }
        }

        match self.piece_type {
            PieceType::King => {
                (abs_diff(self.x, nx) == 1 && self.y == ny)
                    || (abs_diff(self.y, ny) == 1 && self.x == nx)
                    || (abs_diff(self.x, nx) == 1 && abs_diff(self.y, ny) == 1)
            },
            PieceType::Queen => {
                is_path_clear((self.x, self.y), new_position, pieces)
                    && ((abs_diff(self.x, nx) == abs_diff(self.y, ny) && self.x != nx)
                        || (self.x == nx && self.y != ny)
                        || (self.y == ny && self.x != nx))
            },
            PieceType::Bishop => {
                is_path_clear((self.x, self.y), new_position, pieces)
                    && abs_diff(self.x, nx) == abs_diff(self.y, ny) && self.x != nx
            },
            PieceType::Knight => {
                (abs_diff(self.x, nx) == 2 && abs_diff(self.y, ny) == 1)
                    || (abs_diff(self.x, nx) == 1 && abs_diff(self.y, ny) == 2)
            },
            PieceType::Rook => {
                is_path_clear((self.x, self.y), new_position, pieces)
                    && ((self.x == nx && self.y != ny) || (self.y == ny && self.x != nx))
            },
            PieceType::Pawn => {
                let forward_one = if self.color == PieceColor::White {
                    self.x < 8 && nx == self.x + 1
                } else {
                    self.x >= 1 && nx == self.x - 1
                };
                let start_rank: u8 = if self.color == PieceColor::White { 1 } else { 6 };
                let forward_two = if self.color == PieceColor::White {
                    self.x < 8 && nx == self.x + 2
                } else {
                    self.x >= 2 && nx == self.x - 2
                };
                let dest_empty = match square_color(new_position, pieces) {
                    Some(_) => false,
                    None => true,
                };
                let dest_enemy = match square_color(new_position, pieces) {
                    Some(c) => c == self.color.opposite(),
                    None => false,
                };
                proof {
                    if sq_has_color(pieces@, nx as int, ny as int, self.color.spec_opposite()) {
                        assert(sq_occupied(pieces@, nx as int, ny as int));
                    }
                }
                (forward_one && self.y == ny && dest_empty)
                    || (self.x == start_rank && forward_two && self.y == ny
                        && is_path_clear((self.x, self.y), new_position, pieces) && dest_empty)
                    || (forward_one && abs_diff(self.y, ny) == 1 && dest_enemy)
            },
        }
    }
}

/// A side can never capture its own piece: whatever the piece's kind, a move
/// onto a square held by a piece of the mover's own color is illegal.
pub proof fn lemma_own_color_destination_illegal(p: Piece, nx: int, ny: int, ps: Seq<Piece>)
    requires
        sq_has_color(ps, nx, ny, p.color),
    ensures
        !is_move_legal(p, nx, ny, ps),
{
}

/// A legal move of a sliding piece (rook, bishop or queen) has the straight
/// or diagonal shape its kind demands, over a clear path.
pub proof fn lemma_sliding_legal_implies_shape_and_clear(p: Piece, nx: int, ny: int, ps: Seq<Piece>)
    requires
        p.piece_type is Rook || p.piece_type is Bishop || p.piece_type is Queen,
        is_move_legal(p, nx, ny, ps),
    ensures
        path_clear(ps, p.x as int, p.y as int, nx, ny),
        p.piece_type is Rook ==> straight_line(nx - p.x, ny - p.y),
        p.piece_type is Bishop ==> diagonal_line(nx - p.x, ny - p.y),
        p.piece_type is Queen ==> straight_line(nx - p.x, ny - p.y)
            || diagonal_line(nx - p.x, ny - p.y),
{
}

/// Adding any piece on a strict intermediate square of the segment turns a
/// legal sliding move illegal.
pub proof fn lemma_blocker_flips_sliding_move(
    p: Piece,
    nx: int,
    ny: int,
    ps: Seq<Piece>,
    blocker: Piece,
)
    requires
        p.piece_type is Rook || p.piece_type is Bishop || p.piece_type is Queen,
        is_move_legal(p, nx, ny, ps),
        blocks_segment(blocker, p.x as int, p.y as int, nx, ny),
    ensures
        !is_move_legal(p, nx, ny, ps.push(blocker)),
{
    let ps2 = ps.push(blocker);
    assert(ps2[ps.len() as int] == blocker);
    assert(!path_clear(ps2, p.x as int, p.y as int, nx, ny));
}

/// A knight is never blocked: its legality is exactly the destination being a
/// board square free of the mover's own color, together with the `(2, 1)` or
/// `(1, 2)` delta shape — no other piece's position enters the rule.
pub proof fn lemma_knight_never_blocked(p: Piece, nx: int, ny: int, ps: Seq<Piece>)
    requires
        p.piece_type is Knight,
    ensures
        is_move_legal(p, nx, ny, ps) <==> (on_board(nx, ny) && !sq_has_color(ps, nx, ny, p.color)
            && knight_shape(nx - p.x, ny - p.y)),
{
}

/// A white pawn on its starting rank may double-step iff both squares ahead
/// on its file are empty.
pub proof fn lemma_white_pawn_double_step(p: Piece, ps: Seq<Piece>)
    requires
        p.piece_type is Pawn,
        p.color is White,
        p.x == 1,
        p.y < 8,
    ensures
        is_move_legal(p, 3, p.y as int, ps) <==> (!sq_occupied(ps, 2, p.y as int) && !sq_occupied(
            ps,
            3,
            p.y as int,
        )),
{
    let y = p.y as int;
    if !sq_occupied(ps, 2, y) && !sq_occupied(ps, 3, y) {
        assert forall|k: int| 0 <= k < ps.len() implies !blocks_segment(ps[k], 1, y, 3, y) by {
            if blocks_segment(ps[k], 1, y, 3, y) {
                assert(ps[k].y == y && strictly_between(1, 3, ps[k].x as int));
                assert(ps[k].x == 2);
                assert(sq_occupied(ps, 2, y));
            }
        }
        if sq_has_color(ps, 3, y, p.color) {
            assert(sq_occupied(ps, 3, y));
        }
        assert(is_move_legal(p, 3, y, ps));
    }
    if is_move_legal(p, 3, y, ps) {
        assert(!sq_occupied(ps, 3, y));
        if sq_occupied(ps, 2, y) {
            let k = choose|k: int| 0 <= k < ps.len() && ps[k].x == 2 && ps[k].y == y;
            assert(blocks_segment(ps[k], 1, y, 3, y));
            assert(!path_clear(ps, 1, y, 3, y));
        }
    }
}

/// A pawn can never move straight onto an occupied square, not even to
/// capture an enemy standing there.
pub proof fn lemma_pawn_no_straight_capture(p: Piece, nx: int, ps: Seq<Piece>)
    requires
        p.piece_type is Pawn,
        sq_occupied(ps, nx, p.y as int),
    ensures
        !is_move_legal(p, nx, p.y as int, ps),
{
}

} // verus!
