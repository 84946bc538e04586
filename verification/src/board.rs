//! The board squares and the turn-and-capture controller.
//!
//! [`GameEngine`] owns the authoritative piece collection, the selection
//! state and the turn state.  A host resolves each primary click to an
//! optional board square and hands it to
//! [`GameEngine::propose_move_or_select`]; the engine answers with a
//! [`TurnEvent`] describing what happened, and the host syncs its visuals
//! from the read-only views ([`GameEngine::pieces`],
//! [`GameEngine::current_turn`], [`GameEngine::selection`]).

use vstd::prelude::*;

use crate::pieces::{
    distinct_positions, index_of_piece_at, is_move_legal, on_board, sq_has_color, sq_occupied,
    find_piece_index, lemma_unique_position, Piece, PieceColor, PieceType,
};

verus! {

/// A square of the 8x8 board, addressed by the same axes as piece
/// coordinates.
#[derive(Clone, Copy, PartialEq, Eq, Structural, Debug)]
pub struct Square {
    pub x: u8,
    pub y: u8,
}

impl Square {
    /// Whether `p` stands on this square.
    pub fn same_position(&self, p: &Piece) -> (r: bool)
        ensures
            r == (self.x == p.x && self.y == p.y),
    {
        self.x == p.x && self.y == p.y
    }

    /// Whether the square is a light one in the alternating coloring of the
    /// board.
    pub fn is_white(&self) -> (r: bool)
        ensures
            r == ((self.x + self.y + 1) % 2 == 0),
    {
        (self.x as u16 + self.y as u16 + 1) % 2 == 0
    }
}

/// What one click made the engine do.
#[derive(Clone, Copy, PartialEq, Eq, Debug)]
pub enum TurnEvent {
    /// The click selected nothing and changed nothing.
    NoOp,
    /// The click selected the piece standing on `square`.
    Selected { square: Square },
    /// The click proposed an illegal move; the selection was cleared.
    MoveRejected,
    /// A legal move was carried out, capturing `captured` if present.
    MoveApplied { from: Square, to: Square, captured: Option<Piece> },
    /// A king was captured: the game ended in favor of `winner`.
    GameWon { winner: PieceColor },
}

/// The transient selection state, as shown to the host.
#[derive(Clone, Copy, PartialEq, Eq, Debug)]
pub struct SelectionState {
    pub selected_square: Option<Square>,
    pub selected_piece: Option<Piece>,
}

/// The abstract state of the engine: the position, whose turn it is, which
/// piece (by index) is selected, and the winner once a king has fallen.
pub struct GameView {
    pub pieces: Seq<Piece>,
    pub turn: PieceColor,
    pub selected: Option<int>,
    pub winner: Option<PieceColor>,
}

impl GameView {
    /// Well-formedness: every piece on the board, no square shared, and the
    /// selection a valid index.
    pub open spec fn wf(self) -> bool {
        &&& distinct_positions(self.pieces)
        &&& forall|i: int| #![trigger self.pieces[i]]
            0 <= i < self.pieces.len() ==> on_board(self.pieces[i].x as int, self.pieces[i].y as int)
        &&& self.selected matches Some(i) ==> 0 <= i < self.pieces.len()
    }

    /// The same state with the selection replaced.
    pub open spec fn with_selection(self, sel: Option<int>) -> GameView {
        GameView { selected: sel, ..self }
    }
}

/// `p` relocated to the square `to`.
pub open spec fn moved_to(p: Piece, to: Square) -> Piece {
    Piece { x: to.x, y: to.y, ..p }
}

/// Removing a piece keeps every remaining piece on the board and keeps
/// positions distinct.
proof fn lemma_remove_at_keeps_wf(ps: Seq<Piece>, j: int)
    requires
        distinct_positions(ps),
        forall|i: int| #![trigger ps[i]]
            0 <= i < ps.len() ==> on_board(ps[i].x as int, ps[i].y as int),
        0 <= j < ps.len(),
    ensures
        distinct_positions(ps.remove(j)),
        forall|i: int| #![trigger ps.remove(j)[i]]
            0 <= i < ps.remove(j).len() ==> on_board(
                ps.remove(j)[i].x as int,
                ps.remove(j)[i].y as int,
            ),
{
    ps.remove_ensures(j);
    let psr = ps.remove(j);
    assert forall|a: int| 0 <= a < psr.len() implies on_board(
        psr[a].x as int,
        psr[a].y as int,
    ) by {
        let a0 = if a < j { a } else { a + 1 };
        assert(psr[a] == ps[a0]);
    }
    assert forall|a: int, b: int|
        0 <= a < psr.len() && 0 <= b < psr.len() && a != b implies !(psr[a].x == psr[b].x
        && psr[a].y == psr[b].y) by {
        let a0 = if a < j { a } else { a + 1 };
        let b0 = if b < j { b } else { b + 1 };
        assert(psr[a] == ps[a0]);
        assert(psr[b] == ps[b0]);
    }
}

/// Relocating one piece onto a square that no piece of the collection holds
/// keeps positions distinct and, if the square is on the board, keeps every
/// piece on the board.
proof fn lemma_update_to_free_square_keeps_wf(ps: Seq<Piece>, k: int, q: Piece)
    requires
        distinct_positions(ps),
        forall|i: int| #![trigger ps[i]]
            0 <= i < ps.len() ==> on_board(ps[i].x as int, ps[i].y as int),
        0 <= k < ps.len(),
        on_board(q.x as int, q.y as int),
        !sq_occupied(ps, q.x as int, q.y as int),
    ensures
        distinct_positions(ps.update(k, q)),
        forall|i: int| #![trigger ps.update(k, q)[i]]
            0 <= i < ps.update(k, q).len() ==> on_board(
                ps.update(k, q)[i].x as int,
                ps.update(k, q)[i].y as int,
            ),
{
    let su = ps.update(k, q);
    assert forall|a: int, b: int|
        0 <= a < su.len() && 0 <= b < su.len() && a != b implies !(su[a].x == su[b].x && su[a].y
        == su[b].y) by {
        if a == k {
            assert(su[b] == ps[b]);
            if ps[b].x == q.x && ps[b].y == q.y {
                assert(sq_occupied(ps, q.x as int, q.y as int));
            }
        } else if b == k {
            assert(su[a] == ps[a]);
            if ps[a].x == q.x && ps[a].y == q.y {
                assert(sq_occupied(ps, q.x as int, q.y as int));
            }
        } else {
            assert(su[a] == ps[a]);
            assert(su[b] == ps[b]);
        }
    }
}

/// The rules engine: the piece collection, the turn state and the selection
/// state, driven one resolved click at a time.
pub struct GameEngine {
    pieces: Vec<Piece>,
    turn: PieceColor,
    selected: Option<usize>,
    winner: Option<PieceColor>,
}

impl View for GameEngine {
    type V = GameView;

    closed spec fn view(&self) -> GameView {
        GameView {
            pieces: self.pieces@,
            turn: self.turn,
            selected: match self.selected {
                Some(i) => Some(i as int),
                None => None,
            },
            winner: self.winner,
        }
    }
}

/// The kind standing on file `y` of a back rank in the starting position.
pub open spec fn back_rank_kind(y: int) -> PieceType {
    if y == 0 || y == 7 {
        PieceType::Rook
    } else if y == 1 || y == 6 {
        PieceType::Knight
    } else if y == 2 || y == 5 {
        PieceType::Bishop
    } else if y == 3 {
        PieceType::Queen
    } else {
        PieceType::King
    }
}

/// The `i`-th piece of the standard starting position: White's back rank on
/// rank 0 and pawns on rank 1, Black's back rank on rank 7 and pawns on
/// rank 6.
pub open spec fn starting_piece(i: int) -> Piece {
    let color = if i < 16 {
        PieceColor::White
    } else {
        PieceColor::Black
    };
    let x: int = if i < 8 {
        0
    } else if i < 16 {
        1
    } else if i < 24 {
        7
    } else {
        6
    };
    let y: int = if i < 8 {
        i
    } else if i < 16 {
        i - 8
    } else if i < 24 {
        i - 16
    } else {
        i - 24
    };
    let kind = if x == 0 || x == 7 {
        back_rank_kind(y)
    } else {
        PieceType::Pawn
    };
    Piece { color, piece_type: kind, x: x as u8, y: y as u8 }
}

/// The standard starting position, 16 pieces a side.
pub open spec fn starting_pieces() -> Seq<Piece> {
    Seq::new(32, |i: int| starting_piece(i))
}

/// The `i`-th piece of the standard starting position.
fn make_starting_piece(i: usize) -> (p: Piece)
    requires
        i < 32,
    ensures
        p == starting_piece(i as int),
{
    let color = if i < 16 {
        PieceColor::White
    } else {
        PieceColor::Black
    };
    let x: u8 = if i < 8 {
        0
    } else if i < 16 {
        1
    } else if i < 24 {
        7
    } else {
        6
    };
    let y: u8 = if i < 8 {
        i as u8
    } else if i < 16 {
        (i - 8) as u8
    } else if i < 24 {
        (i - 16) as u8
    } else {
        (i - 24) as u8
    };
    let kind = if x == 0 || x == 7 {
        if y == 0 || y == 7 {
            PieceType::Rook
        } else if y == 1 || y == 6 {
            PieceType::Knight
        } else if y == 2 || y == 5 {
            PieceType::Bishop
        } else if y == 3 {
            PieceType::Queen
        } else {
            PieceType::King
        }
    } else {
        PieceType::Pawn
    };
    Piece { color, piece_type: kind, x, y }
}

impl GameEngine {
    /// A fresh session: the standard starting position, White to move,
    /// nothing selected, no winner.
    pub fn new() -> (e: GameEngine)
        ensures
            e@.wf(),
            e@ == (GameView {
                pieces: starting_pieces(),
                turn: PieceColor::White,
                selected: None,
                winner: None,
            }),
    {
        let mut v: Vec<Piece> = Vec::new();
        let mut i: usize = 0;
        while i < 32
            invariant
                i <= 32,
                v@.len() == i,
                forall|k: int| #![trigger v@[k]] 0 <= k < i ==> v@[k] == starting_piece(k),
            decreases 32 - i,
        {
            v.push(make_starting_piece(i));
            i += 1;
        }
        proof {
            assert(v@ =~= starting_pieces());
        }
        GameEngine { pieces: v, turn: PieceColor::White, selected: None, winner: None }
    }

    /// The color to move next.
    pub fn current_turn(&self) -> (c: PieceColor)
        ensures
            c == self@.turn,
    {
        self.turn
    }

    /// The winner, once a king has been captured.
    pub fn winner(&self) -> (w: Option<PieceColor>)
        ensures
            w == self@.winner,
    {
        self.winner
    }

    /// A read-only view of the piece collection.
    pub fn pieces(&self) -> (ps: &Vec<Piece>)
        ensures
            ps@ == self@.pieces,
    {
        &self.pieces
    }

    /// Process one resolved primary click.
    ///
    /// A click outside the board clears the selection.  A click on a square
    /// with nothing selected selects the piece standing there, if any.  A
    /// click on a square with a piece already selected proposes the move of
    /// that piece to that square, judged against the pre-move position: an
    /// illegal proposal only clears the selection, a legal one removes the
    /// captured piece (if any) before relocating the mover and toggling the
    /// turn, and a captured king ends the game at once in favor of the color
    /// whose turn it is, freezing the state for good.
    pub fn propose_move_or_select(&mut self, clicked: Option<Square>) -> (ev: TurnEvent)
        requires
            old(self)@.wf(),
        ensures
            final(self)@.wf(),
            ev is MoveApplied ==> final(self)@.turn == old(self)@.turn.spec_opposite(),
            ev is MoveRejected || ev is NoOp ==> final(self)@.turn == old(self)@.turn,
            ({
                let pre = old(self)@;
                let post = final(self)@;
                match pre.winner {
                    Some(w) => post == pre && ev == (TurnEvent::GameWon { winner: w }),
                    None => match clicked {
                        None => post == pre.with_selection(None) && ev == TurnEvent::NoOp,
                        Some(c) => match pre.selected {
                            None => if sq_occupied(pre.pieces, c.x as int, c.y as int) {
                                post == pre.with_selection(
                                    Some(index_of_piece_at(pre.pieces, c.x as int, c.y as int)),
                                ) && ev == (TurnEvent::Selected { square: c })
                            } else {
                                post == pre && ev == TurnEvent::NoOp
                            },
                            Some(i) => {
                                let mover = pre.pieces[i];
                                if !is_move_legal(mover, c.x as int, c.y as int, pre.pieces) {
                                    post == pre.with_selection(None) && ev == TurnEvent::MoveRejected
                                } else if sq_occupied(pre.pieces, c.x as int, c.y as int) {
                                    let j = index_of_piece_at(pre.pieces, c.x as int, c.y as int);
                                    let victim = pre.pieces[j];
                                    if victim.piece_type is King {
                                        post == (GameView {
                                            pieces: pre.pieces.remove(j),
                                            turn: pre.turn,
                                            selected: None,
                                            winner: Some(pre.turn),
                                        }) && ev == (TurnEvent::GameWon { winner: pre.turn })
                                    } else {
                                        let k = if j < i { i - 1 } else { i };
                                        post == (GameView {
                                            pieces: pre.pieces.remove(j).update(k, moved_to(mover, c)),
                                            turn: pre.turn.spec_opposite(),
                                            selected: None,
                                            winner: None,
                                        }) && ev == (TurnEvent::MoveApplied {
                                            from: Square { x: mover.x, y: mover.y },
                                            to: c,
                                            captured: Some(victim),
                                        })
                                    }
                                } else {
                                    post == (GameView {
                                        pieces: pre.pieces.update(i, moved_to(mover, c)),
                                        turn: pre.turn.spec_opposite(),
                                        selected: None,
                                        winner: None,
                                    }) && ev == (TurnEvent::MoveApplied {
                                        from: Square { x: mover.x, y: mover.y },
                                        to: c,
                                        captured: None,
                                    })
                                }
                            },
                        },
                    },
                }
            }),
    {
        match self.winner {
            Some(w) => {
                return TurnEvent::GameWon { winner: w };
            },
            None => {},
        }
        let c = match clicked {
            None => {
                self.selected = None;
                return TurnEvent::NoOp;
            },
            Some(c) => c,
        };
        match self.selected {
            None => {
                match find_piece_index(&self.pieces, c.x, c.y) {
                    Some(i) => {
                        self.selected = Some(i);
                        TurnEvent::Selected { square: c }
                    },
                    None => TurnEvent::NoOp,
                }
            },
            Some(i) => {
                self.selected = None;
                let mover = self.pieces[i];
                if !mover.is_move_valid((c.x, c.y), &self.pieces) {
                    TurnEvent::MoveRejected
                } else {
                    let ghost s = self.pieces@;
                    let ghost cx = c.x as int;
                    let ghost cy = c.y as int;
                    match find_piece_index(&self.pieces, c.x, c.y) {
                        Some(j) => {
                            proof {
                                if s[j as int].color == mover.color {
                                    assert(sq_has_color(s, cx, cy, mover.color));
                                }
                                assert(j != i);
                                s.remove_ensures(j as int);
                                lemma_remove_at_keeps_wf(s, j as int);
                            }
                            let removed = self.pieces.remove(j);
                            let ghost sr = s.remove(j as int);
                            proof {
                                assert(!sq_occupied(sr, cx, cy)) by {
                                    if sq_occupied(sr, cx, cy) {
                                        let k = choose|k: int|
                                            0 <= k < sr.len() && sr[k].x == cx && sr[k].y == cy;
                                        let k0 = if k < j { k } else { k + 1 };
                                        assert(sr[k] == s[k0]);
                                        lemma_unique_position(s, k0, j as int);
                                    }
                                }
                            }
                            if removed.piece_type == PieceType::King {
                                self.winner = Some(self.turn);
                                TurnEvent::GameWon { winner: self.turn }
                            } else {
                                let k: usize = if j < i { i - 1 } else { i };
                                proof {
                                    assert(sr[k as int] == s[i as int]);
                                }
                                let moved = Piece {
                                    color: mover.color,
                                    piece_type: mover.piece_type,
                                    x: c.x,
                                    y: c.y,
                                };
                                self.pieces[k] = moved;
                                proof {
                                    lemma_update_to_free_square_keeps_wf(sr, k as int, moved);
                                }
                                self.turn = self.turn.opposite();
                                TurnEvent::MoveApplied {
                                    from: Square { x: mover.x, y: mover.y },
                                    to: c,
                                    captured: Some(removed),
                                }
                            }
                        },
                        None => {
                            let moved = Piece {
                                color: mover.color,
                                piece_type: mover.piece_type,
                                x: c.x,
                                y: c.y,
                            };
                            self.pieces[i] = moved;
                            proof {
                                lemma_update_to_free_square_keeps_wf(s, i as int, moved);
                            }
                            self.turn = self.turn.opposite();
                            TurnEvent::MoveApplied {
                                from: Square { x: mover.x, y: mover.y },
                                to: c,
                                captured: None,
                            }
                        },
                    }
                }
            },
        }
    }

    /// The selection state: the selected square and the piece standing on
    /// it, or nothing.
    pub fn selection(&self) -> (s: SelectionState)
        requires
            self@.wf(),
        ensures
            match self@.selected {
                Some(i) => s.selected_piece == Some(self@.pieces[i]) && s.selected_square == Some(
                    (Square { x: self@.pieces[i].x, y: self@.pieces[i].y }),
                ),
                None => s == (SelectionState { selected_square: None, selected_piece: None }),
            },
    {
        match self.selected {
            Some(i) => {
                let p = self.pieces[i];
                SelectionState {
                    selected_square: Some(Square { x: p.x, y: p.y }),
                    selected_piece: Some(p),
                }
            },
            None => SelectionState { selected_square: None, selected_piece: None },
        }
    }
}

} // verus!
