//! Board coordinates, sides and piece kinds.
use vstd::prelude::*;

verus! {

/// One of the two players.
#[derive(Clone, Copy, Debug, PartialEq, Eq, Hash, Structural)]
pub enum Side {
    White,
    Black,
}

/// The opposite side.
pub open spec fn other_side(s: Side) -> Side {
    match s {
        Side::White => Side::Black,
        Side::Black => Side::White,
    }
}

impl Side {
    /// The side that plays after this one.
    pub fn opponent(self) -> (r: Side)
        ensures
            r == other_side(self),
    {
        match self {
            Side::White => Side::Black,
            Side::Black => Side::White,
        }
    }
}

/// A chess piece, tagged with the side it belongs to.
#[derive(Clone, Copy, Debug, PartialEq, Eq, Hash, Structural)]
pub enum PieceKind {
    King(Side),
    Queen(Side),
    Rook(Side),
    Bishop(Side),
    Knight(Side),
    Pawn(Side),
}

/// The side a piece belongs to.
pub open spec fn side_of(p: PieceKind) -> Side {
    match p {
        PieceKind::King(s) => s,
        PieceKind::Queen(s) => s,
        PieceKind::Rook(s) => s,
        PieceKind::Bishop(s) => s,
        PieceKind::Knight(s) => s,
        PieceKind::Pawn(s) => s,
    }
}

/// A dense index for each of the twelve pieces: white pieces take 0..6,
/// black pieces 6..12, in the order king, queen, rook, bishop, knight, pawn.
pub open spec fn kind_index(p: PieceKind) -> int {
    let base: int = match side_of(p) {
        Side::White => 0,
        Side::Black => 6,
    };
    base + match p {
        PieceKind::King(_) => 0int,
        PieceKind::Queen(_) => 1int,
        PieceKind::Rook(_) => 2int,
        PieceKind::Bishop(_) => 3int,
        PieceKind::Knight(_) => 4int,
        PieceKind::Pawn(_) => 5int,
    }
}

/// The piece whose dense index is `i`.
pub open spec fn kind_at_index(i: int) -> PieceKind {
    let s = if i < 6 { Side::White } else { Side::Black };
    let k = if i < 6 { i } else { i - 6 };
    if k == 0 {
        PieceKind::King(s)
    } else if k == 1 {
        PieceKind::Queen(s)
    } else if k == 2 {
        PieceKind::Rook(s)
    } else if k == 3 {
        PieceKind::Bishop(s)
    } else if k == 4 {
        PieceKind::Knight(s)
    } else {
        PieceKind::Pawn(s)
    }
}

/// Number of distinct pieces; the size of a table keyed by piece.
pub const PIECE_KINDS: usize = 12;

impl PieceKind {
    /// The side this piece belongs to.
    pub fn side(self) -> (r: Side)
        ensures
            r == side_of(self),
    {
        match self {
            PieceKind::King(s) => s,
            PieceKind::Queen(s) => s,
            PieceKind::Rook(s) => s,
            PieceKind::Bishop(s) => s,
            PieceKind::Knight(s) => s,
            PieceKind::Pawn(s) => s,
        }
    }

    /// The slot of this piece in a fixed table of `PIECE_KINDS` entries
    /// (sprites, for instance).
    pub fn index(self) -> (r: usize)
        ensures
            r as int == kind_index(self),
            r < PIECE_KINDS,
    {
        let base: usize = match self.side() {
            Side::White => 0,
            Side::Black => 6,
        };
        let k: usize = match self {
            PieceKind::King(_) => 0,
            PieceKind::Queen(_) => 1,
            PieceKind::Rook(_) => 2,
            PieceKind::Bishop(_) => 3,
            PieceKind::Knight(_) => 4,
            PieceKind::Pawn(_) => 5,
        };
        base + k
    }

    /// The piece stored at slot `i` of a table keyed by piece.
    pub fn from_index(i: usize) -> (r: PieceKind)
        requires
            i < PIECE_KINDS,
        ensures
            r == kind_at_index(i as int),
            kind_index(r) == i as int,
    {
        let s = if i < 6 { Side::White } else { Side::Black };
        let k: usize = if i < 6 { i } else { i - 6 };
        if k == 0 {
            PieceKind::King(s)
        } else if k == 1 {
            PieceKind::Queen(s)
        } else if k == 2 {
            PieceKind::Rook(s)
        } else if k == 3 {
            PieceKind::Bishop(s)
        } else if k == 4 {
            PieceKind::Knight(s)
        } else {
            PieceKind::Pawn(s)
        }
    }
}

/// Distinct pieces have distinct table slots, and every slot names the piece
/// stored there: the table keyed by piece is a bijection onto `0..PIECE_KINDS`.
pub proof fn lemma_kind_index_bijective(p: PieceKind, q: PieceKind)
    ensures
        0 <= kind_index(p) < PIECE_KINDS,
        kind_at_index(kind_index(p)) == p,
        kind_index(p) == kind_index(q) ==> p == q,
{
}

/// A board coordinate: `file` 1..=8 stands for a..h, `rank` 1..=8.
#[derive(Clone, Copy, Debug, PartialEq, Eq, Hash, Structural)]
pub struct Square {
    pub file: u8,
    pub rank: u8,
}

/// Why a string is not a square in algebraic notation.
#[derive(Clone, Copy, Debug, PartialEq, Eq, Structural)]
pub enum SquareError {
    MalformedSquareString,
}

impl Square {
    /// Both coordinates lie on the board.
    pub open spec fn wf(self) -> bool {
        1 <= self.file <= 8 && 1 <= self.rank <= 8
    }

    /// Position of this square in a row-major table of the 64 squares,
    /// rank 1 first.
    pub open spec fn spec_index(self) -> int {
        (self.rank - 1) * 8 + (self.file - 1)
    }

    /// The square at coordinates (`file`, `rank`).
    pub fn new(file: u8, rank: u8) -> (r: Option<Square>)
        ensures
            r is Some <==> (1 <= file <= 8 && 1 <= rank <= 8),
            r is Some ==> r->0 == (Square { file, rank }),
    {
        if 1 <= file && file <= 8 && 1 <= rank && rank <= 8 {
            Some(Square { file, rank })
        } else {
            None
        }
    }

    /// Position of this square in a row-major table of the 64 squares.
    pub fn index(self) -> (r: usize)
        requires
            self.wf(),
        ensures
            r as int == self.spec_index(),
            r < 64,
    {
        (self.rank as usize - 1) * 8 + (self.file as usize - 1)
    }

    /// The square at position `i` of a row-major table of the 64 squares.
    pub fn from_index(i: usize) -> (r: Square)
        requires
            i < 64,
        ensures
            r.wf(),
            r.spec_index() == i as int,
    {
        Square { file: (i % 8) as u8 + 1, rank: (i / 8) as u8 + 1 }
    }

    /// Algebraic notation of this square, e.g. `"e4"`.
    pub open spec fn spec_algebraic(self) -> Seq<char> {
        seq![file_letter(self.file as int), rank_digit(self.rank as int)]
    }

    /// Algebraic notation of this square, e.g. `"e4"`.
    pub fn to_algebraic(&self) -> (r: String)
        requires
            self.wf(),
        ensures
            r@ == self.spec_algebraic(),
    {
        let mut s = String::new();
        s.append(file_str(self.file));
        s.append(rank_str(self.rank));
        proof {
            assert(s@ =~= self.spec_algebraic());
        }
        s
    }

    /// Parses algebraic notation: a letter `a`..`h` followed by a digit
    /// `1`..`8`, and nothing else.
    pub fn from_algebraic(s: &str) -> (r: Result<Square, SquareError>)
        ensures
            r is Ok <==> is_algebraic(s@),
            r is Ok ==> r->Ok_0.wf() && r->Ok_0.spec_algebraic() == s@,
            r is Err ==> r->Err_0 == SquareError::MalformedSquareString,
    {
        if s.unicode_len() != 2 {
            return Err(SquareError::MalformedSquareString);
        }
        let f = file_of_letter(s.get_char(0));
        let k = rank_of_digit(s.get_char(1));
        if f == 0 || k == 0 {
            return Err(SquareError::MalformedSquareString);
        }
        let sq = Square { file: f, rank: k };
        proof {
            assert(sq.spec_algebraic() =~= s@);
        }
        Ok(sq)
    }
}

/// The letter of file `f` (1 for `a`).
pub open spec fn file_letter(f: int) -> char {
    if f == 1 {
        'a'
    } else if f == 2 {
        'b'
    } else if f == 3 {
        'c'
    } else if f == 4 {
        'd'
    } else if f == 5 {
        'e'
    } else if f == 6 {
        'f'
    } else if f == 7 {
        'g'
    } else {
        'h'
    }
}

/// The digit of rank `k`.
pub open spec fn rank_digit(k: int) -> char {
    if k == 1 {
        '1'
    } else if k == 2 {
        '2'
    } else if k == 3 {
        '3'
    } else if k == 4 {
        '4'
    } else if k == 5 {
        '5'
    } else if k == 6 {
        '6'
    } else if k == 7 {
        '7'
    } else {
        '8'
    }
}

/// A two-character string naming a square.
pub open spec fn is_algebraic(s: Seq<char>) -> bool {
    &&& s.len() == 2
    &&& exists|f: int| 1 <= f <= 8 && #[trigger] file_letter(f) == s[0]
    &&& exists|k: int| 1 <= k <= 8 && #[trigger] rank_digit(k) == s[1]
}

fn file_str(f: u8) -> (r: &'static str)
    requires
        1 <= f <= 8,
    ensures
        r@ == seq![file_letter(f as int)],
{
    proof {
        reveal_strlit("a");
        reveal_strlit("b");
        reveal_strlit("c");
        reveal_strlit("d");
        reveal_strlit("e");
        reveal_strlit("f");
        reveal_strlit("g");
        reveal_strlit("h");
    }
    let r = if f == 1 {
        "a"
    } else if f == 2 {
        "b"
    } else if f == 3 {
        "c"
    } else if f == 4 {
        "d"
    } else if f == 5 {
        "e"
    } else if f == 6 {
        "f"
    } else if f == 7 {
        "g"
    } else {
        "h"
    };
    assert(r@ =~= seq![file_letter(f as int)]);
    r
}

fn rank_str(k: u8) -> (r: &'static str)
    requires
        1 <= k <= 8,
    ensures
        r@ == seq![rank_digit(k as int)],
{
    proof {
        reveal_strlit("1");
        reveal_strlit("2");
        reveal_strlit("3");
        reveal_strlit("4");
        reveal_strlit("5");
        reveal_strlit("6");
        reveal_strlit("7");
        reveal_strlit("8");
    }
    let r = if k == 1 {
        "1"
    } else if k == 2 {
        "2"
    } else if k == 3 {
        "3"
    } else if k == 4 {
        "4"
    } else if k == 5 {
        "5"
    } else if k == 6 {
        "6"
    } else if k == 7 {
        "7"
    } else {
        "8"
    };
    assert(r@ =~= seq![rank_digit(k as int)]);
    r
}

/// The file of a letter, or 0 if it is no file letter.
fn file_of_letter(c: char) -> (r: u8)
    ensures
        r <= 8,
        r != 0 ==> file_letter(r as int) == c,
        r == 0 ==> forall|f: int| 1 <= f <= 8 ==> #[trigger] file_letter(f) != c,
{
    match c {
        'a' => 1,
        'b' => 2,
        'c' => 3,
        'd' => 4,
        'e' => 5,
        'f' => 6,
        'g' => 7,
        'h' => 8,
        _ => 0,
    }
}

/// The rank of a digit, or 0 if it is no rank digit.
fn rank_of_digit(c: char) -> (r: u8)
    ensures
        r <= 8,
        r != 0 ==> rank_digit(r as int) == c,
        r == 0 ==> forall|k: int| 1 <= k <= 8 ==> #[trigger] rank_digit(k) != c,
{
    match c {
        '1' => 1,
        '2' => 2,
        '3' => 3,
        '4' => 4,
        '5' => 5,
        '6' => 6,
        '7' => 7,
        '8' => 8,
        _ => 0,
    }
}

/// Writing a square in algebraic notation and reading it back gives the
/// same square, and the notation of two different squares differs.
pub proof fn lemma_algebraic_round_trip(a: Square, b: Square)
    requires
        a.wf(),
        b.wf(),
    ensures
        is_algebraic(a.spec_algebraic()),
        a.spec_algebraic() == b.spec_algebraic() ==> a == b,
{
    let s = a.spec_algebraic();
    assert(file_letter(a.file as int) == s[0]);
    assert(rank_digit(a.rank as int) == s[1]);
    if a.spec_algebraic() == b.spec_algebraic() {
        assert(a.spec_algebraic()[0] == b.spec_algebraic()[0]);
        assert(a.spec_algebraic()[1] == b.spec_algebraic()[1]);
    }
}

} // verus!
