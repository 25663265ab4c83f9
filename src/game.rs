use crate::id::GameId;
use vstd::prelude::*;

verus! {

/// The score a player starts with where the request names none.
pub const STARTING_SCORE: u8 = 40;

/// One game: its identifier and the four players' scores.
#[derive(Clone, Copy, Debug, PartialEq, Eq)]
pub struct Game {
    pub id: GameId,
    pub player1: u8,
    pub player2: u8,
    pub player3: u8,
    pub player4: u8,
}

/// The body of a request that creates a game.
#[derive(Clone, Copy, Debug, PartialEq, Eq, Structural)]
pub struct CreateGame {
    pub player1: u8,
    pub player2: u8,
    pub player3: Option<u8>,
    pub player4: Option<u8>,
}

/// The body of a request that changes a game: the two first scores always,
/// the two others only where they are present.
#[derive(Clone, Copy, Debug, PartialEq, Eq, Structural)]
pub struct UpdateGame {
    pub player1: u8,
    pub player2: u8,
    pub player3: Option<u8>,
    pub player4: Option<u8>,
}

/// A stored score field of a game.
#[derive(Clone, Copy, Debug, PartialEq, Eq, Structural)]
pub enum Field {
    Player1,
    Player2,
    Player3,
    Player4,
}

/// An optional score, or the starting score where it is absent.
pub open spec fn score_or_start(s: Option<u8>) -> u8 {
    match s {
        Some(v) => v,
        None => STARTING_SCORE,
    }
}

/// An optional score, or `prior` where it is absent.
pub open spec fn score_or_keep(s: Option<u8>, prior: u8) -> u8 {
    match s {
        Some(v) => v,
        None => prior,
    }
}

/// The game that a creation request describes, under the identifier `id`.
pub open spec fn created(id: GameId, req: CreateGame) -> Game {
    Game {
        id,
        player1: req.player1,
        player2: req.player2,
        player3: score_or_start(req.player3),
        player4: score_or_start(req.player4),
    }
}

/// The game `g` after the change `u`: the supplied fields replaced, every
/// other field as it was.
pub open spec fn updated(g: Game, u: UpdateGame) -> Game {
    Game {
        id: g.id,
        player1: u.player1,
        player2: u.player2,
        player3: score_or_keep(u.player3, g.player3),
        player4: score_or_keep(u.player4, g.player4),
    }
}

/// The fields that a change writes, with their new values, in field order.
pub open spec fn changes_of(u: UpdateGame) -> Seq<(Field, u8)> {
    let first = seq![(Field::Player1, u.player1), (Field::Player2, u.player2)];
    let third = match u.player3 {
        Some(v) => first.push((Field::Player3, v)),
        None => first,
    };
    match u.player4 {
        Some(v) => third.push((Field::Player4, v)),
        None => third,
    }
}

/// `g` with one field set to `v`.
pub open spec fn with_field(g: Game, f: Field, v: u8) -> Game {
    match f {
        Field::Player1 => Game { player1: v, ..g },
        Field::Player2 => Game { player2: v, ..g },
        Field::Player3 => Game { player3: v, ..g },
        Field::Player4 => Game { player4: v, ..g },
    }
}

/// `g` with each listed field set in turn.
pub open spec fn apply_changes(g: Game, cs: Seq<(Field, u8)>) -> Game
    decreases cs.len(),
{
    if cs.len() == 0 {
        g
    } else {
        with_field(apply_changes(g, cs.drop_last()), cs.last().0, cs.last().1)
    }
}

/// The name of a field in a stored document.
pub open spec fn field_key(f: Field) -> Seq<char> {
    match f {
        Field::Player1 => "player1"@,
        Field::Player2 => "player2"@,
        Field::Player3 => "player3"@,
        Field::Player4 => "player4"@,
    }
}

impl Field {
    /// The name of the field in a stored document.
    pub fn key(&self) -> (r: &'static str)
        ensures
            r@ == field_key(*self),
    {
        match self {
            Field::Player1 => "player1",
            Field::Player2 => "player2",
            Field::Player3 => "player3",
            Field::Player4 => "player4",
        }
    }
}

impl Game {
    /// A game under the identifier `id`, every player at the starting score.
    pub fn starting(id: GameId) -> (r: Game)
        ensures
            r.id == id,
            r.player1 == STARTING_SCORE,
            r.player2 == STARTING_SCORE,
            r.player3 == STARTING_SCORE,
            r.player4 == STARTING_SCORE,
    {
        Game {
            id,
            player1: STARTING_SCORE,
            player2: STARTING_SCORE,
            player3: STARTING_SCORE,
            player4: STARTING_SCORE,
        }
    }

    /// The game that `req` describes, under the identifier `id`.
    pub fn with_id(id: GameId, req: CreateGame) -> (r: Game)
        ensures
            r == created(id, req),
    {
        let player3 = match req.player3 {
            Some(v) => v,
            None => STARTING_SCORE,
        };
        let player4 = match req.player4 {
            Some(v) => v,
            None => STARTING_SCORE,
        };
        Game { id, player1: req.player1, player2: req.player2, player3, player4 }
    }

    /// This game after the change `u`.
    pub fn apply_update(&self, u: &UpdateGame) -> (r: Game)
        ensures
            r == updated(*self, *u),
    {
        let player3 = match u.player3 {
            Some(v) => v,
            None => self.player3,
        };
        let player4 = match u.player4 {
            Some(v) => v,
            None => self.player4,
        };
        Game { id: self.id, player1: u.player1, player2: u.player2, player3, player4 }
    }
}

impl UpdateGame {
    /// The fields that this change writes to the stored game, with their new
    /// values; an absent optional score is left out, not reset.
    pub fn changes(&self) -> (r: Vec<(Field, u8)>)
        ensures
            r@ == changes_of(*self),
    {
        let mut r: Vec<(Field, u8)> = Vec::new();
        r.push((Field::Player1, self.player1));
        r.push((Field::Player2, self.player2));
        if let Some(v) = self.player3 {
            r.push((Field::Player3, v));
        }
        if let Some(v) = self.player4 {
            r.push((Field::Player4, v));
        }
        assert(r@ =~= changes_of(*self));
        r
    }
}

/// Writing the fields that `changes` lists into a stored game gives exactly
/// the game after the change: the supplied scores replaced, the identifier
/// and every score not supplied kept.
pub proof fn lemma_changes_apply(g: Game, u: UpdateGame)
    ensures
        apply_changes(g, changes_of(u)) == updated(g, u),
        updated(g, u).id == g.id,
        u.player3.is_none() ==> updated(g, u).player3 == g.player3,
        u.player4.is_none() ==> updated(g, u).player4 == g.player4,
{
    let one = seq![(Field::Player1, u.player1)];
    let first = seq![(Field::Player1, u.player1), (Field::Player2, u.player2)];
    assert(one.drop_last() =~= Seq::<(Field, u8)>::empty());
    assert(apply_changes(g, Seq::<(Field, u8)>::empty()) == g);
    assert(one.len() == 1 && one.last() == (Field::Player1, u.player1));
    assert(first.len() == 2 && first.last() == (Field::Player2, u.player2));
    assert(apply_changes(g, one) == with_field(g, Field::Player1, u.player1));
    assert(first.drop_last() =~= one);
    let g2 = apply_changes(g, first);
    assert(g2 == with_field(with_field(g, Field::Player1, u.player1), Field::Player2, u.player2));
    let third = match u.player3 {
        Some(v) => first.push((Field::Player3, v)),
        None => first,
    };
    if let Some(v) = u.player3 {
        assert(first.push((Field::Player3, v)).drop_last() =~= first);
        assert(apply_changes(g, third) == with_field(g2, Field::Player3, v));
    }
    assert(apply_changes(g, third) == Game { player3: score_or_keep(u.player3, g.player3), ..g2 });
    if let Some(v) = u.player4 {
        assert(third.push((Field::Player4, v)).drop_last() =~= third);
        assert(apply_changes(g, changes_of(u)) == with_field(apply_changes(g, third), Field::Player4, v));
    }
}

/// A created game carries the two first scores of the request, and each of
/// the two others as given or, where absent, the starting score.
pub proof fn lemma_created_scores(id: GameId, req: CreateGame)
    ensures
        created(id, req).player1 == req.player1,
        created(id, req).player2 == req.player2,
        created(id, req).player3 == (if req.player3.is_some() { req.player3.unwrap() } else { STARTING_SCORE }),
        created(id, req).player4 == (if req.player4.is_some() { req.player4.unwrap() } else { STARTING_SCORE }),
{
}

} // verus!
