use crate::error::{kind_of, Error, Failure};
use crate::game::{updated, Game, UpdateGame};
use crate::id::{decodes_to, is_id_text, GameId};
use crate::pagination::{page, page_start, Pagination};
use vstd::prelude::*;

verus! {

/// The four operations that the service offers on games.
#[derive(Clone, Copy, Debug, PartialEq, Eq, Structural)]
pub enum Endpoint {
    List,
    Create,
    Update,
    Delete,
}

/// The status code of a successful call of each operation.
pub open spec fn success_status(e: Endpoint) -> u16 {
    match e {
        Endpoint::List => 200,
        Endpoint::Create => 201,
        Endpoint::Update => 200,
        Endpoint::Delete => 204,
    }
}

/// The status code of the response to a call of `e` that ended with `r`.
pub open spec fn status_of<T>(e: Endpoint, r: Result<T, Failure>) -> u16 {
    match r {
        Ok(_) => success_status(e),
        Err(f) => match kind_of(f) {
            Error::NotFound => 404,
            Error::StoreError => 500,
        },
    }
}

/// What a creation returns, given the insertion and the read that follows it.
pub open spec fn create_result(inserted: Result<GameId, Error>, refetched: Result<Option<Game>, Error>) -> Result<Game, Failure> {
    match (inserted, refetched) {
        (Ok(_), Ok(Some(g))) => Ok(g),
        _ => Err(Failure::CreateFailed),
    }
}

/// What an update returns, given how many games the change matched and the
/// read that follows it.
pub open spec fn update_result(matched: Result<u64, Error>, refetched: Result<Option<Game>, Error>) -> Result<Game, Failure> {
    match matched {
        Err(_) => Err(Failure::UpdateFailed),
        Ok(0) => Err(Failure::NotFound),
        Ok(_) => match refetched {
            Ok(Some(g)) => Ok(g),
            Ok(None) => Err(Failure::NotFound),
            Err(_) => Err(Failure::UpdateFailed),
        },
    }
}

/// What a deletion returns, given how many games the store removed.
pub open spec fn delete_result(deleted: Result<u64, Error>) -> Result<(), Failure> {
    match deleted {
        Err(_) => Err(Failure::DeleteFailed),
        Ok(0) => Err(Failure::NotFound),
        Ok(_) => Ok(()),
    }
}

/// The status code of the response to a call of `e` that ended with `r`.
pub fn status<T>(e: Endpoint, r: &Result<T, Failure>) -> (s: u16)
    ensures
        s == status_of(e, *r),
{
    match r {
        Ok(_) => match e {
            Endpoint::List => 200,
            Endpoint::Create => 201,
            Endpoint::Update => 200,
            Endpoint::Delete => 204,
        },
        Err(f) => match f.kind() {
            Error::NotFound => 404,
            Error::StoreError => 500,
        },
    }
}

/// The game that a path names, for an update or a deletion; a text that is
/// no identifier names no game.
pub fn target(id: &str) -> (r: Result<GameId, Failure>)
    ensures
        r.is_ok() <==> is_id_text(id@),
        r matches Ok(g) ==> decodes_to(id@, g.bytes@),
        r matches Err(f) ==> f == Failure::NotFound,
{
    match GameId::parse(id) {
        Some(g) => Ok(g),
        None => Err(Failure::NotFound),
    }
}

/// The games that a listing returns: the page that `p` asks for of what the
/// store read. `fetched` is `Err` where the store could not open the listing,
/// `Ok(Err(..))` where it could not read it.
pub fn list_games(fetched: Result<Result<Vec<Game>, Error>, Error>, p: &Pagination) -> (r: Result<Vec<Game>, Failure>)
    ensures
        r matches Ok(v) ==> fetched matches Ok(Ok(all)) && v@ == page(all@, *p),
        r is Ok <==> fetched matches Ok(Ok(_)),
        r matches Err(f) ==> f == (if fetched is Err { Failure::FindFailed } else { Failure::ParseFailed }),
{
    match fetched {
        Ok(Ok(all)) => Ok(p.paginate(&all)),
        Ok(Err(_)) => Err(Failure::ParseFailed),
        Err(_) => Err(Failure::FindFailed),
    }
}

/// The game that a creation returns: the game read back after the insertion;
/// a failure of either step fails the creation.
pub fn create_outcome(inserted: Result<GameId, Error>, refetched: Result<Option<Game>, Error>) -> (r: Result<Game, Failure>)
    ensures
        r == create_result(inserted, refetched),
{
    match inserted {
        Err(_) => Err(Failure::CreateFailed),
        Ok(_) => match refetched {
            Ok(Some(g)) => Ok(g),
            _ => Err(Failure::CreateFailed),
        },
    }
}

/// The game that an update returns: not found where the change matched no
/// game, else the game read back after it.
pub fn update_outcome(matched: Result<u64, Error>, refetched: Result<Option<Game>, Error>) -> (r: Result<Game, Failure>)
    ensures
        r == update_result(matched, refetched),
{
    match matched {
        Err(_) => Err(Failure::UpdateFailed),
        Ok(n) => if n == 0 {
            Err(Failure::NotFound)
        } else {
            match refetched {
                Ok(Some(g)) => Ok(g),
                Ok(None) => Err(Failure::NotFound),
                Err(_) => Err(Failure::UpdateFailed),
            }
        },
    }
}

/// The result of a deletion: not found where the store removed no game.
pub fn delete_outcome(deleted: Result<u64, Error>) -> (r: Result<(), Failure>)
    ensures
        r == delete_result(deleted),
{
    match deleted {
        Err(_) => Err(Failure::DeleteFailed),
        Ok(n) => if n == 0 {
            Err(Failure::NotFound)
        } else {
            Ok(())
        },
    }
}

/// Deleting a game that the store does not hold is answered with not found
/// and status 404; deleting one that it holds succeeds with status 204.
pub proof fn lemma_delete_missing_is_not_found(deleted: u64)
    ensures
        deleted == 0 ==> delete_result(Ok(deleted)) == Err::<(), Failure>(Failure::NotFound),
        deleted == 0 ==> status_of(Endpoint::Delete, delete_result(Ok(deleted))) == 404,
        deleted > 0 ==> delete_result(Ok(deleted)) == Ok::<(), Failure>(()),
        deleted > 0 ==> status_of(Endpoint::Delete, delete_result(Ok(deleted))) == 204,
{
}

/// An update that matches no game is answered with not found, whatever the
/// read after it gave.
pub proof fn lemma_update_missing_is_not_found(refetched: Result<Option<Game>, Error>)
    ensures
        update_result(Ok(0), refetched) == Err::<Game, Failure>(Failure::NotFound),
        status_of(Endpoint::Update, update_result(Ok(0), refetched)) == 404,
{
}

/// What the store holds after it applies the change `u` to the game with
/// the identifier `id`.
pub open spec fn store_updated(store: Seq<Game>, id: GameId, u: UpdateGame) -> Seq<Game> {
    store.map_values(|g: Game| if g.id == id { updated(g, u) } else { g })
}

/// An update keeps the store's games and their order: the game with the
/// identifier takes the supplied scores and keeps its identifier and every
/// score not supplied, and every other game stays as it was; so does the
/// listing of the store.
pub proof fn lemma_update_store(store: Seq<Game>, id: GameId, u: UpdateGame, p: Pagination)
    ensures
        store_updated(store, id, u).len() == store.len(),
        forall|i: int|
            0 <= i < store.len() && store[i].id != id ==> #[trigger] store_updated(store, id, u)[i]
                == store[i],
        forall|i: int|
            0 <= i < store.len() && store[i].id == id ==> #[trigger] store_updated(store, id, u)[i]
                == updated(store[i], u),
        forall|i: int|
            0 <= i < store.len() ==> (#[trigger] store_updated(store, id, u)[i]).id == store[i].id,
        page(store_updated(store, id, u), p).len() == page(store, p).len(),
        forall|i: int|
            0 <= i < page(store, p).len() && page(store, p)[i].id != id ==> #[trigger] page(
                store_updated(store, id, u),
                p,
            )[i] == page(store, p)[i],
{
    let after = store_updated(store, id, u);
    assert forall|i: int|
        0 <= i < page(store, p).len() && page(store, p)[i].id != id implies #[trigger] page(
            after,
            p,
        )[i] == page(store, p)[i] by {
        let j = page_start(store.len() as int, p) + i;
        assert(page(store, p)[i] == store[j]);
        assert(page(after, p)[i] == after[j]);
    }
}

/// What the store holds after it deletes every game with the identifier
/// `id`: the other games, in their order.
pub open spec fn remaining(store: Seq<Game>, id: GameId) -> Seq<Game> {
    store.filter(|g: Game| g.id != id)
}

/// The store loses a game on deletion exactly when it held one with the
/// identifier.
proof fn lemma_remaining_len(store: Seq<Game>, id: GameId)
    ensures
        remaining(store, id).len() <= store.len(),
        remaining(store, id).len() < store.len() <==> exists|i: int|
            0 <= i < store.len() && (#[trigger] store[i]).id == id,
    decreases store.len(),
{
    reveal(Seq::filter);
    if store.len() > 0 {
        let init = store.drop_last();
        lemma_remaining_len(init, id);
        assert(remaining(store, id) == (if store.last().id != id {
            remaining(init, id).push(store.last())
        } else {
            remaining(init, id)
        }));
        if exists|i: int| 0 <= i < init.len() && (#[trigger] init[i]).id == id {
            let i = choose|i: int| 0 <= i < init.len() && (#[trigger] init[i]).id == id;
            assert(store[i] == init[i]);
        }
        if exists|i: int| 0 <= i < store.len() && (#[trigger] store[i]).id == id {
            let i = choose|i: int| 0 <= i < store.len() && (#[trigger] store[i]).id == id;
            if i < init.len() {
                assert(init[i] == store[i]);
            }
        }
    }
}

/// Deleting by an identifier that no stored game has is answered with not
/// found; deleting by one that a stored game has succeeds, and no page of the
/// listing after it holds a game with that identifier.
pub proof fn lemma_delete_then_list(store: Seq<Game>, id: GameId, deleted: u64, p: Pagination)
    requires
        deleted == store.len() - remaining(store, id).len(),
    ensures
        (forall|i: int| 0 <= i < store.len() ==> (#[trigger] store[i]).id != id) ==> delete_result(
            Ok(deleted),
        ) == Err::<(), Failure>(Failure::NotFound),
        (exists|i: int| 0 <= i < store.len() && (#[trigger] store[i]).id == id) ==> delete_result(
            Ok(deleted),
        ) == Ok::<(), Failure>(()),
        forall|i: int|
            0 <= i < page(remaining(store, id), p).len() ==> (#[trigger] page(
                remaining(store, id),
                p,
            )[i]).id != id,
{
    lemma_remaining_len(store, id);
    let after = remaining(store, id);
    assert forall|i: int| 0 <= i < page(after, p).len() implies (#[trigger] page(after, p)[i]).id
        != id by {
        let j = page_start(after.len() as int, p) + i;
        assert(page(after, p)[i] == after[j]);
        store.lemma_filter_pred(|g: Game| g.id != id, j);
    }
}

} // verus!
