use lotus_ledger::{
    create_outcome, delete_outcome, list_games, status, target, update_outcome, CreateGame,
    Endpoint, Error, Failure, Field, Game, GameId, Pagination, UpdateGame, STARTING_SCORE,
};

fn id_of(last: u8) -> GameId {
    let mut bytes = [0u8; 12];
    bytes[11] = last;
    GameId { bytes }
}

fn game(last: u8) -> Game {
    Game::with_id(
        id_of(last),
        CreateGame { player1: last, player2: 1, player3: None, player4: None },
    )
}

#[test]
fn create_fills_absent_scores_with_start() {
    let g = Game::with_id(id_of(9), CreateGame { player1: 7, player2: 9, player3: None, player4: None });
    assert_eq!((g.player1, g.player2, g.player3, g.player4), (7, 9, 40, 40));
    assert_eq!(STARTING_SCORE, 40);
}

#[test]
fn create_keeps_given_scores() {
    let id = id_of(3);
    let g = Game::with_id(id, CreateGame { player1: 0, player2: 255, player3: Some(1), player4: Some(2) });
    assert_eq!(g.id, id);
    assert_eq!((g.player1, g.player2, g.player3, g.player4), (0, 255, 1, 2));
}

#[test]
fn starting_game_is_at_forty() {
    let g = Game::starting(id_of(8));
    assert_eq!(g.id, id_of(8));
    assert_eq!((g.player1, g.player2, g.player3, g.player4), (40, 40, 40, 40));
}

#[test]
fn id_text_round_trip() {
    let id = GameId { bytes: [0x00, 0x01, 0x0a, 0x10, 0xab, 0xff, 0x12, 0x34, 0x56, 0x78, 0x9a, 0xbc] };
    let text = id.to_hex();
    assert_eq!(text, "00010a10abff123456789abc");
    assert_eq!(GameId::parse(&text), Some(id));
    let all_ff = GameId { bytes: [0xff; 12] };
    assert_eq!(all_ff.to_hex(), "ffffffffffffffffffffffff");
    assert_eq!(GameId::parse(&all_ff.to_hex()), Some(all_ff));
}

#[test]
fn parse_accepts_upper_case() {
    let id = GameId::parse("00010A10ABFF123456789ABC").unwrap();
    assert_eq!(id.bytes, [0x00, 0x01, 0x0a, 0x10, 0xab, 0xff, 0x12, 0x34, 0x56, 0x78, 0x9a, 0xbc]);
}

#[test]
fn parse_refuses_malformed_text() {
    assert_eq!(GameId::parse(""), None);
    assert_eq!(GameId::parse("00010a10abff123456789ab"), None);
    assert_eq!(GameId::parse("00010a10abff123456789abc00"), None);
    assert_eq!(GameId::parse("00010a10abff123456789abg"), None);
    assert_eq!(GameId::parse("not-an-id"), None);
}

#[test]
fn target_of_malformed_id_is_not_found() {
    assert_eq!(target("xyz"), Err(Failure::NotFound));
    assert_eq!(target("00010a10abff123456789abc"), Ok(GameId::parse("00010a10abff123456789abc").unwrap()));
}

#[test]
fn update_changes_only_supplied_fields() {
    let g = Game::with_id(id_of(1), CreateGame { player1: 10, player2: 20, player3: Some(30), player4: Some(50) });
    let u = UpdateGame { player1: 11, player2: 21, player3: None, player4: Some(5) };
    let h = g.apply_update(&u);
    assert_eq!(h.id, g.id);
    assert_eq!((h.player1, h.player2, h.player3, h.player4), (11, 21, 30, 5));
    assert_eq!(u.changes(), vec![(Field::Player1, 11), (Field::Player2, 21), (Field::Player4, 5)]);
}

#[test]
fn update_with_all_fields_lists_all() {
    let u = UpdateGame { player1: 1, player2: 2, player3: Some(3), player4: Some(4) };
    assert_eq!(
        u.changes(),
        vec![(Field::Player1, 1), (Field::Player2, 2), (Field::Player3, 3), (Field::Player4, 4)]
    );
    let keys: Vec<&str> = u.changes().iter().map(|c| c.0.key()).collect();
    assert_eq!(keys, vec!["player1", "player2", "player3", "player4"]);
}

#[test]
fn default_pagination_lists_everything() {
    let all = vec![game(1), game(2), game(3)];
    assert_eq!(Pagination::default().paginate(&all), all);
    let zero = Pagination { offset: Some(0), limit: None };
    assert_eq!(zero.paginate(&all), all);
}

#[test]
fn pagination_takes_contiguous_slice() {
    let all: Vec<u32> = vec![0, 1, 2, 3, 4, 5, 6];
    assert_eq!(Pagination { offset: Some(2), limit: Some(3) }.paginate(&all), vec![2, 3, 4]);
    assert_eq!(Pagination { offset: Some(5), limit: Some(3) }.paginate(&all), vec![5, 6]);
    assert_eq!(Pagination { offset: Some(7), limit: Some(3) }.paginate(&all), Vec::<u32>::new());
    assert_eq!(Pagination { offset: Some(100), limit: None }.paginate(&all), Vec::<u32>::new());
    assert_eq!(Pagination { offset: None, limit: Some(0) }.paginate(&all), Vec::<u32>::new());
    assert_eq!(Pagination { offset: None, limit: Some(usize::MAX) }.paginate(&all), all);
    assert_eq!(Pagination { offset: Some(usize::MAX), limit: Some(usize::MAX) }.paginate(&all), Vec::<u32>::new());
}

#[test]
fn list_pages_or_fails_with_store_error() {
    let all = vec![game(1), game(2), game(3)];
    let p = Pagination { offset: Some(1), limit: Some(1) };
    assert_eq!(list_games(Ok(Ok(all.clone())), &p), Ok(vec![all[1]]));
    assert_eq!(list_games(Err(Error::StoreError), &p), Err(Failure::FindFailed));
    assert_eq!(list_games(Ok(Err(Error::StoreError)), &p), Err(Failure::ParseFailed));
    assert_eq!(Failure::FindFailed.message(), "Unable to find collection.");
    assert_eq!(Failure::ParseFailed.message(), "Unable to parse collection.");
}

#[test]
fn create_outcome_cases() {
    let g = game(4);
    assert_eq!(create_outcome(Ok(g.id), Ok(Some(g))), Ok(g));
    assert_eq!(create_outcome(Ok(g.id), Ok(None)), Err(Failure::CreateFailed));
    assert_eq!(create_outcome(Ok(g.id), Err(Error::StoreError)), Err(Failure::CreateFailed));
    assert_eq!(create_outcome(Err(Error::StoreError), Ok(Some(g))), Err(Failure::CreateFailed));
    assert_eq!(Failure::CreateFailed.message(), "Unable to create game.");
    assert_eq!(status(Endpoint::Create, &create_outcome(Ok(g.id), Ok(None))), 500);
}

#[test]
fn update_outcome_cases() {
    let g = game(5);
    assert_eq!(update_outcome(Ok(1), Ok(Some(g))), Ok(g));
    assert_eq!(update_outcome(Ok(0), Ok(Some(g))), Err(Failure::NotFound));
    assert_eq!(update_outcome(Ok(1), Ok(None)), Err(Failure::NotFound));
    assert_eq!(update_outcome(Ok(1), Err(Error::StoreError)), Err(Failure::UpdateFailed));
    assert_eq!(update_outcome(Err(Error::StoreError), Ok(Some(g))), Err(Failure::UpdateFailed));
}

#[test]
fn delete_outcome_cases() {
    assert_eq!(delete_outcome(Ok(1)), Ok(()));
    assert_eq!(delete_outcome(Ok(0)), Err(Failure::NotFound));
    assert_eq!(delete_outcome(Err(Error::StoreError)), Err(Failure::DeleteFailed));
}

#[test]
fn status_codes() {
    let ok: Result<(), Failure> = Ok(());
    assert_eq!(status(Endpoint::List, &ok), 200);
    assert_eq!(status(Endpoint::Create, &ok), 201);
    assert_eq!(status(Endpoint::Update, &ok), 200);
    assert_eq!(status(Endpoint::Delete, &ok), 204);
    let missing: Result<(), Failure> = Err(Failure::NotFound);
    let broken: Result<(), Failure> = Err(Failure::FindFailed);
    assert_eq!(status(Endpoint::Delete, &missing), 404);
    assert_eq!(status(Endpoint::List, &broken), 500);
    let failed_delete: Result<(), Failure> = Err(Failure::DeleteFailed);
    assert_eq!(status(Endpoint::Delete, &failed_delete), 500);
    assert_eq!(Failure::NotFound.kind(), Error::NotFound);
    assert_eq!(Failure::UpdateFailed.kind(), Error::StoreError);
    assert_eq!(Failure::NotFound.message(), "Game not found.");
    assert_eq!(Failure::UpdateFailed.message(), "Unable to update game.");
    assert_eq!(Failure::DeleteFailed.message(), "Unable to delete game.");
}

#[test]
fn create_update_delete_scenario() {
    let mut store: Vec<Game> = Vec::new();

    let created = Game::with_id(
        GameId { bytes: [0x65, 0x2f, 0x1a, 0x00, 0x01, 0x02, 0x03, 0x04, 0x05, 0x00, 0x00, 0x07] },
        CreateGame { player1: 40, player2: 40, player3: None, player4: None },
    );
    store.push(created);
    let r = create_outcome(Ok(created.id), Ok(Some(created)));
    assert_eq!(status(Endpoint::Create, &r), 201);
    let g = r.unwrap();
    assert_eq!((g.player1, g.player2, g.player3, g.player4), (40, 40, 40, 40));
    let text = g.id.to_hex();
    assert_eq!(text.len(), 24);

    let id = target(&text).unwrap();
    assert_eq!(id, g.id);
    let u = UpdateGame { player1: 35, player2: 40, player3: None, player4: None };
    let pos = store.iter().position(|s| s.id == id).unwrap();
    store[pos] = store[pos].apply_update(&u);
    let r = update_outcome(Ok(1), Ok(Some(store[pos])));
    assert_eq!(status(Endpoint::Update, &r), 200);
    let h = r.unwrap();
    assert_eq!((h.id, h.player1, h.player2, h.player3, h.player4), (g.id, 35, 40, 40, 40));

    let before = store.len();
    store.retain(|s| s.id != id);
    let r = delete_outcome(Ok((before - store.len()) as u64));
    assert_eq!(status(Endpoint::Delete, &r), 204);

    let before = store.len();
    store.retain(|s| s.id != id);
    let r = delete_outcome(Ok((before - store.len()) as u64));
    assert_eq!(r, Err(Failure::NotFound));
    assert_eq!(status(Endpoint::Delete, &r), 404);

    let r = list_games(Ok(Ok(store.clone())), &Pagination::default());
    assert_eq!(status(Endpoint::List, &r), 200);
    assert!(r.unwrap().iter().all(|s| s.id != id));
}

#[test]
fn update_leaves_other_games() {
    let mut store = vec![game(1), game(2), game(3)];
    let before = store.clone();
    let u = UpdateGame { player1: 9, player2: 8, player3: Some(7), player4: None };
    for g in store.iter_mut() {
        if g.id == id_of(2) {
            *g = g.apply_update(&u);
        }
    }
    assert_eq!(store.len(), 3);
    assert_eq!(store[0], before[0]);
    assert_eq!(store[2], before[2]);
    assert_eq!((store[1].id, store[1].player1, store[1].player2, store[1].player3, store[1].player4), (id_of(2), 9, 8, 7, 40));
}
