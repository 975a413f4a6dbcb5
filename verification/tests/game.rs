use pleco::Board;
use tchess::error::TchessError;
use tchess::game::TchessGame;
use tchess::ledger::{NonFungibleAddress, NonFungibleId, OwnershipProof, ResourceAddress};
use tchess::types::{Outcome, Player};

const START: &str = "rnbqkbnr/pppppppp/8/8/8/8/PPPPPPPP/RNBQKBNR w KQkq - 0 1";

const QUIET: u16 = 0;
const DOUBLE_PUSH: u16 = 1;

fn badge() -> ResourceAddress {
    ResourceAddress { key: [7u8; 32] }
}

fn ann() -> NonFungibleId {
    NonFungibleId::U256([1u8; 32])
}

fn bob() -> NonFungibleId {
    NonFungibleId::U256([2u8; 32])
}

fn eve() -> NonFungibleId {
    NonFungibleId::U256([3u8; 32])
}

fn proof_of(id: NonFungibleId) -> OwnershipProof {
    OwnershipProof::new(badge(), vec![id])
}

/// A game in which ann plays white and bob plays black.
fn new_game() -> TchessGame {
    TchessGame::new(
        NonFungibleAddress::new(badge(), ann()),
        NonFungibleAddress::new(badge(), bob()),
    )
    .unwrap()
}

fn square(name: &str) -> u16 {
    let bytes = name.as_bytes();
    (bytes[0] - b'a') as u16 + 8 * (bytes[1] - b'1') as u16
}

/// The sixteen bits of a move: the flag, the square it leaves, the square
/// it reaches.
fn bits(flag: u16, from: &str, to: &str) -> u16 {
    (flag << 12) | square(from) | (square(to) << 6)
}

/// The bits of the legal move that the engine writes as `uci` on the
/// game's board.
fn legal_bits(game: &TchessGame, uci: &str) -> u16 {
    let board = Board::from_fen(game.board_state()).unwrap();
    let moves = board.generate_moves();
    let found = moves.iter().find(|m| m.stringify() == uci);
    match found {
        Some(m) => m.get_raw(),
        None => panic!("{} is not legal on {}", uci, game.board_state()),
    }
}

/// Plays `line` in turn, white first, and expects every move to be taken.
fn play(game: &mut TchessGame, line: &[&str]) {
    for (i, uci) in line.iter().enumerate() {
        let mover = if i % 2 == 0 { ann() } else { bob() };
        let mv = legal_bits(game, uci);
        assert_eq!(game.make_move(&proof_of(mover), mv), Ok(()));
    }
}

#[test]
fn new_game_is_open_at_the_start() {
    let game = new_game();
    assert_eq!(game.board_state(), START);
    assert_eq!(game.outcome(), None);
    assert!(!game.is_game_over());
    assert_eq!(*game.white(), ann());
    assert_eq!(*game.black(), bob());
    assert_eq!(game.player_badge(), badge());
}

#[test]
fn new_game_wants_one_resource() {
    let made = TchessGame::new(
        NonFungibleAddress::new(badge(), ann()),
        NonFungibleAddress::new(ResourceAddress { key: [8u8; 32] }, bob()),
    );
    assert_eq!(made.err(), Some(TchessError::ResourceMismatch));
}

#[test]
fn opening_move_changes_the_board_only() {
    let mut game = new_game();
    assert_eq!(bits(DOUBLE_PUSH, "e2", "e4"), 5900);
    assert_eq!(game.make_move(&proof_of(ann()), 5900), Ok(()));
    assert_eq!(game.board_state(), "rnbqkbnr/pppppppp/8/8/4P3/8/PPPP1PPP/RNBQKBNR b KQkq - 0 1");
    assert_eq!(game.outcome(), None);
    assert_eq!(*game.white(), ann());
    assert_eq!(*game.black(), bob());
}

#[test]
fn second_move_starts_from_the_new_board() {
    let mut game = new_game();
    assert_eq!(game.make_move(&proof_of(ann()), bits(DOUBLE_PUSH, "e2", "e4")), Ok(()));
    assert_eq!(game.make_move(&proof_of(bob()), bits(DOUBLE_PUSH, "e7", "e5")), Ok(()));
    assert_eq!(
        game.board_state(),
        "rnbqkbnr/pppp1ppp/8/4p3/4P3/8/PPPP1PPP/RNBQKBNR w KQkq - 0 2"
    );
    assert_eq!(game.make_move(&proof_of(ann()), bits(QUIET, "g1", "f3")), Ok(()));
    assert_eq!(
        game.board_state(),
        "rnbqkbnr/pppp1ppp/8/4p3/4P3/5N2/PPPP1PPP/RNBQKB1R b KQkq - 1 2"
    );
    assert_eq!(game.outcome(), None);
}

#[test]
fn fools_mate_is_won_by_the_mover() {
    let mut game = new_game();
    assert_eq!(game.make_move(&proof_of(ann()), bits(QUIET, "f2", "f3")), Ok(()));
    assert_eq!(game.make_move(&proof_of(bob()), bits(DOUBLE_PUSH, "e7", "e5")), Ok(()));
    assert_eq!(game.make_move(&proof_of(ann()), bits(DOUBLE_PUSH, "g2", "g4")), Ok(()));
    assert_eq!(game.outcome(), None);
    assert_eq!(game.make_move(&proof_of(bob()), bits(QUIET, "d8", "h4")), Ok(()));
    assert_eq!(game.outcome(), Some(Outcome::Checkmate(Player::Black)));
    assert!(game.is_game_over());
    assert_eq!(
        game.board_state(),
        "rnb1kbnr/pppp1ppp/8/4p3/6Pq/5P2/PPPPP2P/RNBQKBNR w KQkq - 1 3"
    );
    assert_eq!(game.validate_winner(bob()), Ok(()));
    assert_eq!(game.validate_winner(ann()), Err(TchessError::NotTheWinner));
}

#[test]
fn finished_game_refuses_moves_and_resignations() {
    let mut game = new_game();
    play(&mut game, &["f2f3", "e7e5", "g2g4", "d8h4"]);
    let board = game.board_state().to_string();
    let outcome = game.outcome();
    assert_eq!(outcome, Some(Outcome::Checkmate(Player::Black)));
    assert_eq!(
        game.make_move(&proof_of(ann()), bits(QUIET, "e2", "e3")),
        Err(TchessError::GameOver)
    );
    assert_eq!(game.make_move(&proof_of(eve()), 0), Err(TchessError::GameOver));
    assert_eq!(game.resign(&proof_of(ann())), Err(TchessError::GameOver));
    assert_eq!(game.resign(&proof_of(bob())), Err(TchessError::GameOver));
    assert_eq!(game.resign(&proof_of(eve())), Err(TchessError::GameOver));
    assert_eq!(game.outcome(), outcome);
    assert_eq!(game.board_state(), board);
}

#[test]
fn resignation_gives_the_game_to_the_opponent() {
    let mut game = new_game();
    play(&mut game, &["e2e4", "e7e5"]);
    let board = game.board_state().to_string();
    assert_eq!(game.resign(&proof_of(bob())), Ok(()));
    assert_eq!(game.outcome(), Some(Outcome::Resignation(Player::White)));
    assert_eq!(game.board_state(), board);
    assert_eq!(game.validate_winner(ann()), Ok(()));
    assert_eq!(game.validate_winner(bob()), Err(TchessError::NotTheWinner));
}

#[test]
fn white_may_resign_out_of_turn() {
    let mut game = new_game();
    play(&mut game, &["e2e4"]);
    assert_eq!(game.resign(&proof_of(ann())), Ok(()));
    assert_eq!(game.outcome(), Some(Outcome::Resignation(Player::Black)));
    assert_eq!(game.validate_winner(bob()), Ok(()));
    assert_eq!(game.validate_winner(ann()), Err(TchessError::NotTheWinner));
}

#[test]
fn stranger_cannot_move() {
    let mut game = new_game();
    assert_eq!(
        game.make_move(&proof_of(eve()), bits(DOUBLE_PUSH, "e2", "e4")),
        Err(TchessError::NotAPlayer)
    );
    assert_eq!(game.board_state(), START);
    assert_eq!(game.outcome(), None);
}

#[test]
fn stranger_cannot_resign_or_win() {
    let mut game = new_game();
    assert_eq!(game.resign(&proof_of(eve())), Err(TchessError::NotAPlayer));
    assert_eq!(game.outcome(), None);
    assert_eq!(game.validate_winner(eve()), Err(TchessError::NotAPlayer));
    assert_eq!(game.resign(&proof_of(ann())), Ok(()));
    assert_eq!(game.validate_winner(eve()), Err(TchessError::NotAPlayer));
}

#[test]
fn proof_of_another_resource_is_no_player() {
    let mut game = new_game();
    let forged = OwnershipProof::new(ResourceAddress { key: [9u8; 32] }, vec![ann()]);
    assert_eq!(
        game.make_move(&forged, bits(DOUBLE_PUSH, "e2", "e4")),
        Err(TchessError::NotAPlayer)
    );
    assert_eq!(game.resign(&forged), Err(TchessError::NotAPlayer));
    assert_eq!(game.check_proof_is_player(&forged), None);
    assert_eq!(game.board_state(), START);
}

#[test]
fn proof_without_tokens_is_no_player() {
    let mut game = new_game();
    let empty = OwnershipProof::new(badge(), vec![]);
    assert_eq!(game.make_move(&empty, bits(DOUBLE_PUSH, "e2", "e4")), Err(TchessError::NotAPlayer));
    assert_eq!(game.resign(&empty), Err(TchessError::NotAPlayer));
}

#[test]
fn proof_stands_for_its_first_identifier() {
    let game = new_game();
    let both = OwnershipProof::new(badge(), vec![bob(), eve()]);
    assert_eq!(game.check_proof_is_player(&both), Some(Player::Black));
    let stranger_first = OwnershipProof::new(badge(), vec![eve(), ann()]);
    assert_eq!(game.check_proof_is_player(&stranger_first), None);
}

#[test]
fn seats_are_found_by_identifier() {
    let game = new_game();
    assert_eq!(game.get_player_nf_id(&ann()), Some(Player::White));
    assert_eq!(game.get_player_nf_id(&bob()), Some(Player::Black));
    assert_eq!(game.get_player_nf_id(&eve()), None);
    assert_eq!(game.check_proof_is_player(&proof_of(ann())), Some(Player::White));
    assert_eq!(game.check_proof_is_player(&proof_of(bob())), Some(Player::Black));
}

#[test]
fn one_identity_on_both_sides_plays_white() {
    let mut game = TchessGame::new(
        NonFungibleAddress::new(badge(), ann()),
        NonFungibleAddress::new(badge(), ann()),
    )
    .unwrap();
    assert_eq!(game.get_player_nf_id(&ann()), Some(Player::White));
    assert_eq!(game.resign(&proof_of(ann())), Ok(()));
    assert_eq!(game.outcome(), Some(Outcome::Resignation(Player::Black)));
    assert_eq!(game.validate_winner(ann()), Err(TchessError::NotTheWinner));
}

#[test]
fn open_game_has_no_winner() {
    let game = new_game();
    assert_eq!(game.validate_winner(ann()), Err(TchessError::NotTheWinner));
    assert_eq!(game.validate_winner(bob()), Err(TchessError::NotTheWinner));
}

#[test]
fn move_that_no_piece_can_make_is_refused() {
    let mut game = new_game();
    // a pawn does not go from e2 to e5, and nothing stands on e4
    for mv in [bits(QUIET, "e2", "e5"), bits(QUIET, "e4", "e5"), bits(QUIET, "a1", "a1"), 0xffff] {
        assert_eq!(game.make_move(&proof_of(ann()), mv), Err(TchessError::IllegalMove));
        assert_eq!(game.board_state(), START);
        assert_eq!(game.outcome(), None);
    }
}

#[test]
fn move_with_the_wrong_flag_is_refused() {
    let mut game = new_game();
    assert_eq!(
        game.make_move(&proof_of(ann()), bits(QUIET, "e2", "e4")),
        Err(TchessError::IllegalMove)
    );
    assert_eq!(
        game.make_move(&proof_of(ann()), bits(DOUBLE_PUSH, "e2", "e3")),
        Err(TchessError::IllegalMove)
    );
    assert_eq!(game.board_state(), START);
}

#[test]
fn move_of_the_side_not_to_move_is_refused() {
    let mut game = new_game();
    // the engine, not the game, knows whose turn it is
    assert_eq!(
        game.make_move(&proof_of(bob()), bits(DOUBLE_PUSH, "e7", "e5")),
        Err(TchessError::IllegalMove)
    );
    assert_eq!(game.make_move(&proof_of(ann()), bits(DOUBLE_PUSH, "e2", "e4")), Ok(()));
    assert_eq!(
        game.make_move(&proof_of(ann()), bits(DOUBLE_PUSH, "d2", "d4")),
        Err(TchessError::IllegalMove)
    );
}

#[test]
fn either_player_may_hand_in_the_move_of_the_side_to_move() {
    let mut game = new_game();
    assert_eq!(game.make_move(&proof_of(bob()), bits(DOUBLE_PUSH, "e2", "e4")), Ok(()));
    assert_eq!(game.board_state(), "rnbqkbnr/pppppppp/8/8/4P3/8/PPPP1PPP/RNBQKBNR b KQkq - 0 1");
}

#[test]
fn move_of_a_pinned_piece_is_refused() {
    let mut game = new_game();
    play(&mut game, &["e2e4", "e7e5", "f1b5"]);
    let board = game.board_state().to_string();
    // the pawn on d7 shields the black king from the bishop on b5
    assert_eq!(
        game.make_move(&proof_of(bob()), bits(QUIET, "d7", "d6")),
        Err(TchessError::IllegalMove)
    );
    assert_eq!(game.board_state(), board);
    assert_eq!(game.make_move(&proof_of(bob()), bits(QUIET, "c7", "c6")), Ok(()));
}

#[test]
fn stalemate_ends_the_game_without_a_winner() {
    let mut game = new_game();
    play(
        &mut game,
        &[
            "e2e3", "a7a5", "d1h5", "a8a6", "h5a5", "h7h5", "h2h4", "a6h6", "a5c7", "f7f6", "c7d7",
            "e8f7", "d7b7", "d8d3", "b7b8", "d3h7", "b8c8", "f7g6",
        ],
    );
    assert_eq!(game.outcome(), None);
    play(&mut game, &["c8e6"]);
    assert_eq!(game.outcome(), Some(Outcome::Stalemate));
    assert_eq!(game.board_state(), "5bnr/4p1pq/4Qpkr/7p/7P/4P3/PPPP1PP1/RNB1KBNR b KQ - 2 10");
    assert_eq!(game.validate_winner(ann()), Err(TchessError::NotTheWinner));
    assert_eq!(game.validate_winner(bob()), Err(TchessError::NotTheWinner));
    assert_eq!(game.resign(&proof_of(bob())), Err(TchessError::GameOver));
}

#[test]
fn capture_and_castling_are_played() {
    let mut game = new_game();
    play(&mut game, &["e2e4", "d7d5", "e4d5", "d8d5", "g1f3", "d5e5", "f1e2", "e5a5", "e1g1"]);
    assert_eq!(
        game.board_state(),
        "rnb1kbnr/ppp1pppp/8/q7/8/5N2/PPPPBPPP/RNBQ1RK1 b kq - 5 5"
    );
    assert_eq!(game.outcome(), None);
}

#[test]
fn stored_game_goes_on_where_it_stood() {
    let mut game = new_game();
    play(&mut game, &["e2e4", "e7e5"]);
    let mut restored = TchessGame::from_parts(
        game.white().clone(),
        game.black().clone(),
        game.board_state().to_string(),
        game.outcome(),
        game.player_badge(),
    );
    assert_eq!(restored.board_state(), game.board_state());
    assert_eq!(restored.make_move(&proof_of(ann()), bits(QUIET, "g1", "f3")), Ok(()));
    assert_eq!(
        restored.board_state(),
        "rnbqkbnr/pppp1ppp/8/4p3/4P3/5N2/PPPP1PPP/RNBQKB1R b KQkq - 1 2"
    );
    assert_eq!(*restored.white(), ann());
    assert_eq!(*restored.black(), bob());
}

#[test]
fn stored_outcome_stays() {
    let game = new_game();
    let mut restored = TchessGame::from_parts(
        game.white().clone(),
        game.black().clone(),
        game.board_state().to_string(),
        Some(Outcome::Draw),
        game.player_badge(),
    );
    assert!(restored.is_game_over());
    assert_eq!(
        restored.make_move(&proof_of(ann()), bits(DOUBLE_PUSH, "e2", "e4")),
        Err(TchessError::GameOver)
    );
    assert_eq!(restored.resign(&proof_of(ann())), Err(TchessError::GameOver));
    assert_eq!(restored.outcome(), Some(Outcome::Draw));
    assert_eq!(restored.validate_winner(ann()), Err(TchessError::NotTheWinner));
}

/// Every sixteen bits that the game takes as a move on its board, tried
/// one by one on a copy of the game.
fn taken_moves(game: &TchessGame, mover: NonFungibleId) -> Vec<u16> {
    let proof = proof_of(mover);
    let mut taken = Vec::new();
    for mv in 0..=u16::MAX {
        let mut copy = TchessGame::from_parts(
            game.white().clone(),
            game.black().clone(),
            game.board_state().to_string(),
            game.outcome(),
            game.player_badge(),
        );
        match copy.make_move(&proof, mv) {
            Ok(()) => taken.push(mv),
            Err(reason) => {
                assert_eq!(reason, TchessError::IllegalMove);
                assert_eq!(copy.board_state(), game.board_state());
            }
        }
    }
    taken
}

/// The moves that the engine lists as legal on the game's board.
fn listed_moves(game: &TchessGame) -> Vec<u16> {
    let board = Board::from_fen(game.board_state()).unwrap();
    let mut listed: Vec<u16> = board.generate_moves().iter().map(|m| m.get_raw()).collect();
    listed.sort();
    listed
}

#[test]
fn start_takes_the_twenty_opening_moves_and_no_other() {
    let game = new_game();
    let taken = taken_moves(&game, ann());
    assert_eq!(taken.len(), 20);
    assert_eq!(taken, listed_moves(&game));
}

#[test]
fn en_passant_and_castling_are_taken_where_the_engine_lists_them() {
    let mut game = new_game();
    play(&mut game, &["e2e4", "a7a6", "e4e5", "d7d5", "g1f3", "a6a5", "f1e2", "a5a4"]);
    assert_eq!(
        game.board_state(),
        "rnbqkbnr/1pp1pppp/8/3pP3/p7/5N2/PPPPBPPP/RNBQK2R w KQkq - 0 5"
    );
    let taken = taken_moves(&game, ann());
    assert_eq!(taken, listed_moves(&game));
    // castling on the king's side: the king on e1 "takes" the rook on h1
    assert!(taken.contains(&bits(2, "e1", "h1")));
}

#[test]
fn en_passant_is_taken_right_after_the_double_push() {
    let mut game = new_game();
    play(&mut game, &["e2e4", "a7a6", "e4e5", "d7d5"]);
    assert_eq!(
        game.board_state(),
        "rnbqkbnr/1pp1pppp/p7/3pP3/8/8/PPPP1PPP/RNBQKBNR w KQkq d6 0 3"
    );
    let taken = taken_moves(&game, ann());
    assert_eq!(taken, listed_moves(&game));
    assert!(taken.contains(&bits(5, "e5", "d6")));
    assert_eq!(game.make_move(&proof_of(ann()), bits(5, "e5", "d6")), Ok(()));
    assert_eq!(
        game.board_state(),
        "rnbqkbnr/1pp1pppp/p2P4/8/8/8/PPPP1PPP/RNBQKBNR b KQkq - 0 3"
    );
}

#[test]
fn side_in_check_may_only_answer_the_check() {
    let mut game = new_game();
    play(&mut game, &["e2e4", "e7e5", "d1h5", "b8c6", "h5f7"]);
    assert_eq!(game.outcome(), None);
    let taken = taken_moves(&game, bob());
    assert_eq!(taken, vec![bits(4, "e8", "f7")]);
    assert_eq!(taken, listed_moves(&game));
}

#[test]
fn fifty_plies_without_capture_or_pawn_move_end_the_game() {
    // the engine calls a board stale once the fifty-move counter stands at
    // fifty and the side to move is not in check
    let mut game = new_game();
    let round = ["g1f3", "g8f6", "f3g1", "f6g8"];
    for ply in 0..49 {
        play_one(&mut game, ply, round[ply % 4]);
        assert_eq!(game.outcome(), None);
    }
    assert_eq!(game.board_state(), "rnbqkbnr/pppppppp/8/8/8/5N2/PPPPPPPP/RNBQKB1R b KQkq - 49 25");
    play_one(&mut game, 49, round[1]);
    assert_eq!(game.board_state(), "rnbqkb1r/pppppppp/5n2/8/8/5N2/PPPPPPPP/RNBQKB1R w KQkq - 50 26");
    assert_eq!(game.outcome(), Some(Outcome::Stalemate));
    assert_eq!(
        game.make_move(&proof_of(ann()), bits(QUIET, "f3", "g1")),
        Err(TchessError::GameOver)
    );
}

/// Plays the move `uci` as ply number `ply`, counted from zero.
fn play_one(game: &mut TchessGame, ply: usize, uci: &str) {
    let mover = if ply % 2 == 0 { ann() } else { bob() };
    let mv = legal_bits(game, uci);
    assert_eq!(game.make_move(&proof_of(mover), mv), Ok(()));
}

/// The knights' way out and home again, four plies.
fn knights_round() -> [(NonFungibleId, u16); 4] {
    [
        (ann(), bits(QUIET, "g1", "f3")),
        (bob(), bits(QUIET, "g8", "f6")),
        (ann(), bits(QUIET, "f3", "g1")),
        (bob(), bits(QUIET, "f6", "g8")),
    ]
}

/// The game, taken up again as an open one.
fn reopened(game: &TchessGame) -> TchessGame {
    TchessGame::from_parts(
        game.white().clone(),
        game.black().clone(),
        game.board_state().to_string(),
        None,
        game.player_badge(),
    )
}

#[test]
fn stale_game_that_is_taken_up_again_goes_on() {
    let round = knights_round();
    let mut game = new_game();
    for ply in 0..400 {
        game = reopened(&game);
        let (mover, mv) = round[ply % 4].clone();
        assert_eq!(game.make_move(&proof_of(mover), mv), Ok(()));
        let stale = if ply < 49 { None } else { Some(Outcome::Stalemate) };
        assert_eq!(game.outcome(), stale);
    }
    assert_eq!(
        game.board_state(),
        "rnbqkbnr/pppppppp/8/8/8/8/PPPPPPPP/RNBQKBNR w KQkq - 400 201"
    );
}

#[test]
fn game_is_carried_on_below_the_ply_limit_only() {
    assert_eq!(tchess::engine::PLY_LIMIT, 32767);
    let round = knights_round();
    // the board after 8190 rounds of the knights
    let mut game = TchessGame::from_parts(
        ann(),
        bob(),
        "rnbqkbnr/pppppppp/8/8/8/8/PPPPPPPP/RNBQKBNR w KQkq - 32760 16381".to_string(),
        None,
        badge(),
    );
    for ply in 0..6 {
        game = reopened(&game);
        let (mover, mv) = round[ply % 4].clone();
        assert_eq!(game.make_move(&proof_of(mover), mv), Ok(()));
    }
    let last = "rnbqkb1r/pppppppp/5n2/8/8/5N2/PPPPPPPP/RNBQKB1R w KQkq - 32766 16384";
    assert_eq!(game.board_state(), last);
    game = reopened(&game);
    let listed = listed_moves(&game);
    assert_eq!(listed.len(), 22);
    for mv in listed {
        assert_eq!(game.make_move(&proof_of(ann()), mv), Err(TchessError::IllegalMove));
    }
    assert_eq!(game.board_state(), last);
    assert_eq!(game.outcome(), None);
}

#[test]
fn move_wants_a_proof_of_exactly_one_token() {
    let mut game = new_game();
    let e2e4 = bits(DOUBLE_PUSH, "e2", "e4");
    let player_then_stranger = OwnershipProof::new(badge(), vec![ann(), eve()]);
    let stranger_then_player = OwnershipProof::new(badge(), vec![eve(), ann()]);
    let both_players = OwnershipProof::new(badge(), vec![ann(), bob()]);
    let same_twice = OwnershipProof::new(badge(), vec![ann(), ann()]);
    for proof in [player_then_stranger, stranger_then_player, both_players, same_twice] {
        assert_eq!(game.check_proof_is_mover(&proof), None);
        assert_eq!(game.make_move(&proof, e2e4), Err(TchessError::NotAPlayer));
        assert_eq!(game.board_state(), START);
        assert_eq!(game.outcome(), None);
    }
    assert_eq!(game.check_proof_is_mover(&proof_of(ann())), Some(Player::White));
    assert_eq!(game.check_proof_is_mover(&proof_of(bob())), Some(Player::Black));
    assert_eq!(game.check_proof_is_mover(&proof_of(eve())), None);
    assert_eq!(game.make_move(&proof_of(ann()), e2e4), Ok(()));
}

#[test]
fn finished_game_refuses_a_proof_of_several_tokens_as_over() {
    let mut game = new_game();
    assert_eq!(game.resign(&proof_of(ann())), Ok(()));
    let two = OwnershipProof::new(badge(), vec![ann(), eve()]);
    assert_eq!(
        game.make_move(&two, bits(DOUBLE_PUSH, "e2", "e4")),
        Err(TchessError::GameOver)
    );
}

#[test]
fn resignation_takes_the_first_token_of_several() {
    let mut game = new_game();
    let two = OwnershipProof::new(badge(), vec![bob(), eve()]);
    assert_eq!(game.check_proof_is_player(&two), Some(Player::Black));
    assert_eq!(game.resign(&two), Ok(()));
    assert_eq!(game.outcome(), Some(Outcome::Resignation(Player::White)));
}

#[test]
fn replay_of_no_move_is_a_new_game() {
    let game = TchessGame::replay(ann(), bob(), badge(), &vec![], None).unwrap();
    assert_eq!(game.board_state(), START);
    assert_eq!(game.outcome(), None);
    assert_eq!(*game.white(), ann());
    assert_eq!(*game.black(), bob());
    assert_eq!(game.player_badge(), badge());
}

#[test]
fn replay_reaches_the_board_of_the_game() {
    let mut game = new_game();
    let line = ["e2e4", "d7d5", "e4d5", "d8d5", "g1f3", "d5e5", "f1e2", "e5a5", "e1g1"];
    let mut moves = Vec::new();
    for (ply, uci) in line.iter().enumerate() {
        moves.push(legal_bits(&game, uci));
        play_one(&mut game, ply, uci);
    }
    let mut replayed = TchessGame::replay(ann(), bob(), badge(), &moves, None).unwrap();
    assert_eq!(
        replayed.board_state(),
        "rnb1kbnr/ppp1pppp/8/q7/8/5N2/PPPPBPPP/RNBQ1RK1 b kq - 5 5"
    );
    assert_eq!(replayed.board_state(), game.board_state());
    assert_eq!(replayed.outcome(), None);
    assert_eq!(replayed.make_move(&proof_of(bob()), bits(QUIET, "g8", "f6")), Ok(()));
}

#[test]
fn replay_keeps_the_outcome_it_is_given() {
    let moves = vec![bits(DOUBLE_PUSH, "e2", "e4")];
    let outcome = Some(Outcome::Resignation(Player::White));
    let game = TchessGame::replay(ann(), bob(), badge(), &moves, outcome).unwrap();
    assert_eq!(game.board_state(), "rnbqkbnr/pppppppp/8/8/4P3/8/PPPP1PPP/RNBQKBNR b KQkq - 0 1");
    assert_eq!(game.outcome(), outcome);
    assert_eq!(game.validate_winner(ann()), Ok(()));
}

#[test]
fn replay_stops_at_a_move_that_is_not_allowed() {
    let e2e4 = bits(DOUBLE_PUSH, "e2", "e4");
    let e7e5 = bits(DOUBLE_PUSH, "e7", "e5");
    // white may not move twice, a pawn does not go three squares, and the
    // pinned pawn on d7 stays
    let lines = [
        vec![e2e4, bits(DOUBLE_PUSH, "d2", "d4")],
        vec![bits(QUIET, "e2", "e5")],
        vec![e2e4, e7e5, 0],
        vec![e2e4, e7e5, bits(QUIET, "f1", "b5"), bits(QUIET, "d7", "d6")],
        vec![0xffff, e2e4],
    ];
    for moves in lines {
        assert!(TchessGame::replay(ann(), bob(), badge(), &moves, None).is_none());
    }
}
