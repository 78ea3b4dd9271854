use minesweeper_multiplayer::{Board, Difficulty, Multiplayer, Point, SelectionError, Size};

fn coordinates_for_non_mine(board: &Board) -> Point {
    let mut coordinates_to_select = Point::zero();
    board.for_each_cell(|coordinates, cell, stop| {
        if !cell.is_mine() {
            coordinates_to_select = coordinates;
            *stop = true;
        }
    });
    coordinates_to_select
}

fn coordinates_for_mine(board: &Board) -> Point {
    let mut coordinates_to_select = Point::zero();
    board.for_each_cell(|coordinates, cell, stop| {
        if cell.is_mine() && !cell.cleared {
            coordinates_to_select = coordinates;
            *stop = true;
        }
    });
    coordinates_to_select
}

fn coordinates_for_hidden_non_mine(board: &Board) -> Point {
    let mut coordinates_to_select = Point::zero();
    board.for_each_cell(|coordinates, cell, stop| {
        if !cell.is_mine() && !cell.cleared {
            coordinates_to_select = coordinates;
            *stop = true;
        }
    });
    coordinates_to_select
}

#[test]
fn test_get_board_size() {
    let mult = Multiplayer::new(["1", "2"], Difficulty::Easy);

    assert_eq!(
        mult.get_board_dimentions(),
        Size {
            width: 10,
            height: 10
        }
    );
}

#[test]
fn test_switch_player_after_selecting_non_mine() {
    let mut mult = Multiplayer::new(["1", "2"], Difficulty::Easy);
    assert_eq!(mult.current_player().name, "1");

    let mine = coordinates_for_non_mine(&mult.game.board);
    mult.player_selected(mine).unwrap();

    assert_eq!(mult.current_player().name, "2");
}

#[test]
fn test_does_not_switch_player_after_selecting_mine() {
    let mut mult = Multiplayer::new(["1", "2"], Difficulty::Easy);
    assert_eq!(mult.current_player().name, "1");

    let mine = coordinates_for_mine(&mult.game.board);
    mult.player_selected(mine).unwrap();

    assert_eq!(mult.current_player().name, "1");
}

#[test]
fn test_remaining_to_win() {
    let mut mult = Multiplayer::new(["1", "2"], Difficulty::Easy);
    assert_eq!(mult.current_player().name, "1");

    mult.player_selected(coordinates_for_mine(&mult.game.board)).unwrap();
    mult.player_selected(coordinates_for_mine(&mult.game.board)).unwrap();
    mult.player_selected(coordinates_for_mine(&mult.game.board)).unwrap();

    let to_win = mult.remaining_to_win();

    assert_eq!(to_win, 3);
}

#[test]
fn test_is_win() {
    let mut mult = Multiplayer::new(["1", "2"], Difficulty::Easy);
    assert_eq!(mult.current_player().name, "1");

    mult.player_selected(coordinates_for_mine(&mult.game.board)).unwrap();
    mult.player_selected(coordinates_for_mine(&mult.game.board)).unwrap();
    mult.player_selected(coordinates_for_mine(&mult.game.board)).unwrap();

    assert!(!mult.did_game_finish());

    mult.player_selected(coordinates_for_mine(&mult.game.board)).unwrap();
    mult.player_selected(coordinates_for_mine(&mult.game.board)).unwrap();
    mult.player_selected(coordinates_for_mine(&mult.game.board)).unwrap();

    assert!(mult.did_game_finish());
}

#[test]
fn test_is_win_second_player() {
    let mut mult = Multiplayer::new(["1", "2"], Difficulty::Easy);
    assert_eq!(mult.current_player().name, "1");

    mult.player_selected(coordinates_for_mine(&mult.game.board)).unwrap();
    mult.player_selected(coordinates_for_mine(&mult.game.board)).unwrap();
    mult.player_selected(coordinates_for_mine(&mult.game.board)).unwrap();
    mult.player_selected(coordinates_for_non_mine(&mult.game.board)).unwrap();

    assert!(!mult.did_game_finish());

    mult.player_selected(coordinates_for_mine(&mult.game.board)).unwrap();
    mult.player_selected(coordinates_for_mine(&mult.game.board)).unwrap();
    mult.player_selected(coordinates_for_mine(&mult.game.board)).unwrap();
    mult.player_selected(coordinates_for_mine(&mult.game.board)).unwrap();
    mult.player_selected(coordinates_for_mine(&mult.game.board)).unwrap();

    assert!(!mult.did_game_finish());

    mult.player_selected(coordinates_for_mine(&mult.game.board)).unwrap();

    assert!(mult.did_game_finish());
}

#[test]
fn test_player_winning() {
    let mut mult = Multiplayer::new(["1", "2"], Difficulty::Easy);
    assert!(mult.player_winning().is_none());

    mult.player_selected(coordinates_for_mine(&mult.game.board)).unwrap();

    assert_eq!(mult.player_winning().unwrap().name, "1");

    mult.player_selected(coordinates_for_non_mine(&mult.game.board)).unwrap();
    mult.player_selected(coordinates_for_mine(&mult.game.board)).unwrap();
    mult.player_selected(coordinates_for_mine(&mult.game.board)).unwrap();

    assert_eq!(mult.player_winning().unwrap().name, "2");
}

#[test]
fn fresh_easy_session_needs_six_mines() {
    let mult = Multiplayer::new(["1", "2"], Difficulty::Easy);
    assert_eq!(mult.game.total_mines, 11);
    assert_eq!(mult.remaining_to_win(), 6);
    assert!(!mult.did_game_finish());
    assert!(mult.winner().is_none());
    assert!(mult.players[0].is_active);
    assert!(!mult.players[1].is_active);
}

#[test]
fn three_mines_leave_threshold_minus_three_and_no_winner() {
    let mut mult = Multiplayer::new(["1", "2"], Difficulty::Easy);
    for _ in 0..3 {
        mult.player_selected(coordinates_for_mine(&mult.game.board)).unwrap();
        assert!(mult.winner().is_none());
    }
    assert_eq!(mult.players[0].score(), 3);
    assert_eq!(mult.remaining_to_win(), 6 - 3);
    assert!(mult.winner().is_none());
}

#[test]
fn first_player_reaching_threshold_wins() {
    let mut mult = Multiplayer::new(["1", "2"], Difficulty::Easy);
    for _ in 0..6 {
        assert!(mult.winner().is_none());
        mult.player_selected(coordinates_for_mine(&mult.game.board)).unwrap();
    }
    assert!(mult.did_game_finish());
    assert_eq!(mult.remaining_to_win(), 0);
    assert_eq!(mult.winner().unwrap().name, "1");
    assert_eq!(mult.players[1].score(), 0);
}

#[test]
fn second_player_reaching_threshold_wins() {
    let mut mult = Multiplayer::new(["1", "2"], Difficulty::Easy);
    mult.player_selected(coordinates_for_hidden_non_mine(&mult.game.board)).unwrap();
    for _ in 0..6 {
        mult.player_selected(coordinates_for_mine(&mult.game.board)).unwrap();
    }
    assert_eq!(mult.winner().unwrap().name, "2");
}

#[test]
fn selection_after_finish_is_refused() {
    let mut mult = Multiplayer::new(["1", "2"], Difficulty::Easy);
    for _ in 0..6 {
        mult.player_selected(coordinates_for_mine(&mult.game.board)).unwrap();
    }
    let mine = coordinates_for_mine(&mult.game.board);
    assert_eq!(mult.player_selected(mine), Err(SelectionError::GameFinished));
    assert_eq!(mult.players[0].mines_found.len(), 6);
    assert!(!mult.game.board.cell_at(mine).unwrap().cleared);
}

#[test]
fn safe_cell_flips_current_player_each_time() {
    let mut mult = Multiplayer::new(["1", "2"], Difficulty::Easy);
    mult.player_selected(coordinates_for_hidden_non_mine(&mult.game.board)).unwrap();
    assert_eq!(mult.current_player().name, "2");
    mult.player_selected(coordinates_for_hidden_non_mine(&mult.game.board)).unwrap();
    assert_eq!(mult.current_player().name, "1");
}

#[test]
fn reselecting_cleared_cell_changes_nothing() {
    let mut mult = Multiplayer::new(["1", "2"], Difficulty::Easy);
    let mine = coordinates_for_mine(&mult.game.board);
    mult.player_selected(mine).unwrap();
    assert_eq!(mult.players[0].score(), 1);
    mult.player_selected(mine).unwrap();
    assert_eq!(mult.players[0].score(), 1);
    assert_eq!(mult.current_player().name, "1");

    let safe = coordinates_for_hidden_non_mine(&mult.game.board);
    mult.player_selected(safe).unwrap();
    assert_eq!(mult.current_player().name, "2");
    mult.player_selected(safe).unwrap();
    assert_eq!(mult.current_player().name, "2");
    mult.player_selected(mine).unwrap();
    assert_eq!(mult.players[1].score(), 0);
    assert_eq!(mult.current_player().name, "2");
}

#[test]
fn exactly_one_player_active_throughout() {
    let mut mult = Multiplayer::new(["a", "b"], Difficulty::Medium);
    for _ in 0..10 {
        let p = coordinates_for_hidden_non_mine(&mult.game.board);
        mult.player_selected(p).unwrap();
        assert!(mult.players[0].is_active != mult.players[1].is_active);
        mult.player_selected(coordinates_for_mine(&mult.game.board)).unwrap();
        assert!(mult.players[0].is_active != mult.players[1].is_active);
    }
}

#[test]
fn mine_goes_to_player_on_turn() {
    let mut mult = Multiplayer::new(["1", "2"], Difficulty::Easy);
    let mine = coordinates_for_mine(&mult.game.board);
    mult.player_selected(mine).unwrap();
    assert_eq!(mult.players[0].mines_found, vec![mine]);
    assert!(mult.players[1].mines_found.is_empty());
    assert!(mult.game.board.cell_at(mine).unwrap().cleared);
}

#[test]
fn hard_board_dimensions() {
    let mult = Multiplayer::new(["1", "2"], Difficulty::Hard);
    assert_eq!(mult.get_board_dimentions(), Size { width: 30, height: 16 });
    assert_eq!(mult.remaining_to_win(), 50);
    assert_eq!(mult.get_board().get_width(), 30);
}

#[test]
fn selection_outside_board_passes_turn() {
    let mut mult = Multiplayer::new(["1", "2"], Difficulty::Easy);
    mult.player_selected(Point { x: 50, y: 50 }).unwrap();
    assert_eq!(mult.current_player().name, "2");
    assert_eq!(mult.players[0].score(), 0);
}

#[test]
fn current_player_mut_changes_the_player_on_turn() {
    let mut mult = Multiplayer::new(["1", "2"], Difficulty::Easy);
    mult.current_player_mut().name = "renamed".to_string();
    assert_eq!(mult.players[0].name, "renamed");
    assert_eq!(mult.players[1].name, "2");
}
