use dungeon_raid_tui::cursor::{GameState, TilePosition};
use dungeon_raid_tui::input::{
    command_for, game_state, steps_after_drop, Action, Command, EngineStep, Key, PendingChoice,
    SelectionAccumulator, UiState,
};
use dungeon_raid_tui::cursor::CursorMove;

fn menu(num_choices: usize, num_to_choose: usize) -> Option<PendingChoice> {
    Some(PendingChoice { num_choices, num_to_choose })
}

fn picked(acc: &SelectionAccumulator) -> (Vec<usize>, Vec<(u16, u16)>) {
    (acc.indices().clone(), acc.positions().clone())
}

#[test]
fn keys_and_what_they_ask_for() {
    assert_eq!(command_for(Key::Char('q')), Command::Quit);
    assert_eq!(command_for(Key::Char(' ')), Command::Confirm);
    assert_eq!(command_for(Key::Char('x')), Command::Mark);
    assert_eq!(command_for(Key::Char('h')), Command::Move(CursorMove::Left));
    assert_eq!(command_for(Key::Left), Command::Move(CursorMove::Left));
    assert_eq!(command_for(Key::Char('j')), Command::Move(CursorMove::Down));
    assert_eq!(command_for(Key::Down), Command::Move(CursorMove::Down));
    assert_eq!(command_for(Key::Char('k')), Command::Move(CursorMove::Up));
    assert_eq!(command_for(Key::Up), Command::Move(CursorMove::Up));
    assert_eq!(command_for(Key::Char('l')), Command::Move(CursorMove::Right));
    assert_eq!(command_for(Key::Right), Command::Move(CursorMove::Right));
    assert_eq!(command_for(Key::Char('1')), Command::Ability(0));
    assert_eq!(command_for(Key::Char('2')), Command::Ability(1));
    assert_eq!(command_for(Key::Char('3')), Command::Ability(2));
    assert_eq!(command_for(Key::Char('4')), Command::Ability(3));
    assert_eq!(command_for(Key::Char('5')), Command::Ignore);
    assert_eq!(command_for(Key::Char('0')), Command::Ignore);
    assert_eq!(command_for(Key::Char('Q')), Command::Ignore);
    assert_eq!(command_for(Key::Other), Command::Ignore);
}

#[test]
fn mode_follows_what_is_pending() {
    assert_eq!(game_state(None), GameState::Playing);
    assert_eq!(game_state(menu(3, 2)), GameState::ChoosingImprovement(3));
}

#[test]
fn steps_after_a_drop_keep_their_order() {
    assert_eq!(
        steps_after_drop(true),
        vec![
            EngineStep::ApplyIncomingDamage,
            EngineStep::ApplyGravityAndRandomizeNewTiles,
            EngineStep::RunEndOfTurnOnSpecials,
        ]
    );
    assert_eq!(steps_after_drop(false), Vec::new());
}

#[test]
fn toggle_adds_and_removes() {
    let mut acc = SelectionAccumulator::new();
    assert_eq!(acc.len(), 0);
    acc.toggle(2, (0, 3));
    acc.toggle(0, (0, 1));
    assert_eq!(picked(&acc), (vec![2, 0], vec![(0, 3), (0, 1)]));
    acc.toggle(2, (0, 3));
    assert_eq!(picked(&acc), (vec![0], vec![(0, 1)]));
    assert_eq!(acc.len(), 1);
    acc.clear();
    assert_eq!(picked(&acc), (vec![], vec![]));
}

#[test]
fn toggle_twice_restores_an_absent_option() {
    let mut acc = SelectionAccumulator::new();
    acc.toggle(4, (0, 5));
    acc.toggle(1, (0, 2));
    let before = picked(&acc);
    acc.toggle(3, (0, 4));
    assert_eq!(acc.len(), 3);
    acc.toggle(3, (0, 4));
    assert_eq!(picked(&acc), before);
}

#[test]
fn toggle_twice_moves_a_picked_option_to_the_end() {
    let mut acc = SelectionAccumulator::new();
    acc.toggle(1, (0, 2));
    acc.toggle(2, (0, 3));
    acc.toggle(1, (0, 2));
    acc.toggle(1, (0, 2));
    assert_eq!(picked(&acc), (vec![2, 1], vec![(0, 3), (0, 2)]));
    assert_eq!(acc.len(), 2);
    acc.toggle(1, (9, 9));
    acc.toggle(1, (9, 9));
    assert_eq!(picked(&acc), (vec![2, 1], vec![(0, 3), (9, 9)]));
}

#[test]
fn state_at_the_start() {
    let state = UiState::new();
    assert_eq!(state.cursor_position(GameState::Playing), (0, 0));
    assert_eq!(state.cursor_position(GameState::ChoosingImprovement(3)), (0, 1));
    assert!(state.improvement_choice_indeces().is_empty());
    assert!(state.improvement_choice_selection_positions().is_empty());
}

#[test]
fn playing_keys() {
    let mut state = UiState::new();
    assert_eq!(state.handle_key(Key::Char('q'), None), Action::Quit);
    assert_eq!(state.handle_key(Key::Char(' '), None), Action::DropSelection);
    assert_eq!(state.handle_key(Key::Char('x'), None), Action::SelectTile(TilePosition::new(0, 0)));
    assert_eq!(state.handle_key(Key::Char('l'), None), Action::Nothing);
    assert_eq!(state.handle_key(Key::Right, None), Action::Nothing);
    assert_eq!(state.handle_key(Key::Down, None), Action::Nothing);
    assert_eq!(state.handle_key(Key::Char('j'), None), Action::Nothing);
    assert_eq!(state.handle_key(Key::Char('j'), None), Action::Nothing);
    assert_eq!(state.cursor_position(GameState::Playing), (4, 6));
    assert_eq!(state.handle_key(Key::Char('x'), None), Action::SelectTile(TilePosition::new(3, 2)));
    assert_eq!(state.handle_key(Key::Char('h'), None), Action::Nothing);
    assert_eq!(state.handle_key(Key::Up, None), Action::Nothing);
    assert_eq!(state.cursor_position(GameState::Playing), (2, 4));
    assert_eq!(state.handle_key(Key::Char('1'), None), Action::CastAbility(0));
    assert_eq!(state.handle_key(Key::Char('4'), None), Action::CastAbility(3));
    assert_eq!(state.handle_key(Key::Char('z'), None), Action::Nothing);
    assert_eq!(state.handle_key(Key::Other, None), Action::Nothing);
    assert_eq!(state.cursor_position(GameState::Playing), (2, 4));
    assert_eq!(state.cursor_position(GameState::ChoosingImprovement(3)), (0, 1));
}

#[test]
fn playing_cursor_stops_at_the_bounds() {
    let mut state = UiState::new();
    for _ in 0..20 {
        state.handle_key(Key::Right, None);
    }
    assert_eq!(state.cursor_position(GameState::Playing), (14, 0));
    for _ in 0..20 {
        state.handle_key(Key::Down, None);
    }
    assert_eq!(state.cursor_position(GameState::Playing), (14, 10));
    assert_eq!(state.handle_key(Key::Char('x'), None), Action::SelectTile(TilePosition::new(5, 7)));
    for _ in 0..20 {
        state.handle_key(Key::Char('h'), None);
        state.handle_key(Key::Char('k'), None);
    }
    assert_eq!(state.cursor_position(GameState::Playing), (0, 0));
}

#[test]
fn menu_keys() {
    let mut state = UiState::new();
    let pending = menu(3, 2);
    let gs = game_state(pending);
    assert_eq!(state.handle_key(Key::Char('q'), pending), Action::Quit);
    assert_eq!(state.handle_key(Key::Char('x'), pending), Action::Nothing);
    assert_eq!(state.handle_key(Key::Char('1'), pending), Action::Nothing);
    assert_eq!(state.handle_key(Key::Left, pending), Action::Nothing);
    assert_eq!(state.handle_key(Key::Char('l'), pending), Action::Nothing);
    assert_eq!(state.cursor_position(gs), (0, 1));
    assert_eq!(state.handle_key(Key::Up, pending), Action::Nothing);
    assert_eq!(state.cursor_position(gs), (0, 1));
    assert_eq!(state.handle_key(Key::Down, pending), Action::Nothing);
    assert_eq!(state.handle_key(Key::Char('j'), pending), Action::Nothing);
    assert_eq!(state.cursor_position(gs), (0, 3));
    assert_eq!(state.handle_key(Key::Down, pending), Action::Nothing);
    assert_eq!(state.cursor_position(gs), (0, 3));
    assert_eq!(state.handle_key(Key::Char('k'), pending), Action::Nothing);
    assert_eq!(state.cursor_position(gs), (0, 2));
    assert_eq!(state.cursor_position(GameState::Playing), (0, 0));
}

#[test]
fn picks_are_committed_when_the_last_is_due() {
    let mut state = UiState::new();
    let pending = menu(3, 2);
    let gs = game_state(pending);
    state.handle_key(Key::Down, pending);
    state.handle_key(Key::Down, pending);
    assert_eq!(state.handle_key(Key::Char(' '), pending), Action::Nothing);
    assert_eq!(state.improvement_choice_indeces(), &vec![2]);
    assert_eq!(state.improvement_choice_selection_positions(), &vec![(0, 3)]);
    state.handle_key(Key::Up, pending);
    state.handle_key(Key::Up, pending);
    assert_eq!(
        state.handle_key(Key::Char(' '), pending),
        Action::ChooseImprovements(vec![2, 0])
    );
    assert!(state.improvement_choice_indeces().is_empty());
    assert!(state.improvement_choice_selection_positions().is_empty());
    assert_eq!(state.cursor_position(gs), (0, 1));
}

#[test]
fn a_pick_can_be_taken_back() {
    let mut state = UiState::new();
    let pending = menu(4, 3);
    state.handle_key(Key::Down, pending);
    assert_eq!(state.handle_key(Key::Char(' '), pending), Action::Nothing);
    assert_eq!(state.handle_key(Key::Char(' '), pending), Action::Nothing);
    assert!(state.improvement_choice_indeces().is_empty());
    assert!(state.improvement_choice_selection_positions().is_empty());
    assert_eq!(state.handle_key(Key::Char(' '), pending), Action::Nothing);
    state.handle_key(Key::Down, pending);
    assert_eq!(state.handle_key(Key::Char(' '), pending), Action::Nothing);
    assert_eq!(state.improvement_choice_indeces(), &vec![1, 2]);
    state.handle_key(Key::Up, pending);
    assert_eq!(state.handle_key(Key::Char(' '), pending), Action::Nothing);
    assert_eq!(state.improvement_choice_indeces(), &vec![2]);
    assert_eq!(state.improvement_choice_selection_positions(), &vec![(0, 3)]);
}

#[test]
fn a_new_menu_starts_at_its_first_option() {
    let mut state = UiState::new();
    let first = menu(5, 1);
    for _ in 0..4 {
        state.handle_key(Key::Down, first);
    }
    assert_eq!(state.cursor_position(game_state(first)), (0, 5));
    assert_eq!(state.handle_key(Key::Char(' '), first), Action::ChooseImprovements(vec![4]));
    let second = menu(3, 1);
    assert_eq!(state.cursor_position(game_state(second)), (0, 1));
    assert_eq!(state.handle_key(Key::Char(' '), second), Action::ChooseImprovements(vec![0]));
}

#[test]
fn each_mode_keeps_its_own_cursor() {
    let mut state = UiState::new();
    let pending = menu(3, 3);
    state.handle_key(Key::Right, None);
    state.handle_key(Key::Down, None);
    state.handle_key(Key::Down, pending);
    assert_eq!(state.cursor_position(GameState::Playing), (2, 2));
    assert_eq!(state.cursor_position(game_state(pending)), (0, 2));
    state.handle_key(Key::Char(' '), pending);
    state.handle_key(Key::Down, None);
    assert_eq!(state.cursor_position(GameState::Playing), (2, 4));
    assert_eq!(state.cursor_position(game_state(pending)), (0, 2));
    assert_eq!(state.improvement_choice_indeces(), &vec![1]);
}

#[test]
fn nothing_to_choose_commits_on_an_empty_list() {
    let mut state = UiState::new();
    let pending = menu(2, 0);
    assert_eq!(state.handle_key(Key::Char(' '), pending), Action::Nothing);
    assert_eq!(state.improvement_choice_indeces(), &vec![0]);
    assert_eq!(state.handle_key(Key::Char(' '), pending), Action::ChooseImprovements(vec![]));
    assert!(state.improvement_choice_indeces().is_empty());
}
