//! Key presses: what each key asks for in each mode, the cursor of each mode,
//! and the menu options picked so far.

use crate::cursor::{
    improvement_choice_index_from_cursor_position, move_cursor, moved, on_glyph_cell,
    tile_at_cursor, tile_position_from_cursor_position, within_bounds, CursorMove, GameState,
    TilePosition, CHOOSING_IMPROVEMENT_CURSOR_MAX_UP, PLAYING_CURSOR_MAX_LEFT,
    PLAYING_CURSOR_MAX_UP,
};
use vstd::prelude::*;

verus! {

/// A key press, as far as this library tells keys apart.
#[derive(Copy, Clone, Debug, PartialEq, Eq, Structural)]
pub enum Key {
    Char(char),
    Up,
    Down,
    Left,
    Right,
    /// Any other key.
    Other,
}

/// What a key asks for, whatever the mode.
#[derive(Copy, Clone, Debug, PartialEq, Eq, Structural)]
pub enum Command {
    Quit,
    Confirm,
    Mark,
    Move(CursorMove),
    /// Cast the ability in a slot, counted from zero.
    Ability(usize),
    Ignore,
}

/// A pending menu of improvements, as far as key presses depend on it.
#[derive(Copy, Clone, Debug, PartialEq, Eq, Structural)]
pub struct PendingChoice {
    pub num_choices: usize,
    pub num_to_choose: usize,
}

/// What the caller is to do after a key press.
#[derive(Clone, Debug, PartialEq, Eq)]
pub enum Action {
    Nothing,
    /// Leave the loop.
    Quit,
    /// Commit the selection chain to the game.
    DropSelection,
    /// Begin or extend the selection chain at a tile.
    SelectTile(TilePosition),
    /// Cast the ability in a slot, counted from zero.
    CastAbility(usize),
    /// Commit the picked options to the game, in the order of picking.
    ChooseImprovements(Vec<usize>),
}

/// An action as a plain value.
pub enum ActionView {
    Nothing,
    Quit,
    DropSelection,
    SelectTile(TilePosition),
    CastAbility(usize),
    ChooseImprovements(Seq<usize>),
}

impl View for Action {
    type V = ActionView;

    open spec fn view(&self) -> ActionView {
        match *self {
            Action::Nothing => ActionView::Nothing,
            Action::Quit => ActionView::Quit,
            Action::DropSelection => ActionView::DropSelection,
            Action::SelectTile(tp) => ActionView::SelectTile(tp),
            Action::CastAbility(slot) => ActionView::CastAbility(slot),
            Action::ChooseImprovements(indices) => ActionView::ChooseImprovements(indices@),
        }
    }
}

/// What the game is to do once a selection chain was committed.
#[derive(Copy, Clone, Debug, PartialEq, Eq, Structural)]
pub enum EngineStep {
    ApplyIncomingDamage,
    ApplyGravityAndRandomizeNewTiles,
    RunEndOfTurnOnSpecials,
}

/// The menu options picked so far and the cell of each, in the order of
/// picking.
#[derive(Clone, Debug)]
pub struct SelectionAccumulator {
    indices: Vec<usize>,
    positions: Vec<(u16, u16)>,
}

/// The picked options as plain values.
pub struct AccumulatorView {
    pub indices: Seq<usize>,
    pub positions: Seq<(u16, u16)>,
}

/// The cursors and the picked options.
#[derive(Debug)]
pub struct UiState {
    playing_cursor_position: (u16, u16),
    choosing_improvement_cursor_position: (u16, u16),
    selection: SelectionAccumulator,
}

/// The state as plain values.
pub struct UiView {
    pub playing: (u16, u16),
    pub choosing: (u16, u16),
    pub selection: AccumulatorView,
}

/// Where the option is found first among the picked ones, looking from a
/// place on; the number of picked options where it is not found.
pub open spec fn place_from(indices: Seq<usize>, index: usize, from: int) -> int
    decreases indices.len() - from,
{
    if from < 0 || from >= indices.len() {
        indices.len() as int
    } else if indices[from] == index {
        from
    } else {
        place_from(indices, index, from + 1)
    }
}

/// Where the option is found first among the picked ones; the number of
/// picked options where it is not found.
pub open spec fn place_of(indices: Seq<usize>, index: usize) -> int {
    place_from(indices, index, 0)
}

impl AccumulatorView {
    /// Every option has its cell, and no option is picked twice.
    pub open spec fn wf(self) -> bool {
        self.indices.len() == self.positions.len() && self.indices.no_duplicates()
    }

    /// The picked options after one more press on an option: without the
    /// option and its cell if it was picked, with both at the end if it was
    /// not.
    pub open spec fn toggled(self, index: usize, position: (u16, u16)) -> AccumulatorView {
        let at = place_of(self.indices, index);
        if at < self.indices.len() {
            AccumulatorView {
                indices: self.indices.remove(at),
                positions: self.positions.remove(at),
            }
        } else {
            AccumulatorView {
                indices: self.indices.push(index),
                positions: self.positions.push(position),
            }
        }
    }

    pub open spec fn empty() -> AccumulatorView {
        AccumulatorView { indices: Seq::empty(), positions: Seq::empty() }
    }
}

/// The place of an option is the first at which it is found.
pub proof fn lemma_place_from(indices: Seq<usize>, index: usize, from: int)
    requires
        0 <= from <= indices.len(),
    ensures
        from <= place_from(indices, index, from) <= indices.len(),
        place_from(indices, index, from) < indices.len() ==> indices[place_from(
            indices,
            index,
            from,
        )] == index,
        forall|j: int| from <= j < place_from(indices, index, from) ==> indices[j] != index,
    decreases indices.len() - from,
{
    if from < indices.len() && indices[from] != index {
        lemma_place_from(indices, index, from + 1);
    }
}

/// An option is picked exactly if it has a place among the picked ones.
pub proof fn lemma_place_of(indices: Seq<usize>, index: usize)
    ensures
        0 <= place_of(indices, index) <= indices.len(),
        indices.contains(index) <==> place_of(indices, index) < indices.len(),
        place_of(indices, index) < indices.len() ==> indices[place_of(indices, index)] == index,
        forall|j: int| 0 <= j < place_of(indices, index) ==> indices[j] != index,
{
    lemma_place_from(indices, index, 0);
}

/// Two presses on the same option undo each other. The picked options are as
/// many as before and the same; they are well formed at each step. Where the
/// option was not picked before, options and cells are exactly as before.
/// Where it was, the option has moved to the end and has the cell of the
/// second press.
pub proof fn lemma_toggle_twice(acc: AccumulatorView, index: usize, position: (u16, u16))
    requires
        acc.wf(),
    ensures
        acc.toggled(index, position).wf(),
        acc.toggled(index, position).toggled(index, position).wf(),
        acc.toggled(index, position).toggled(index, position).indices.len()
            == acc.indices.len(),
        forall|other: usize|
            acc.toggled(index, position).toggled(index, position).indices.contains(other)
                <==> acc.indices.contains(other),
        !acc.indices.contains(index) ==> acc.toggled(index, position).toggled(index, position)
            == acc,
        acc.indices.contains(index) ==> acc.toggled(index, position).toggled(
            index,
            position,
        ) == (AccumulatorView {
            indices: acc.indices.remove(place_of(acc.indices, index)).push(index),
            positions: acc.positions.remove(place_of(acc.indices, index)).push(position),
        }),
{
    let once = acc.toggled(index, position);
    let twice = once.toggled(index, position);
    let at = place_of(acc.indices, index);
    lemma_place_of(acc.indices, index);
    lemma_place_of(once.indices, index);
    if at < acc.indices.len() {
        acc.indices.remove_ensures(at);
        acc.positions.remove_ensures(at);
        assert(!once.indices.contains(index));
        assert forall|other: usize| twice.indices.contains(other) <==> acc.indices.contains(
            other,
        ) by {
            if acc.indices.contains(other) {
                let j = choose|j: int| 0 <= j < acc.indices.len() && acc.indices[j] == other;
                if j < at {
                    assert(twice.indices[j] == other);
                } else if j == at {
                    assert(twice.indices[once.indices.len() as int] == other);
                } else {
                    assert(twice.indices[j - 1] == other);
                }
            }
        }
    } else {
        assert(once.indices[acc.indices.len() as int] == index);
        assert(place_of(once.indices, index) == acc.indices.len());
        assert(twice.indices =~= acc.indices);
        assert(twice.positions =~= acc.positions);
    }
}

impl View for SelectionAccumulator {
    type V = AccumulatorView;

    closed spec fn view(&self) -> AccumulatorView {
        AccumulatorView { indices: self.indices@, positions: self.positions@ }
    }
}

impl SelectionAccumulator {
    /// No option is picked.
    pub fn new() -> (acc: SelectionAccumulator)
        ensures
            acc@ == AccumulatorView::empty(),
            acc@.wf(),
    {
        SelectionAccumulator { indices: Vec::new(), positions: Vec::new() }
    }

    /// Number of picked options.
    pub fn len(&self) -> (n: usize)
        ensures
            n == self@.indices.len(),
    {
        self.indices.len()
    }

    /// The picked options, in the order of picking.
    pub fn indices(&self) -> (indices: &Vec<usize>)
        ensures
            indices@ == self@.indices,
    {
        &self.indices
    }

    /// The cells of the picked options, in the order of picking.
    pub fn positions(&self) -> (positions: &Vec<(u16, u16)>)
        ensures
            positions@ == self@.positions,
    {
        &self.positions
    }

    /// A press on an option: takes the option and its cell out if the option
    /// was picked, and puts the option and the given cell at the end if it
    /// was not.
    pub fn toggle(&mut self, index: usize, position: (u16, u16))
        requires
            old(self)@.wf(),
        ensures
            final(self)@ == old(self)@.toggled(index, position),
            final(self)@.wf(),
            old(self)@.indices.contains(index) ==> final(self)@.indices.len() + 1 == old(self)@.indices.len(),
            !old(self)@.indices.contains(index) ==> final(self)@.indices.len() == old(self)@.indices.len() + 1,
    {
        proof {
            lemma_place_of(self@.indices, index);
            lemma_toggle_twice(self@, index, position);
        }
        let mut at: usize = 0;
        while at < self.indices.len()
            invariant
                at <= self.indices@.len(),
                *self == *old(self),
                self@.wf(),
                forall|j: int| 0 <= j < at ==> self.indices@[j] != index,
            decreases self.indices@.len() - at,
        {
            if self.indices[at] == index {
                proof {
                    lemma_place_of(self@.indices, index);
                    lemma_toggle_twice(self@, index, position);
                }
                self.indices.remove(at);
                self.positions.remove(at);
                return ;
            }
            at += 1;
        }
        self.indices.push(index);
        self.positions.push(position);
    }

    /// Forgets the picked options.
    pub fn clear(&mut self)
        ensures
            final(self)@ == AccumulatorView::empty(),
            final(self)@.wf(),
    {
        self.indices.clear();
        self.positions.clear();
    }
}

/// What a key asks for: `q` quits, the space bar confirms, `x` marks, the
/// arrows and `h`, `j`, `k`, `l` move, the digits one to four cast the
/// ability in the slot of that number.
pub open spec fn command_of(key: Key) -> Command {
    match key {
        Key::Char(c) => if c == 'q' {
            Command::Quit
        } else if c == ' ' {
            Command::Confirm
        } else if c == 'x' {
            Command::Mark
        } else if c == 'h' {
            Command::Move(CursorMove::Left)
        } else if c == 'j' {
            Command::Move(CursorMove::Down)
        } else if c == 'k' {
            Command::Move(CursorMove::Up)
        } else if c == 'l' {
            Command::Move(CursorMove::Right)
        } else if c == '1' {
            Command::Ability(0)
        } else if c == '2' {
            Command::Ability(1)
        } else if c == '3' {
            Command::Ability(2)
        } else if c == '4' {
            Command::Ability(3)
        } else {
            Command::Ignore
        },
        Key::Up => Command::Move(CursorMove::Up),
        Key::Down => Command::Move(CursorMove::Down),
        Key::Left => Command::Move(CursorMove::Left),
        Key::Right => Command::Move(CursorMove::Right),
        Key::Other => Command::Ignore,
    }
}

/// Tells what a key asks for.
pub fn command_for(key: Key) -> (command: Command)
    ensures
        command == command_of(key),
{
    match key {
        Key::Char('q') => Command::Quit,
        Key::Char(' ') => Command::Confirm,
        Key::Char('x') => Command::Mark,
        Key::Char('h') | Key::Left => Command::Move(CursorMove::Left),
        Key::Char('j') | Key::Down => Command::Move(CursorMove::Down),
        Key::Char('k') | Key::Up => Command::Move(CursorMove::Up),
        Key::Char('l') | Key::Right => Command::Move(CursorMove::Right),
        Key::Char('1') => Command::Ability(0),
        Key::Char('2') => Command::Ability(1),
        Key::Char('3') => Command::Ability(2),
        Key::Char('4') => Command::Ability(3),
        _ => Command::Ignore,
    }
}

/// The mode that follows from what is pending.
pub open spec fn mode_of(pending: Option<PendingChoice>) -> GameState {
    match pending {
        Some(choice) => GameState::ChoosingImprovement(choice.num_choices),
        None => GameState::Playing,
    }
}

/// Tells the mode: choosing while a menu of improvements is pending, playing
/// while none is.
pub fn game_state(pending: Option<PendingChoice>) -> (gs: GameState)
    ensures
        gs == mode_of(pending),
{
    match pending {
        Some(choice) => GameState::ChoosingImprovement(choice.num_choices),
        None => GameState::Playing,
    }
}

/// What the game is to do after the selection chain was committed: nothing
/// if no tile was slashed; else the incoming damage first, then gravity and
/// the new tiles, then the specials' end of turn.
pub fn steps_after_drop(slashed: bool) -> (steps: Vec<EngineStep>)
    ensures
        slashed ==> steps@ == seq![
            EngineStep::ApplyIncomingDamage,
            EngineStep::ApplyGravityAndRandomizeNewTiles,
            EngineStep::RunEndOfTurnOnSpecials,
        ],
        !slashed ==> steps@ == Seq::<EngineStep>::empty(),
{
    let mut steps: Vec<EngineStep> = Vec::new();
    if slashed {
        steps.push(EngineStep::ApplyIncomingDamage);
        steps.push(EngineStep::ApplyGravityAndRandomizeNewTiles);
        steps.push(EngineStep::RunEndOfTurnOnSpecials);
    }
    steps
}

/// Cell of the first option of a menu, column first.
pub open spec fn first_option_cell() -> (u16, u16) {
    (PLAYING_CURSOR_MAX_LEFT, CHOOSING_IMPROVEMENT_CURSOR_MAX_UP)
}

/// The option that the menu cursor rests on.
pub open spec fn hovered_option(cursor: (u16, u16)) -> usize {
    (cursor.1 - PLAYING_CURSOR_MAX_UP - CHOOSING_IMPROVEMENT_CURSOR_MAX_UP) as usize
}

impl UiView {
    /// The picked options are well formed, the board cursor rests on the
    /// glyph of a tile, and the menu cursor is below the header.
    pub open spec fn wf(self) -> bool {
        &&& self.selection.wf()
        &&& on_glyph_cell(self.playing)
        &&& self.choosing.1 >= CHOOSING_IMPROVEMENT_CURSOR_MAX_UP
    }

    /// The cursor of a mode.
    pub open spec fn cursor(self, gs: GameState) -> (u16, u16) {
        match gs {
            GameState::Playing => self.playing,
            GameState::ChoosingImprovement(_) => self.choosing,
        }
    }

    /// The picked options after a press of the confirm key on the menu.
    pub open spec fn picked(self) -> AccumulatorView {
        self.selection.toggled(hovered_option(self.choosing), self.choosing)
    }

    /// The state after a key press.
    pub open spec fn after_key(self, key: Key, pending: Option<PendingChoice>) -> UiView {
        match pending {
            None => match command_of(key) {
                Command::Move(m) => UiView {
                    playing: moved(self.playing, m, GameState::Playing),
                    ..self
                },
                _ => self,
            },
            Some(choice) => match command_of(key) {
                Command::Confirm => if self.picked().indices.len() == choice.num_to_choose {
                    UiView {
                        choosing: first_option_cell(),
                        selection: AccumulatorView::empty(),
                        ..self
                    }
                } else {
                    UiView { selection: self.picked(), ..self }
                },
                Command::Move(CursorMove::Up) => UiView {
                    choosing: moved(
                        self.choosing,
                        CursorMove::Up,
                        GameState::ChoosingImprovement(choice.num_choices),
                    ),
                    ..self
                },
                Command::Move(CursorMove::Down) => UiView {
                    choosing: moved(
                        self.choosing,
                        CursorMove::Down,
                        GameState::ChoosingImprovement(choice.num_choices),
                    ),
                    ..self
                },
                _ => self,
            },
        }
    }

    /// What the caller is to do after a key press.
    pub open spec fn action_on(self, key: Key, pending: Option<PendingChoice>) -> ActionView {
        match pending {
            None => match command_of(key) {
                Command::Quit => ActionView::Quit,
                Command::Confirm => ActionView::DropSelection,
                Command::Mark => ActionView::SelectTile(tile_at_cursor(self.playing)),
                Command::Ability(slot) => ActionView::CastAbility(slot),
                _ => ActionView::Nothing,
            },
            Some(choice) => match command_of(key) {
                Command::Quit => ActionView::Quit,
                Command::Confirm => if self.picked().indices.len() == choice.num_to_choose {
                    ActionView::ChooseImprovements(self.picked().indices)
                } else {
                    ActionView::Nothing
                },
                _ => ActionView::Nothing,
            },
        }
    }
}

impl View for UiState {
    type V = UiView;

    closed spec fn view(&self) -> UiView {
        UiView {
            playing: self.playing_cursor_position,
            choosing: self.choosing_improvement_cursor_position,
            selection: self.selection@,
        }
    }
}

impl UiState {
    /// The state at the start: the board cursor on the first tile, the menu
    /// cursor on the first option, no option picked.
    pub fn new() -> (state: UiState)
        ensures
            state@.wf(),
            state@.playing == (PLAYING_CURSOR_MAX_LEFT, PLAYING_CURSOR_MAX_UP),
            state@.choosing == first_option_cell(),
            state@.selection == AccumulatorView::empty(),
    {
        UiState {
            playing_cursor_position: (PLAYING_CURSOR_MAX_LEFT, PLAYING_CURSOR_MAX_UP),
            choosing_improvement_cursor_position: (
                PLAYING_CURSOR_MAX_LEFT,
                CHOOSING_IMPROVEMENT_CURSOR_MAX_UP,
            ),
            selection: SelectionAccumulator::new(),
        }
    }

    /// The cursor of the mode.
    pub fn cursor_position(&self, gs: GameState) -> (cursor: (u16, u16))
        ensures
            cursor == self@.cursor(gs),
    {
        match gs {
            GameState::Playing => self.playing_cursor_position,
            GameState::ChoosingImprovement(_) => self.choosing_improvement_cursor_position,
        }
    }

    /// The cells of the picked options, in the order of picking.
    pub fn improvement_choice_selection_positions(&self) -> (positions: &Vec<(u16, u16)>)
        ensures
            positions@ == self@.selection.positions,
    {
        self.selection.positions()
    }

    /// The picked options, in the order of picking.
    pub fn improvement_choice_indeces(&self) -> (indices: &Vec<usize>)
        ensures
            indices@ == self@.selection.indices,
    {
        self.selection.indices()
    }

    /// Takes a key press. While the board is shown, moves walk the board
    /// cursor, the confirm key commits the selection chain, the mark key
    /// selects the hovered tile, and a digit casts an ability. While a menu
    /// is pending, moves walk the menu cursor up and down, and the confirm
    /// key picks the hovered option or takes it back; with the last pick due,
    /// the picks are handed out, none is kept, and the menu cursor returns to
    /// the first option. The quit key quits in either mode. Each mode leaves
    /// the cursor of the other where it is.
    pub fn handle_key(&mut self, key: Key, pending: Option<PendingChoice>) -> (action: Action)
        requires
            old(self)@.wf(),
        ensures
            final(self)@ == old(self)@.after_key(key, pending),
            action@ == old(self)@.action_on(key, pending),
            final(self)@.wf(),
            within_bounds(mode_of(pending), old(self)@.cursor(mode_of(pending))) ==> within_bounds(
                mode_of(pending),
                final(self)@.cursor(mode_of(pending)),
            ),
            action matches Action::SelectTile(tp) ==> tp.on_board(),
            pending matches Some(choice) ==> (old(self)@.selection.indices.len()
                < choice.num_to_choose ==> final(self)@.selection.indices.len()
                < choice.num_to_choose),
            pending is None ==> final(self)@.choosing == old(self)@.choosing && final(self)@.selection == old(self)@.selection,
            pending is Some ==> final(self)@.playing == old(self)@.playing,
    {
        let command = command_for(key);
        match pending {
            None => match command {
                Command::Quit => Action::Quit,
                Command::Confirm => Action::DropSelection,
                Command::Mark => Action::SelectTile(
                    tile_position_from_cursor_position(self.playing_cursor_position),
                ),
                Command::Move(m) => {
                    self.playing_cursor_position =
                    move_cursor(self.playing_cursor_position, m, GameState::Playing);
                    Action::Nothing
                },
                Command::Ability(slot) => Action::CastAbility(slot),
                Command::Ignore => Action::Nothing,
            },
            Some(choice) => match command {
                Command::Quit => Action::Quit,
                Command::Confirm => {
                    let cursor_pos = self.choosing_improvement_cursor_position;
                    let index_pressed = improvement_choice_index_from_cursor_position(cursor_pos);
                    self.selection.toggle(index_pressed, cursor_pos);
                    if self.selection.len() == choice.num_to_choose {
                        let mut chosen: Vec<usize> = Vec::new();
                        std::mem::swap(&mut chosen, &mut self.selection.indices);
                        self.selection.positions.clear();
                        self.choosing_improvement_cursor_position = (
                            PLAYING_CURSOR_MAX_LEFT,
                            CHOOSING_IMPROVEMENT_CURSOR_MAX_UP,
                        );
                        Action::ChooseImprovements(chosen)
                    } else {
                        Action::Nothing
                    }
                },
                Command::Move(CursorMove::Up) => {
                    self.choosing_improvement_cursor_position = move_cursor(
                        self.choosing_improvement_cursor_position,
                        CursorMove::Up,
                        GameState::ChoosingImprovement(choice.num_choices),
                    );
                    Action::Nothing
                },
                Command::Move(CursorMove::Down) => {
                    self.choosing_improvement_cursor_position = move_cursor(
                        self.choosing_improvement_cursor_position,
                        CursorMove::Down,
                        GameState::ChoosingImprovement(choice.num_choices),
                    );
                    Action::Nothing
                },
                _ => Action::Nothing,
            },
        }
    }
}

} // verus!
