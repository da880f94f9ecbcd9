//! The lines of text of a frame: the player's figures, the ability slots, the
//! special encounters, the hovered tile and the menu of improvements.

use crate::cursor::{CHOOSING_IMPROVEMENT_CURSOR_MAX_UP, PLAYING_CURSOR_MAX_DOWN};
use crate::game::{Ability, GameSnapshot, ImprovementChoiceSet, SpecialEncounter, Tile, TileInfo, TileType};
use vstd::prelude::*;

verus! {

/// A text and the screen cell at which it starts.
#[derive(Clone, Debug)]
pub struct TextLine {
    pub x: u16,
    pub y: u16,
    pub text: String,
}

/// A text line as a plain value.
pub struct PrintView {
    pub x: u16,
    pub y: u16,
    pub text: Seq<char>,
}

impl View for TextLine {
    type V = PrintView;

    open spec fn view(&self) -> PrintView {
        PrintView { x: self.x, y: self.y, text: self.text@ }
    }
}

/// The lines are the given prints, one by one.
pub open spec fn shows(lines: Seq<TextLine>, prints: Seq<PrintView>) -> bool {
    &&& lines.len() == prints.len()
    &&& forall|i: int| 0 <= i < lines.len() ==> (#[trigger] lines[i])@ == prints[i]
}

/// The status lines of a frame and the row that follows them.
#[derive(Clone, Debug)]
pub struct StatusPanel {
    pub lines: Vec<TextLine>,
    pub next_row: u16,
}

/// Row of the first status line: the one below the board.
pub const STATUS_FIRST_ROW: u16 = PLAYING_CURSOR_MAX_DOWN + 1;

/// Row of the first ability slot: an empty row below the six figures.
pub const ABILITY_FIRST_ROW: u16 = STATUS_FIRST_ROW + 7;

/// Column at which a cooldown is printed below its ability.
pub const COOLDOWN_COLUMN: u16 = 4;

/// Column at which the options of a menu are printed.
pub const CHOICE_COLUMN: u16 = 1;

/// The character of a decimal digit.
pub open spec fn digit_char(d: int) -> char {
    if d == 0 {
        '0'
    } else if d == 1 {
        '1'
    } else if d == 2 {
        '2'
    } else if d == 3 {
        '3'
    } else if d == 4 {
        '4'
    } else if d == 5 {
        '5'
    } else if d == 6 {
        '6'
    } else if d == 7 {
        '7'
    } else if d == 8 {
        '8'
    } else {
        '9'
    }
}

/// The decimal digits of a natural number, without leading zeros.
pub open spec fn decimal_nat(n: nat) -> Seq<char>
    decreases n,
{
    if n < 10 {
        seq![digit_char(n as int)]
    } else {
        decimal_nat(n / 10).push(digit_char((n % 10) as int))
    }
}

/// The decimal form of an integer: a minus sign before the digits of a
/// negative one.
pub open spec fn decimal(n: int) -> Seq<char> {
    if n < 0 {
        seq!['-'] + decimal_nat((-n) as nat)
    } else {
        decimal_nat(n as nat)
    }
}

fn digit_str(d: u64) -> (s: &'static str)
    requires
        d < 10,
    ensures
        s@ == seq![digit_char(d as int)],
{
    proof {
        reveal_strlit("0");
        reveal_strlit("1");
        reveal_strlit("2");
        reveal_strlit("3");
        reveal_strlit("4");
        reveal_strlit("5");
        reveal_strlit("6");
        reveal_strlit("7");
        reveal_strlit("8");
        reveal_strlit("9");
    }
    let s = if d == 0 {
        "0"
    } else if d == 1 {
        "1"
    } else if d == 2 {
        "2"
    } else if d == 3 {
        "3"
    } else if d == 4 {
        "4"
    } else if d == 5 {
        "5"
    } else if d == 6 {
        "6"
    } else if d == 7 {
        "7"
    } else if d == 8 {
        "8"
    } else {
        "9"
    };
    s
}

/// Appends the decimal digits of a number to a text.
pub fn append_decimal_nat(text: &mut String, n: u64)
    ensures
        final(text)@ == old(text)@ + decimal_nat(n as nat),
    decreases n,
{
    if n >= 10 {
        append_decimal_nat(text, n / 10);
    }
    text.append(digit_str(n % 10));
    assert(final(text)@ =~= old(text)@ + decimal_nat(n as nat));
}

/// Appends the decimal form of an integer to a text.
pub fn append_decimal(text: &mut String, n: i64)
    ensures
        final(text)@ == old(text)@ + decimal(n as int),
{
    if n < 0 {
        let magnitude: u64 = if n == i64::MIN {
            9223372036854775808u64
        } else {
            (-n) as u64
        };
        proof {
            reveal_strlit("-");
        }
        text.append("-");
        append_decimal_nat(text, magnitude);
    } else {
        append_decimal_nat(text, n as u64);
    }
}

/// The decimal form of an integer.
pub fn decimal_string(n: i64) -> (text: String)
    ensures
        text@ == decimal(n as int),
{
    let mut text = String::new();
    append_decimal(&mut text, n);
    text
}

/// A label and a number.
pub open spec fn labelled(label: Seq<char>, n: int) -> Seq<char> {
    label + decimal(n)
}

/// A label and two numbers with a slash between them.
pub open spec fn ratio(label: Seq<char>, n: int, of: int) -> Seq<char> {
    label + decimal(n) + "/"@ + decimal(of)
}

fn labelled_string(label: &str, n: i64) -> (text: String)
    ensures
        text@ == labelled(label@, n as int),
{
    let mut text = String::from_str(label);
    append_decimal(&mut text, n);
    text
}

fn ratio_string(label: &str, n: i64, of: i64) -> (text: String)
    ensures
        text@ == ratio(label@, n as int, of as int),
{
    let mut text = String::from_str(label);
    append_decimal(&mut text, n);
    text.append("/");
    append_decimal(&mut text, of);
    text
}

/// The six lines of figures: incoming damage, hit points, shields, coins,
/// upgrade points and experience, from the first status row down.
pub open spec fn figure_prints(game: GameSnapshot) -> Seq<PrintView> {
    seq![
        PrintView {
            x: 0,
            y: STATUS_FIRST_ROW,
            text: labelled("incoming damage: "@, game.incoming_damage as int),
        },
        PrintView {
            x: 0,
            y: (STATUS_FIRST_ROW + 1) as u16,
            text: ratio(
                "hit points: "@,
                game.player.being.hit_points as int,
                game.player.being.max_hit_points as int,
            ),
        },
        PrintView {
            x: 0,
            y: (STATUS_FIRST_ROW + 2) as u16,
            text: ratio(
                "shields: "@,
                game.player.being.shields as int,
                game.player.being.max_shields as int,
            ),
        },
        PrintView {
            x: 0,
            y: (STATUS_FIRST_ROW + 3) as u16,
            text: ratio(
                "coins: "@,
                game.player.coin_cents as int,
                game.player.coin_cents_per_purchase as int,
            ),
        },
        PrintView {
            x: 0,
            y: (STATUS_FIRST_ROW + 4) as u16,
            text: ratio(
                "UP: "@,
                game.player.excess_shield_cents as int,
                game.player.excess_shield_cents_per_upgrade as int,
            ),
        },
        PrintView {
            x: 0,
            y: (STATUS_FIRST_ROW + 5) as u16,
            text: ratio(
                "XP: "@,
                game.player.experience_point_cents as int,
                game.player.experience_point_cents_per_level_up as int,
            ),
        },
    ]
}

/// The title of an ability slot: its number, counted from one, and the name
/// of the ability in it.
pub open spec fn ability_title(index: int, slot: Option<Ability>) -> Seq<char> {
    decimal_nat((index + 1) as nat) + " - "@ + match slot {
        Some(ability) => ability.name@,
        None => "[empty]"@,
    }
}

/// The slot holds an ability that is cooling down.
pub open spec fn cools_down(slot: Option<Ability>) -> bool {
    slot matches Some(ability) && ability.running_cooldown > 0
}

/// The lines of the first `n` ability slots, each on the row below the line
/// before it: a title for every slot, and below it the cooldown of an ability
/// that has one running.
pub open spec fn ability_prints(abilities: Seq<Option<Ability>>, n: nat) -> Seq<PrintView>
    decreases n,
{
    if n == 0 {
        Seq::empty()
    } else {
        let before = ability_prints(abilities, (n - 1) as nat);
        let slot = abilities[n - 1];
        let with_title = before.push(
            PrintView {
                x: 0,
                y: (ABILITY_FIRST_ROW + before.len()) as u16,
                text: ability_title(n - 1, slot),
            },
        );
        if cools_down(slot) {
            with_title.push(
                PrintView {
                    x: COOLDOWN_COLUMN,
                    y: (ABILITY_FIRST_ROW + before.len() + 1) as u16,
                    text: labelled("COOLDOWN: "@, slot->0.running_cooldown as int),
                },
            )
        } else {
            with_title
        }
    }
}

/// The line of a special encounter.
pub open spec fn special_text(special: SpecialEncounter) -> Seq<char> {
    "Special Monster: "@ + special.name@ + " - "@ + special.description@
}

/// One line for each special encounter, from a row down.
pub open spec fn special_prints(specials: Seq<SpecialEncounter>, first_row: int) -> Seq<
    PrintView,
> {
    Seq::new(
        specials.len(),
        |i: int| PrintView { x: 0, y: (first_row + i) as u16, text: special_text(specials[i]) },
    )
}

/// Row of the first special encounter: an empty row below the ability slots.
pub open spec fn special_first_row(game: GameSnapshot) -> int {
    ABILITY_FIRST_ROW + ability_prints(
        game.player.abilities@,
        game.player.abilities@.len(),
    ).len() + 1
}

/// Row below the status lines.
pub open spec fn status_next_row(game: GameSnapshot) -> int {
    special_first_row(game) + game.specials@.len()
}

/// The status lines end on a row that a screen coordinate can name.
pub open spec fn status_fits(game: GameSnapshot) -> bool {
    status_next_row(game) <= u16::MAX
}

/// The status lines of a frame: figures, ability slots, special encounters.
pub open spec fn status_prints(game: GameSnapshot) -> Seq<PrintView> {
    figure_prints(game) + ability_prints(game.player.abilities@, game.player.abilities@.len())
        + special_prints(game.specials@, special_first_row(game))
}

proof fn lemma_ability_prints_grow(abilities: Seq<Option<Ability>>, n: nat, m: nat)
    requires
        n <= m,
    ensures
        ability_prints(abilities, n).len() <= ability_prints(abilities, m).len(),
        n < m ==> ability_prints(abilities, n).len() < ability_prints(abilities, m).len(),
    decreases m,
{
    if n < m {
        lemma_ability_prints_grow(abilities, n, (m - 1) as nat);
    }
}

/// The lines of the ability slots stand on the rows from the first ability
/// row down, one row each.
pub proof fn lemma_ability_rows(abilities: Seq<Option<Ability>>, n: nat)
    requires
        ABILITY_FIRST_ROW + ability_prints(abilities, n).len() <= u16::MAX,
    ensures
        forall|i: int|
            0 <= i < ability_prints(abilities, n).len() ==> (#[trigger] ability_prints(
                abilities,
                n,
            )[i]).y == ABILITY_FIRST_ROW + i,
    decreases n,
{
    if n > 0 {
        lemma_ability_prints_grow(abilities, (n - 1) as nat, n);
        lemma_ability_rows(abilities, (n - 1) as nat);
    }
}

/// No status line stands above the first status row: the status lines leave
/// the rows of the board alone.
pub proof fn lemma_status_rows(game: GameSnapshot)
    requires
        status_fits(game),
    ensures
        forall|i: int|
            0 <= i < status_prints(game).len() ==> (#[trigger] status_prints(game)[i]).y
                >= STATUS_FIRST_ROW,
        status_next_row(game) >= STATUS_FIRST_ROW,
{
    lemma_ability_rows(game.player.abilities@, game.player.abilities@.len());
}

fn ability_title_string(index: usize, slot: &Option<Ability>) -> (text: String)
    requires
        index < usize::MAX,
    ensures
        text@ == ability_title(index as int, *slot),
{
    let mut text = String::new();
    append_decimal_nat(&mut text, (index + 1) as u64);
    text.append(" - ");
    match slot {
        Some(ability) => {
            text.append(ability.name.as_str());
        },
        None => {
            text.append("[empty]");
        },
    }
    text
}

fn special_string(special: &SpecialEncounter) -> (text: String)
    ensures
        text@ == special_text(*special),
{
    let mut text = String::from_str("Special Monster: ");
    text.append(special.name.as_str());
    text.append(" - ");
    text.append(special.description.as_str());
    text
}

/// Lays out the status lines of a frame. There are none where they would
/// reach below the last row that a screen coordinate can name.
pub fn status_lines(game: &GameSnapshot) -> (panel: Option<StatusPanel>)
    ensures
        panel is Some <==> status_fits(*game),
        panel matches Some(p) ==> shows(p.lines@, status_prints(*game)) && p.next_row
            == status_next_row(*game),
{
    let mut lines: Vec<TextLine> = Vec::new();
    lines.push(
        TextLine {
            x: 0,
            y: STATUS_FIRST_ROW,
            text: labelled_string("incoming damage: ", game.incoming_damage),
        },
    );
    lines.push(
        TextLine {
            x: 0,
            y: STATUS_FIRST_ROW + 1,
            text: ratio_string(
                "hit points: ",
                game.player.being.hit_points,
                game.player.being.max_hit_points,
            ),
        },
    );
    lines.push(
        TextLine {
            x: 0,
            y: STATUS_FIRST_ROW + 2,
            text: ratio_string(
                "shields: ",
                game.player.being.shields,
                game.player.being.max_shields,
            ),
        },
    );
    lines.push(
        TextLine {
            x: 0,
            y: STATUS_FIRST_ROW + 3,
            text: ratio_string(
                "coins: ",
                game.player.coin_cents,
                game.player.coin_cents_per_purchase,
            ),
        },
    );
    lines.push(
        TextLine {
            x: 0,
            y: STATUS_FIRST_ROW + 4,
            text: ratio_string(
                "UP: ",
                game.player.excess_shield_cents,
                game.player.excess_shield_cents_per_upgrade,
            ),
        },
    );
    lines.push(
        TextLine {
            x: 0,
            y: STATUS_FIRST_ROW + 5,
            text: ratio_string(
                "XP: ",
                game.player.experience_point_cents,
                game.player.experience_point_cents_per_level_up,
            ),
        },
    );
    let ghost abilities = game.player.abilities@;
    let ghost figures = figure_prints(*game);
    let mut text_y: u16 = ABILITY_FIRST_ROW;
    let mut index: usize = 0;
    while index < game.player.abilities.len()
        invariant
            index <= abilities.len(),
            abilities == game.player.abilities@,
            figures == figure_prints(*game),
            text_y == ABILITY_FIRST_ROW + ability_prints(abilities, index as nat).len(),
            shows(lines@, figures + ability_prints(abilities, index as nat)),
        decreases abilities.len() - index,
    {
        proof {
            lemma_ability_prints_grow(abilities, (index + 1) as nat, abilities.len());
        }
        if text_y == u16::MAX {
            return None;
        }
        let slot = &game.player.abilities[index];
        let title = TextLine { x: 0, y: text_y, text: ability_title_string(index, slot) };
        lines.push(title);
        text_y += 1;
        match slot {
            Some(ability) => {
                if ability.running_cooldown > 0 {
                    if text_y == u16::MAX {
                        return None;
                    }
                    lines.push(
                        TextLine {
                            x: COOLDOWN_COLUMN,
                            y: text_y,
                            text: labelled_string("COOLDOWN: ", ability.running_cooldown),
                        },
                    );
                    text_y += 1;
                }
            },
            None => {},
        }
        index += 1;
    }
    let ghost slots = ability_prints(abilities, abilities.len());
    if text_y == u16::MAX {
        return None;
    }
    text_y += 1;
    let ghost first_row = text_y as int;
    let ghost specials = game.specials@;
    let mut index: usize = 0;
    while index < game.specials.len()
        invariant
            index <= specials.len(),
            specials == game.specials@,
            abilities == game.player.abilities@,
            slots == ability_prints(abilities, abilities.len()),
            figures == figure_prints(*game),
            first_row == special_first_row(*game),
            text_y == first_row + index,
            lines@.len() == figures.len() + slots.len() + index,
            forall|i: int|
                0 <= i < figures.len() + slots.len() ==> (#[trigger] lines@[i])@ == (figures
                    + slots)[i],
            forall|i: int|
                0 <= i < index ==> (#[trigger] lines@[figures.len() + slots.len() + i])@
                    == special_prints(specials, first_row)[i],
        decreases specials.len() - index,
    {
        if text_y == u16::MAX {
            return None;
        }
        lines.push(TextLine { x: 0, y: text_y, text: special_string(&game.specials[index]) });
        text_y += 1;
        index += 1;
    }
    proof {
        let all = status_prints(*game);
        assert forall|i: int| 0 <= i < lines@.len() implies (#[trigger] lines@[i])@ == all[i] by {
            if i >= figures.len() + slots.len() {
                let k = i - (figures.len() + slots.len());
                assert(lines@[figures.len() + slots.len() + k]@ == special_prints(
                    specials,
                    first_row,
                )[k]);
            }
        }
    }
    Some(StatusPanel { lines, next_row: text_y })
}

/// The lines of a menu of improvements: the header in the first row, and each
/// option on a row of its own below it.
pub open spec fn choice_prints(set: ImprovementChoiceSet) -> Seq<PrintView> {
    seq![PrintView { x: 0, y: 0, text: set.header@ }] + Seq::new(
        set.displays@.len(),
        |i: int|
            PrintView {
                x: CHOICE_COLUMN,
                y: (CHOOSING_IMPROVEMENT_CURSOR_MAX_UP + i) as u16,
                text: set.displays@[i]@,
            },
    )
}

/// The menu ends on a row that a screen coordinate can name.
pub open spec fn choices_fit(set: ImprovementChoiceSet) -> bool {
    CHOOSING_IMPROVEMENT_CURSOR_MAX_UP + set.displays@.len() <= u16::MAX
}

/// Lays out a menu of improvements. There are no lines where they would reach
/// below the last row that a screen coordinate can name.
pub fn choice_lines(set: &ImprovementChoiceSet) -> (lines: Option<Vec<TextLine>>)
    ensures
        lines is Some <==> choices_fit(*set),
        lines matches Some(l) ==> shows(l@, choice_prints(*set)),
{
    let mut lines: Vec<TextLine> = Vec::new();
    lines.push(TextLine { x: 0, y: 0, text: set.header.clone() });
    let mut choice_text_y: u16 = CHOOSING_IMPROVEMENT_CURSOR_MAX_UP;
    let mut index: usize = 0;
    while index < set.displays.len()
        invariant
            index <= set.displays@.len(),
            choice_text_y == CHOOSING_IMPROVEMENT_CURSOR_MAX_UP + index,
            lines@.len() == 1 + index,
            lines@[0]@ == choice_prints(*set)[0],
            forall|i: int|
                0 <= i < index ==> (#[trigger] lines@[1 + i])@ == choice_prints(*set)[1 + i],
        decreases set.displays@.len() - index,
    {
        if choice_text_y == u16::MAX {
            return None;
        }
        lines.push(
            TextLine { x: CHOICE_COLUMN, y: choice_text_y, text: set.displays[index].clone() },
        );
        choice_text_y += 1;
        index += 1;
    }
    Some(lines)
}

/// The name of a kind of tile that has one.
pub open spec fn kind_name(tile_type: TileType) -> Seq<char> {
    match tile_type {
        TileType::Potion => "Potion"@,
        TileType::Shield => "Shield"@,
        TileType::Coin => "Coin"@,
        TileType::Sword => "Sword"@,
        TileType::Enemy => "Enemy"@,
        TileType::Special => "Special"@,
        TileType::Other => Seq::empty(),
    }
}

/// What is said of a tile's monster: its figures in braces, after its type
/// for a special one; nothing for a tile without a monster.
pub open spec fn info_text(info: TileInfo) -> Seq<char> {
    match info {
        TileInfo::Enemy(being) => " { hp: "@ + decimal(being.hit_points as int) + ", sh: "@
            + decimal(being.shields as int) + ", dmg: "@ + decimal(
            being.base_output_damage as int,
        ) + " }"@,
        TileInfo::Special { name, being } => " { type: "@ + name@ + ", hp: "@ + decimal(
            being.hit_points as int,
        ) + ", sh: "@ + decimal(being.shields as int) + ", dmg: "@ + decimal(
            being.base_output_damage as int,
        ) + " }"@,
        TileInfo::Nothing => Seq::empty(),
    }
}

/// The line that describes the hovered tile.
pub open spec fn hover_text(tile: Tile) -> Seq<char> {
    "Hovered Tile: "@ + kind_name(tile.tile_type) + info_text(tile.tile_info)
}

fn info_string(info: &TileInfo) -> (text: String)
    ensures
        text@ == info_text(*info),
{
    match info {
        TileInfo::Enemy(being) => {
            let mut text = String::from_str(" { hp: ");
            append_decimal(&mut text, being.hit_points);
            text.append(", sh: ");
            append_decimal(&mut text, being.shields);
            text.append(", dmg: ");
            append_decimal(&mut text, being.base_output_damage);
            text.append(" }");
            text
        },
        TileInfo::Special { name, being } => {
            let mut text = String::from_str(" { type: ");
            text.append(name.as_str());
            text.append(", hp: ");
            append_decimal(&mut text, being.hit_points);
            text.append(", sh: ");
            append_decimal(&mut text, being.shields);
            text.append(", dmg: ");
            append_decimal(&mut text, being.base_output_damage);
            text.append(" }");
            text
        },
        TileInfo::Nothing => String::new(),
    }
}

/// Describes the hovered tile: its kind, and its monster's figures if it has
/// one. A tile of a kind without a name cannot be hovered.
pub fn hover_line(tile: &Tile) -> (text: String)
    requires
        tile.tile_type != TileType::Other,
    ensures
        text@ == hover_text(*tile),
{
    let mut text = String::from_str("Hovered Tile: ");
    match tile.tile_type {
        TileType::Potion => text.append("Potion"),
        TileType::Shield => text.append("Shield"),
        TileType::Coin => text.append("Coin"),
        TileType::Sword => text.append("Sword"),
        TileType::Enemy => text.append("Enemy"),
        TileType::Special => text.append("Special"),
        TileType::Other => {},
    }
    let info = info_string(&tile.tile_info);
    text.append(info.as_str());
    text
}

} // verus!
