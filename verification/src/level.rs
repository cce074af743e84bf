//! The level format: rows of ASCII art in, a list of tiles out.
//!
//! | Char | Meaning |
//! |---|---|
//! | `#` | Solid block — walls, floors, ceilings |
//! | `=` | One-way platform — jump up through it, land on top of it |
//! | `o` | Coin |
//! | `^` | Spikes — touching them costs a life |
//! | `P` | Player spawn (exactly one) |
//! | `F` | Goal flag |
//! | `.` or space | Empty |
//!
//! Rows are read top to bottom and characters left to right. Every row has the same
//! width; any other character is an error.
use vstd::prelude::*;

use vstd::string::StringSliceAdditionalSpecFns;

use crate::gameplay::Progress;
use crate::{GameState, TILE};

verus! {

/// What a non-empty level character becomes.
#[derive(Debug, Clone, Copy, PartialEq, Eq, Structural)]
pub enum TileKind {
    /// `#`
    Solid,
    /// `=`
    OneWay,
    /// `o`
    Coin,
    /// `^`
    Hazard,
    /// `P`
    Spawn,
    /// `F`
    Goal,
}

/// One non-empty cell of the level: its kind and its (column, row) in the art.
#[derive(Debug, Clone, Copy, PartialEq, Eq, Structural)]
pub struct Tile {
    pub kind: TileKind,
    pub column: usize,
    pub row: usize,
}

/// Why a level cannot be built. The first problem in reading order is reported.
#[derive(Debug, Clone, Copy, PartialEq, Eq, Structural)]
pub enum LevelError {
    /// The level has no rows.
    Empty,
    /// This row's width (in bytes) differs from the first row's.
    RaggedRow { row: usize },
    /// A character that is not part of the format.
    UnknownCharacter { character: char, row: usize, column: usize },
    /// A second `P`: the level must hold exactly one spawn.
    SecondSpawn { row: usize, column: usize },
    /// No `P` anywhere.
    NoSpawn,
    /// The coin at this position would make the coin count overflow a `u32`.
    TooManyCoins { row: usize, column: usize },
}

/// A built level: its size in tiles, its tiles in reading order, its spawn point and
/// how many coins it holds.
#[derive(Debug)]
pub struct LevelLayout {
    /// Width in tiles (the byte width of every row).
    pub columns: usize,
    /// Height in tiles.
    pub rows: usize,
    /// Every non-empty cell, row by row, left to right.
    pub tiles: Vec<Tile>,
    /// Column of the `P`.
    pub spawn_column: usize,
    /// Row of the `P`.
    pub spawn_row: usize,
    /// Number of `o` cells.
    pub total_coins: u32,
}

/// The tile a character stands for, if any.
pub open spec fn tile_kind(ch: char) -> Option<TileKind> {
    if ch == '#' {
        Some(TileKind::Solid)
    } else if ch == '=' {
        Some(TileKind::OneWay)
    } else if ch == 'o' {
        Some(TileKind::Coin)
    } else if ch == '^' {
        Some(TileKind::Hazard)
    } else if ch == 'P' {
        Some(TileKind::Spawn)
    } else if ch == 'F' {
        Some(TileKind::Goal)
    } else {
        None
    }
}

/// The character that stands for a tile kind.
pub open spec fn kind_char(kind: TileKind) -> char {
    match kind {
        TileKind::Solid => '#',
        TileKind::OneWay => '=',
        TileKind::Coin => 'o',
        TileKind::Hazard => '^',
        TileKind::Spawn => 'P',
        TileKind::Goal => 'F',
    }
}

/// An empty cell.
pub open spec fn is_blank(ch: char) -> bool {
    ch == '.' || ch == ' '
}

/// A character of the format.
pub open spec fn is_known(ch: char) -> bool {
    is_blank(ch) || tile_kind(ch) is Some
}

/// The level as a grid of characters.
pub open spec fn grid(rows: Seq<&str>) -> Seq<Seq<char>> {
    rows.map_values(|line: &str| line@)
}

/// The width of a row in bytes, as `str::len` gives it.
pub open spec fn byte_width(line: &str) -> usize {
    line.spec_bytes().len() as usize
}

/// All rows have the byte width of the first.
pub open spec fn rows_even(rows: Seq<&str>) -> bool {
    forall|r: int| 0 <= r < rows.len() ==> #[trigger] byte_width(rows[r]) == byte_width(rows[0])
}

/// How many `ch` there are among the first `upto` characters of `line`.
pub open spec fn count_in_line(line: Seq<char>, ch: char, upto: int) -> nat
    decreases upto,
{
    if upto <= 0 {
        0
    } else {
        count_in_line(line, ch, upto - 1) + (if line[upto - 1] == ch { 1nat } else { 0nat })
    }
}

/// How many `ch` there are in the first `upto` rows.
pub open spec fn count_in_rows(g: Seq<Seq<char>>, ch: char, upto: int) -> nat
    decreases upto,
{
    if upto <= 0 {
        0
    } else {
        count_in_rows(g, ch, upto - 1) + count_in_line(g[upto - 1], ch, g[upto - 1].len() as int)
    }
}

/// How many `ch` there are in the whole grid.
pub open spec fn count_in_grid(g: Seq<Seq<char>>, ch: char) -> nat {
    count_in_rows(g, ch, g.len() as int)
}

/// How many `ch` come before (row, column) in reading order.
pub open spec fn count_before(g: Seq<Seq<char>>, ch: char, row: int, column: int) -> nat {
    count_in_rows(g, ch, row) + count_in_line(g[row], ch, column)
}

/// (row, column) is a cell of the grid.
pub open spec fn in_grid(g: Seq<Seq<char>>, row: int, column: int) -> bool {
    0 <= row < g.len() && 0 <= column < g[row].len()
}

/// (r1, c1) is read before (r2, c2).
pub open spec fn reads_before(r1: int, c1: int, r2: int, c2: int) -> bool {
    r1 < r2 || (r1 == r2 && c1 < c2)
}

/// The cell at (row, column) stops the build: an unknown character, a second spawn,
/// or a coin that would overflow the coin count.
pub open spec fn is_fault(g: Seq<Seq<char>>, row: int, column: int) -> bool {
    let ch = g[row][column];
    ||| !is_known(ch)
    ||| (ch == 'P' && count_before(g, 'P', row, column) >= 1)
    ||| (ch == 'o' && count_before(g, 'o', row, column) >= u32::MAX)
}

/// No cell read before (row, column) is a fault.
pub open spec fn no_fault_before(g: Seq<Seq<char>>, row: int, column: int) -> bool {
    forall|r: int, c: int|
        in_grid(g, r, c) && reads_before(r, c, row, column) ==> !#[trigger] is_fault(g, r, c)
}

/// (row, column) is the first fault in reading order.
pub open spec fn first_fault(g: Seq<Seq<char>>, row: int, column: int) -> bool {
    in_grid(g, row, column) && is_fault(g, row, column) && no_fault_before(g, row, column)
}

/// No cell of the grid is a fault.
pub open spec fn fault_free(g: Seq<Seq<char>>) -> bool {
    forall|r: int, c: int| in_grid(g, r, c) ==> !#[trigger] is_fault(g, r, c)
}

/// The rows form a buildable level: at least one row, all of one width, only known
/// characters, exactly one spawn, and a coin count that fits a `u32`.
pub open spec fn level_ok(rows: Seq<&str>) -> bool {
    let g = grid(rows);
    &&& rows.len() > 0
    &&& rows_even(rows)
    &&& fault_free(g)
    &&& count_in_grid(g, 'P') == 1
    &&& count_in_grid(g, 'o') <= u32::MAX
}

/// The tiles of the first `upto` characters of `line`, which is row `row`.
pub open spec fn tiles_in_line(line: Seq<char>, row: int, upto: int) -> Seq<Tile>
    decreases upto,
{
    if upto <= 0 {
        Seq::empty()
    } else {
        let rest = tiles_in_line(line, row, upto - 1);
        match tile_kind(line[upto - 1]) {
            Some(kind) => rest.push(Tile { kind, column: (upto - 1) as usize, row: row as usize }),
            None => rest,
        }
    }
}

/// The tiles of the first `upto` rows, in reading order.
pub open spec fn tiles_in_rows(g: Seq<Seq<char>>, upto: int) -> Seq<Tile>
    decreases upto,
{
    if upto <= 0 {
        Seq::empty()
    } else {
        tiles_in_rows(g, upto - 1) + tiles_in_line(g[upto - 1], upto - 1, g[upto - 1].len() as int)
    }
}

/// Every tile of the grid, in reading order.
pub open spec fn tiles_of(g: Seq<Seq<char>>) -> Seq<Tile> {
    tiles_in_rows(g, g.len() as int)
}

/// Height of [`level_art`] in rows.
pub const LEVEL_ROWS: usize = 18;

/// The characters of [`level_art`], row by row.
pub open spec fn level_grid() -> Seq<Seq<char>> {
    seq![
        "............................................................"@,
        "............................................................"@,
        "........................................................F..."@,
        "......................................................====.."@,
        ".....................................................o......"@,
        ".....................................................######."@,
        "............................................................"@,
        "..................................................o........."@,
        "............................................................"@,
        "......................oo...................................."@,
        ".....................====..................................."@,
        "..............................................o............."@,
        "...........oo.....oo........................................"@,
        "...............======...........oo...........===............"@,
        "..........###.............................o................."@,
        ".........o...............................###................"@,
        "..P..o.##..............................o...................."@,
        "#########################^^#..........########^^^###########"@,
    ]
}

/// The level: 18 rows of 60 tiles, buildable as it stands.
///
/// The ruler in the comments lines tiles up with the moving platforms, which are
/// addressed by column number and live outside the art because they need two positions.
pub fn level_art() -> (art: [&'static str; 18])
    ensures
        grid(art@) == level_grid(),
        art@[0]@ == "............................................................"@,
        art@[1]@ == "............................................................"@,
        art@[2]@ == "........................................................F..."@,
        art@[3]@ == "......................................................====.."@,
        art@[4]@ == ".....................................................o......"@,
        art@[5]@ == ".....................................................######."@,
        art@[6]@ == "............................................................"@,
        art@[7]@ == "..................................................o........."@,
        art@[8]@ == "............................................................"@,
        art@[9]@ == "......................oo...................................."@,
        art@[10]@ == ".....................====..................................."@,
        art@[11]@ == "..............................................o............."@,
        art@[12]@ == "...........oo.....oo........................................"@,
        art@[13]@ == "...............======...........oo...........===............"@,
        art@[14]@ == "..........###.............................o................."@,
        art@[15]@ == ".........o...............................###................"@,
        art@[16]@ == "..P..o.##..............................o...................."@,
        art@[17]@ == "#########################^^#..........########^^^###########"@,
        level_ok(art@),
        forall|r: int| 0 <= r < 18 ==> #[trigger] grid(art@)[r].len() == 60,
        byte_width(art@[0]) == 60,
        grid(art@)[16][2] == 'P',
        count_in_grid(grid(art@), 'P') == 1,
        count_in_grid(grid(art@), 'F') == 1,
        count_in_grid(grid(art@), 'o') == 15,
        count_in_grid(grid(art@), '#') == 59,
        count_in_grid(grid(art@), '=') == 17,
        count_in_grid(grid(art@), '^') == 5,
{
    //         000000000011111111112222222222333333333344444444445555555555
    //         012345678901234567890123456789012345678901234567890123456789
    let r00 = "............................................................";
    let r01 = "............................................................";
    let r02 = "........................................................F...";
    let r03 = "......................................................====..";
    let r04 = ".....................................................o......";
    let r05 = ".....................................................######.";
    let r06 = "............................................................";
    let r07 = "..................................................o.........";
    let r08 = "............................................................";
    let r09 = "......................oo....................................";
    let r10 = ".....................====...................................";
    let r11 = "..............................................o.............";
    let r12 = "...........oo.....oo........................................";
    let r13 = "...............======...........oo...........===............";
    let r14 = "..........###.............................o.................";
    let r15 = ".........o...............................###................";
    let r16 = "..P..o.##..............................o....................";
    let r17 = "#########################^^#..........########^^^###########";
    let art = [
        r00, r01, r02, r03, r04, r05, r06, r07, r08, r09, r10, r11, r12, r13, r14, r15, r16, r17,
    ];
    proof {
        let g = grid(art@);
        assert(art@ =~= seq![
            r00, r01, r02, r03, r04, r05, r06, r07, r08, r09, r10, r11, r12, r13, r14, r15, r16,
            r17,
        ]);
        art_row_is_well_formed_00();
        art_row_is_well_formed_01();
        art_row_is_well_formed_02();
        art_row_is_well_formed_03();
        art_row_is_well_formed_04();
        art_row_is_well_formed_05();
        art_row_is_well_formed_06();
        art_row_is_well_formed_07();
        art_row_is_well_formed_08();
        art_row_is_well_formed_09();
        art_row_is_well_formed_10();
        art_row_is_well_formed_11();
        art_row_is_well_formed_12();
        art_row_is_well_formed_13();
        art_row_is_well_formed_14();
        art_row_is_well_formed_15();
        art_row_is_well_formed_16();
        art_row_is_well_formed_17();
        assert forall|r: int| 0 <= r < 18 implies #[trigger] g[r] == art@[r]@ by {}
        assert(rows_known_from(art@, 60, 0)) by {
            reveal_with_fuel(rows_known_from, 19);
        }
        assert(count_in_grid(g, 'P') == 1) by {
            reveal_with_fuel(count_in_rows, 19);
        }
        assert(count_in_grid(g, 'F') == 1) by {
            reveal_with_fuel(count_in_rows, 19);
        }
        assert(count_in_grid(g, 'o') == 15) by {
            reveal_with_fuel(count_in_rows, 19);
        }
        assert(count_in_grid(g, '#') == 59) by {
            reveal_with_fuel(count_in_rows, 19);
        }
        assert(count_in_grid(g, '=') == 17) by {
            reveal_with_fuel(count_in_rows, 19);
        }
        assert(count_in_grid(g, '^') == 5) by {
            reveal_with_fuel(count_in_rows, 19);
        }
        assert(g =~= level_grid());
        assert(g[16][2] == 'P') by {
            reveal_strlit("..P..o.##..............................o....................");
        }
        buildable_from_known_rows(art@, 60);
    }
    art
}

/// The world position of the centre of tile (column, row) of [`level_art`], in world
/// units. Rows count down from the top of the art while world y counts up from the
/// bottom, so the row is flipped; the half tile is because a tile is centred on its
/// position. Rows below the art give negative y.
pub fn tile_center(column: u32, row: u32) -> (center: (i64, i64))
    ensures
        center.0 == column * TILE + TILE / 2,
        center.1 == (LEVEL_ROWS - 1 - row) * TILE + TILE / 2,
{
    let tile = TILE as i64;
    let x = column as i64 * tile + tile / 2;
    let y = (LEVEL_ROWS as i64 - 1 - row as i64) * tile + tile / 2;
    (x, y)
}

impl LevelLayout {
    /// The level's extent in world units: (width, height), measured from the origin.
    pub fn bounds(&self) -> (size: (u128, u128))
        ensures
            size.0 == self.columns * TILE,
            size.1 == self.rows * TILE,
    {
        (self.columns as u128 * TILE as u128, self.rows as u128 * TILE as u128)
    }

    /// Where every attempt at this level starts: a fresh scoreboard for its coins, and
    /// play (also when rebuilding from the win screen).
    pub fn fresh_attempt(&self) -> (start: (Progress, GameState))
        ensures
            start.0 == Progress::fresh(self.total_coins),
            start.1 == GameState::Playing,
    {
        (Progress::new(self.total_coins), GameState::Playing)
    }
}

/// The level format, character by character: exactly `.`, space, `#`, `=`, `o`, `^`,
/// `P` and `F` belong to it; the two blanks make no tile, and the others make a solid, a
/// one-way platform, a coin, a hazard, the spawn and the goal, in that order. Each kind
/// is made by its own character.
pub proof fn level_format_characters()
    ensures
        forall|ch: char|
            #[trigger] is_known(ch) <==> (ch == '.' || ch == ' ' || ch == '#' || ch == '='
                || ch == 'o' || ch == '^' || ch == 'P' || ch == 'F'),
        tile_kind('.') is None,
        tile_kind(' ') is None,
        tile_kind('#') == Some(TileKind::Solid),
        tile_kind('=') == Some(TileKind::OneWay),
        tile_kind('o') == Some(TileKind::Coin),
        tile_kind('^') == Some(TileKind::Hazard),
        tile_kind('P') == Some(TileKind::Spawn),
        tile_kind('F') == Some(TileKind::Goal),
        forall|kind: TileKind| #[trigger] tile_kind(kind_char(kind)) == Some(kind),
{
    assert forall|kind: TileKind| #[trigger] tile_kind(kind_char(kind)) == Some(kind) by {
        match kind {
            TileKind::Solid => {},
            TileKind::OneWay => {},
            TileKind::Coin => {},
            TileKind::Hazard => {},
            TileKind::Spawn => {},
            TileKind::Goal => {},
        }
    }
}

/// Every character of `line` from position `k` on is `ch`.
pub open spec fn all_from(line: Seq<char>, ch: char, k: int) -> bool
    decreases line.len() - k,
{
    if k < 0 || k >= line.len() {
        true
    } else {
        line[k] == ch && all_from(line, ch, k + 1)
    }
}

proof fn all_from_all(line: Seq<char>, ch: char, k: int)
    requires
        0 <= k,
        all_from(line, ch, k),
    ensures
        forall|c: int| k <= c < line.len() ==> #[trigger] line[c] == ch,
    decreases line.len() - k,
{
    if k < line.len() {
        all_from_all(line, ch, k + 1);
    }
}

/// The shipped level can be played from the start: the spawn stands on solid floor,
/// the top row is open sky, and the goal flag stands on a one-way platform.
pub proof fn shipped_level_is_grounded()
    ensures
        level_grid().len() == 18,
        level_grid()[16][2] == 'P',
        level_grid()[17][2] == '#',
        level_grid()[0].len() == 60,
        forall|c: int| 0 <= c < 60 ==> #[trigger] level_grid()[0][c] == '.',
        level_grid()[2][56] == 'F',
        level_grid()[3][56] == '=',
{
    reveal_strlit("............................................................");
    reveal_strlit("........................................................F...");
    reveal_strlit("......................................................====..");
    reveal_strlit("..P..o.##..............................o....................");
    reveal_strlit("#########################^^#..........########^^^###########");
    let g = level_grid();
    assert(all_from(g[0], '.', 0)) by {
        reveal_with_fuel(all_from, 61);
    }
    all_from_all(g[0], '.', 0);
}

/// The tile kind of a character.
pub fn kind_of(ch: char) -> (kind: Option<TileKind>)
    ensures
        kind == tile_kind(ch),
{
    match ch {
        '#' => Some(TileKind::Solid),
        '=' => Some(TileKind::OneWay),
        'o' => Some(TileKind::Coin),
        '^' => Some(TileKind::Hazard),
        'P' => Some(TileKind::Spawn),
        'F' => Some(TileKind::Goal),
        _ => None,
    }
}

/// Whether a character belongs to the level format.
pub fn is_known_char(ch: char) -> (known: bool)
    ensures
        known == is_known(ch),
{
    ch == '.' || ch == ' ' || kind_of(ch).is_some()
}

/// Checks that `rows` form a buildable level, and reports the first problem otherwise.
///
/// Checks run in this order: an empty level; then the first row whose byte width
/// differs from the first row's; then, reading cell by cell, the first unknown
/// character, second `P`, or coin past the `u32` count; and last, a level with no `P`.
pub fn check_level(rows: &[&str]) -> (result: Result<(), LevelError>)
    ensures
        result is Ok <==> level_ok(rows@),
        result matches Err(LevelError::Empty) ==> rows@.len() == 0,
        result matches Err(LevelError::RaggedRow { row }) ==> {
            &&& 0 < row < rows@.len()
            &&& byte_width(rows@[row as int]) != byte_width(rows@[0])
            &&& forall|r: int| 0 <= r < row ==> #[trigger] byte_width(rows@[r]) == byte_width(rows@[0])
        },
        result matches Err(LevelError::UnknownCharacter { character, row, column }) ==> {
            &&& rows@.len() > 0 && rows_even(rows@)
            &&& first_fault(grid(rows@), row as int, column as int)
            &&& grid(rows@)[row as int][column as int] == character
            &&& !is_known(character)
        },
        result matches Err(LevelError::SecondSpawn { row, column }) ==> {
            &&& rows@.len() > 0 && rows_even(rows@)
            &&& first_fault(grid(rows@), row as int, column as int)
            &&& grid(rows@)[row as int][column as int] == 'P'
        },
        result matches Err(LevelError::TooManyCoins { row, column }) ==> {
            &&& rows@.len() > 0 && rows_even(rows@)
            &&& first_fault(grid(rows@), row as int, column as int)
            &&& grid(rows@)[row as int][column as int] == 'o'
        },
        result matches Err(LevelError::NoSpawn) ==> {
            &&& rows@.len() > 0 && rows_even(rows@)
            &&& fault_free(grid(rows@))
            &&& count_in_grid(grid(rows@), 'P') == 0
        },
{
    let ghost g = grid(rows@);
    let n = rows.len();
    if n == 0 {
        return Err(LevelError::Empty);
    }
    let width = rows[0].len();
    let mut r: usize = 1;
    while r < n
        invariant
            1 <= r <= n,
            n == rows@.len(),
            width == byte_width(rows@[0]),
            forall|k: int| 0 <= k < r ==> #[trigger] byte_width(rows@[k]) == width,
        decreases n - r,
    {
        if rows[r].len() != width {
            assert(byte_width(rows@[r as int]) != byte_width(rows@[0]));
            return Err(LevelError::RaggedRow { row: r });
        }
        r = r + 1;
    }
    assert(rows_even(rows@));
    let mut spawns: u32 = 0;
    let mut coins: u32 = 0;
    let mut r: usize = 0;
    while r < n
        invariant
            0 <= r <= n,
            n == rows@.len(),
            g == grid(rows@),
            rows_even(rows@),
            spawns as nat == count_in_rows(g, 'P', r as int),
            spawns <= 1,
            coins as nat == count_in_rows(g, 'o', r as int),
            no_fault_before(g, r as int, 0),
        decreases n - r,
    {
        let line: &str = rows[r];
        let len = line.unicode_len();
        assert(g[r as int] == line@);
        let mut c: usize = 0;
        while c < len
            invariant
                0 <= r < n,
                n == rows@.len(),
                g == grid(rows@),
                rows_even(rows@),
                g[r as int] == line@,
                len == line@.len(),
                0 <= c <= len,
                spawns as nat == count_before(g, 'P', r as int, c as int),
                spawns <= 1,
                coins as nat == count_before(g, 'o', r as int, c as int),
                no_fault_before(g, r as int, c as int),
            decreases len - c,
        {
            let ch = line.get_char(c);
            assert(g[r as int][c as int] == ch);
            assert(in_grid(g, r as int, c as int));
            if !is_known_char(ch) {
                assert(is_fault(g, r as int, c as int));
                return Err(LevelError::UnknownCharacter { character: ch, row: r, column: c });
            }
            if ch == 'P' {
                if spawns >= 1 {
                    assert(is_fault(g, r as int, c as int));
                    return Err(LevelError::SecondSpawn { row: r, column: c });
                }
                spawns = spawns + 1;
            }
            if ch == 'o' {
                if coins == u32::MAX {
                    assert(is_fault(g, r as int, c as int));
                    return Err(LevelError::TooManyCoins { row: r, column: c });
                }
                coins = coins + 1;
            }
            assert(!is_fault(g, r as int, c as int));
            c = c + 1;
        }
        r = r + 1;
    }
    if spawns == 0 {
        return Err(LevelError::NoSpawn);
    }
    Ok(())
}


/// Builds a level from its rows: every non-empty cell becomes a tile, the `P` becomes
/// the spawn point, and the coins are counted.
pub fn build_level(rows: &[&str]) -> (layout: LevelLayout)
    requires
        level_ok(rows@),
    ensures
        layout.rows == rows@.len(),
        layout.columns == byte_width(rows@[0]),
        layout.tiles@ == tiles_of(grid(rows@)),
        in_grid(grid(rows@), layout.spawn_row as int, layout.spawn_column as int),
        grid(rows@)[layout.spawn_row as int][layout.spawn_column as int] == 'P',
        forall|r: int, c: int|
            in_grid(grid(rows@), r, c) && #[trigger] grid(rows@)[r][c] == 'P' ==> r
                == layout.spawn_row && c == layout.spawn_column,
        layout.total_coins == count_in_grid(grid(rows@), 'o'),
        layout.total_coins == count_kind(layout.tiles@, TileKind::Coin),
        count_kind(layout.tiles@, TileKind::Spawn) == 1,
{
    let ghost g = grid(rows@);
    let n = rows.len();
    let columns = rows[0].len();
    let mut tiles: Vec<Tile> = Vec::new();
    let mut total_coins: u32 = 0;
    let mut found = false;
    let mut spawn_column: usize = 0;
    let mut spawn_row: usize = 0;
    let mut r: usize = 0;
    while r < n
        invariant
            0 <= r <= n,
            n == rows@.len(),
            g == grid(rows@),
            level_ok(rows@),
            tiles@ == tiles_in_rows(g, r as int),
            total_coins as nat == count_in_rows(g, 'o', r as int),
            found == (count_in_rows(g, 'P', r as int) > 0),
            found ==> in_grid(g, spawn_row as int, spawn_column as int)
                && g[spawn_row as int][spawn_column as int] == 'P',
        decreases n - r,
    {
        let line: &str = rows[r];
        let len = line.unicode_len();
        assert(g[r as int] == line@);
        let mut c: usize = 0;
        while c < len
            invariant
                0 <= r < n,
                n == rows@.len(),
                g == grid(rows@),
                level_ok(rows@),
                g[r as int] == line@,
                len == line@.len(),
                0 <= c <= len,
                tiles@ == tiles_in_rows(g, r as int) + tiles_in_line(g[r as int], r as int, c as int),
                total_coins as nat == count_before(g, 'o', r as int, c as int),
                found == (count_before(g, 'P', r as int, c as int) > 0),
                found ==> in_grid(g, spawn_row as int, spawn_column as int)
                    && g[spawn_row as int][spawn_column as int] == 'P',
            decreases len - c,
        {
            let ch = line.get_char(c);
            assert(g[r as int][c as int] == ch);
            assert(!is_fault(g, r as int, c as int));
            match kind_of(ch) {
                Some(kind) => {
                    tiles.push(Tile { kind, column: c, row: r });
                },
                None => {},
            }
            if ch == 'o' {
                total_coins = total_coins + 1;
            }
            if ch == 'P' {
                found = true;
                spawn_column = c;
                spawn_row = r;
            }
            proof {
                assert(tiles_in_rows(g, r as int) + tiles_in_line(g[r as int], r as int, c + 1)
                    =~= tiles@);
            }
            c = c + 1;
        }
        r = r + 1;
    }
    proof {
        tiles_count_their_characters(g, TileKind::Coin);
        tiles_count_their_characters(g, TileKind::Spawn);
        assert forall|r: int, c: int|
            in_grid(g, r, c) && #[trigger] g[r][c] == 'P' implies r == spawn_row && c
                == spawn_column by {
            only_one_cell_holds(g, 'P', r, c, spawn_row as int, spawn_column as int);
        }
    }
    LevelLayout { columns, rows: n, tiles, spawn_column, spawn_row, total_coins }
}


/// How many tiles of `tiles` are of `kind`.
pub open spec fn count_kind(tiles: Seq<Tile>, kind: TileKind) -> nat
    decreases tiles.len(),
{
    if tiles.len() == 0 {
        0
    } else {
        count_kind(tiles.drop_last(), kind) + (if tiles.last().kind == kind { 1nat } else { 0nat })
    }
}

/// Every row and every row's length fits a `usize`, as they do for real text.
pub open spec fn grid_fits_usize(g: Seq<Seq<char>>) -> bool {
    &&& g.len() <= usize::MAX
    &&& forall|r: int| 0 <= r < g.len() ==> #[trigger] g[r].len() <= usize::MAX
}

proof fn count_kind_append(a: Seq<Tile>, b: Seq<Tile>, kind: TileKind)
    ensures
        count_kind(a + b, kind) == count_kind(a, kind) + count_kind(b, kind),
    decreases b.len(),
{
    if b.len() == 0 {
        assert(a + b =~= a);
    } else {
        count_kind_append(a, b.drop_last(), kind);
        assert((a + b).drop_last() =~= a + b.drop_last());
    }
}

proof fn line_tiles_count(line: Seq<char>, row: int, upto: int, kind: TileKind)
    ensures
        count_kind(tiles_in_line(line, row, upto), kind) == count_in_line(line, kind_char(kind), upto),
    decreases upto,
{
    if upto > 0 {
        line_tiles_count(line, row, upto - 1, kind);
        let rest = tiles_in_line(line, row, upto - 1);
        match tile_kind(line[upto - 1]) {
            Some(k) => {
                let t = Tile { kind: k, column: (upto - 1) as usize, row: row as usize };
                assert(rest.push(t).drop_last() =~= rest);
            },
            None => {},
        }
    }
}

proof fn rows_tiles_count(g: Seq<Seq<char>>, upto: int, kind: TileKind)
    ensures
        count_kind(tiles_in_rows(g, upto), kind) == count_in_rows(g, kind_char(kind), upto),
    decreases upto,
{
    if upto > 0 {
        rows_tiles_count(g, upto - 1, kind);
        line_tiles_count(g[upto - 1], upto - 1, g[upto - 1].len() as int, kind);
        count_kind_append(
            tiles_in_rows(g, upto - 1),
            tiles_in_line(g[upto - 1], upto - 1, g[upto - 1].len() as int),
            kind,
        );
    }
}

/// Each kind of tile occurs in a built level exactly as often as its character occurs
/// in the art: as many solids as `#`, as many coins as `o`, and so on.
pub proof fn tiles_count_their_characters(g: Seq<Seq<char>>, kind: TileKind)
    ensures
        count_kind(tiles_of(g), kind) == count_in_grid(g, kind_char(kind)),
{
    rows_tiles_count(g, g.len() as int, kind);
}

proof fn line_tiles_placed(line: Seq<char>, row: int, upto: int)
    requires
        0 <= row <= usize::MAX,
        upto <= line.len() <= usize::MAX,
    ensures
        forall|i: int|
            0 <= i < tiles_in_line(line, row, upto).len() ==> {
                let t = #[trigger] tiles_in_line(line, row, upto)[i];
                &&& t.row == row
                &&& t.column < upto
                &&& tile_kind(line[t.column as int]) == Some(t.kind)
            },
        forall|i: int, j: int|
            0 <= i < j < tiles_in_line(line, row, upto).len() ==>
                (#[trigger] tiles_in_line(line, row, upto)[i]).column
                    < (#[trigger] tiles_in_line(line, row, upto)[j]).column,
    decreases upto,
{
    if upto > 0 {
        line_tiles_placed(line, row, upto - 1);
    }
}

proof fn rows_tiles_placed(g: Seq<Seq<char>>, upto: int)
    requires
        grid_fits_usize(g),
        upto <= g.len(),
    ensures
        forall|i: int|
            0 <= i < tiles_in_rows(g, upto).len() ==> {
                let t = #[trigger] tiles_in_rows(g, upto)[i];
                &&& t.row < upto
                &&& in_grid(g, t.row as int, t.column as int)
                &&& tile_kind(g[t.row as int][t.column as int]) == Some(t.kind)
            },
        forall|i: int, j: int|
            0 <= i < j < tiles_in_rows(g, upto).len() ==> {
                let a = #[trigger] tiles_in_rows(g, upto)[i];
                let b = #[trigger] tiles_in_rows(g, upto)[j];
                reads_before(a.row as int, a.column as int, b.row as int, b.column as int)
            },
    decreases upto,
{
    if upto > 0 {
        rows_tiles_placed(g, upto - 1);
        let line = g[upto - 1];
        line_tiles_placed(line, upto - 1, line.len() as int);
        let front = tiles_in_rows(g, upto - 1);
        let back = tiles_in_line(line, upto - 1, line.len() as int);
        assert(tiles_in_rows(g, upto) == front + back);
        assert forall|i: int| 0 <= i < (front + back).len() implies {
            let t = #[trigger] (front + back)[i];
            &&& t.row < upto
            &&& in_grid(g, t.row as int, t.column as int)
            &&& tile_kind(g[t.row as int][t.column as int]) == Some(t.kind)
        } by {
            if i >= front.len() {
                assert((front + back)[i] == back[i - front.len()]);
            }
        }
        assert forall|i: int, j: int| 0 <= i < j < (front + back).len() implies {
            let a = #[trigger] (front + back)[i];
            let b = #[trigger] (front + back)[j];
            reads_before(a.row as int, a.column as int, b.row as int, b.column as int)
        } by {
            if j >= front.len() {
                assert((front + back)[j] == back[j - front.len()]);
                if i >= front.len() {
                    assert((front + back)[i] == back[i - front.len()]);
                } else {
                    assert((front + back)[i] == front[i]);
                }
            }
        }
    }
}

/// The tiles of a level stand on their own characters, inside the grid, in strict
/// reading order: each tile's cell holds the character of its kind, and no cell yields
/// two tiles.
pub proof fn tiles_stand_on_their_characters(g: Seq<Seq<char>>)
    requires
        grid_fits_usize(g),
    ensures
        forall|i: int|
            0 <= i < tiles_of(g).len() ==> {
                let t = #[trigger] tiles_of(g)[i];
                &&& in_grid(g, t.row as int, t.column as int)
                &&& tile_kind(g[t.row as int][t.column as int]) == Some(t.kind)
            },
        forall|i: int, j: int|
            0 <= i < j < tiles_of(g).len() ==> {
                let a = #[trigger] tiles_of(g)[i];
                let b = #[trigger] tiles_of(g)[j];
                reads_before(a.row as int, a.column as int, b.row as int, b.column as int)
            },
{
    rows_tiles_placed(g, g.len() as int);
}


/// A row of the art: 60 characters of the format, holding `spawns` of `P`, `goals` of
/// `F`, `coins` of `o`, `solids` of `#`, `one_ways` of `=` and `hazards` of `^`.
pub open spec fn row_facts(
    line: Seq<char>,
    spawns: nat,
    goals: nat,
    coins: nat,
    solids: nat,
    one_ways: nat,
    hazards: nat,
) -> bool {
    &&& line.len() == 60
    &&& known_from(line, 0)
    &&& count_in_line(line, 'P', 60) == spawns
    &&& count_in_line(line, 'F', 60) == goals
    &&& count_in_line(line, 'o', 60) == coins
    &&& count_in_line(line, '#', 60) == solids
    &&& count_in_line(line, '=', 60) == one_ways
    &&& count_in_line(line, '^', 60) == hazards
}

proof fn art_row_is_well_formed_00()
    ensures
        row_facts("............................................................"@, 0, 0, 0, 0, 0, 0),
{
    reveal_strlit("............................................................");
    let line = "............................................................"@;
    assert(line.len() == 60);
    assert(known_from(line, 0)) by {
        reveal_with_fuel(known_from, 61);
    }
    assert(count_in_line(line, 'P', 10) == 0) by {
        reveal_with_fuel(count_in_line, 11);
    }
    assert(count_in_line(line, 'P', 20) == 0) by {
        reveal_with_fuel(count_in_line, 11);
    }
    assert(count_in_line(line, 'P', 30) == 0) by {
        reveal_with_fuel(count_in_line, 11);
    }
    assert(count_in_line(line, 'P', 40) == 0) by {
        reveal_with_fuel(count_in_line, 11);
    }
    assert(count_in_line(line, 'P', 50) == 0) by {
        reveal_with_fuel(count_in_line, 11);
    }
    assert(count_in_line(line, 'P', 60) == 0) by {
        reveal_with_fuel(count_in_line, 11);
    }
    assert(count_in_line(line, 'F', 10) == 0) by {
        reveal_with_fuel(count_in_line, 11);
    }
    assert(count_in_line(line, 'F', 20) == 0) by {
        reveal_with_fuel(count_in_line, 11);
    }
    assert(count_in_line(line, 'F', 30) == 0) by {
        reveal_with_fuel(count_in_line, 11);
    }
    assert(count_in_line(line, 'F', 40) == 0) by {
        reveal_with_fuel(count_in_line, 11);
    }
    assert(count_in_line(line, 'F', 50) == 0) by {
        reveal_with_fuel(count_in_line, 11);
    }
    assert(count_in_line(line, 'F', 60) == 0) by {
        reveal_with_fuel(count_in_line, 11);
    }
    assert(count_in_line(line, 'o', 10) == 0) by {
        reveal_with_fuel(count_in_line, 11);
    }
    assert(count_in_line(line, 'o', 20) == 0) by {
        reveal_with_fuel(count_in_line, 11);
    }
    assert(count_in_line(line, 'o', 30) == 0) by {
        reveal_with_fuel(count_in_line, 11);
    }
    assert(count_in_line(line, 'o', 40) == 0) by {
        reveal_with_fuel(count_in_line, 11);
    }
    assert(count_in_line(line, 'o', 50) == 0) by {
        reveal_with_fuel(count_in_line, 11);
    }
    assert(count_in_line(line, 'o', 60) == 0) by {
        reveal_with_fuel(count_in_line, 11);
    }
    assert(count_in_line(line, '#', 10) == 0) by {
        reveal_with_fuel(count_in_line, 11);
    }
    assert(count_in_line(line, '#', 20) == 0) by {
        reveal_with_fuel(count_in_line, 11);
    }
    assert(count_in_line(line, '#', 30) == 0) by {
        reveal_with_fuel(count_in_line, 11);
    }
    assert(count_in_line(line, '#', 40) == 0) by {
        reveal_with_fuel(count_in_line, 11);
    }
    assert(count_in_line(line, '#', 50) == 0) by {
        reveal_with_fuel(count_in_line, 11);
    }
    assert(count_in_line(line, '#', 60) == 0) by {
        reveal_with_fuel(count_in_line, 11);
    }
    assert(count_in_line(line, '=', 10) == 0) by {
        reveal_with_fuel(count_in_line, 11);
    }
    assert(count_in_line(line, '=', 20) == 0) by {
        reveal_with_fuel(count_in_line, 11);
    }
    assert(count_in_line(line, '=', 30) == 0) by {
        reveal_with_fuel(count_in_line, 11);
    }
    assert(count_in_line(line, '=', 40) == 0) by {
        reveal_with_fuel(count_in_line, 11);
    }
    assert(count_in_line(line, '=', 50) == 0) by {
        reveal_with_fuel(count_in_line, 11);
    }
    assert(count_in_line(line, '=', 60) == 0) by {
        reveal_with_fuel(count_in_line, 11);
    }
    assert(count_in_line(line, '^', 10) == 0) by {
        reveal_with_fuel(count_in_line, 11);
    }
    assert(count_in_line(line, '^', 20) == 0) by {
        reveal_with_fuel(count_in_line, 11);
    }
    assert(count_in_line(line, '^', 30) == 0) by {
        reveal_with_fuel(count_in_line, 11);
    }
    assert(count_in_line(line, '^', 40) == 0) by {
        reveal_with_fuel(count_in_line, 11);
    }
    assert(count_in_line(line, '^', 50) == 0) by {
        reveal_with_fuel(count_in_line, 11);
    }
    assert(count_in_line(line, '^', 60) == 0) by {
        reveal_with_fuel(count_in_line, 11);
    }
}

proof fn art_row_is_well_formed_01()
    ensures
        row_facts("............................................................"@, 0, 0, 0, 0, 0, 0),
{
    reveal_strlit("............................................................");
    let line = "............................................................"@;
    assert(line.len() == 60);
    assert(known_from(line, 0)) by {
        reveal_with_fuel(known_from, 61);
    }
    assert(count_in_line(line, 'P', 10) == 0) by {
        reveal_with_fuel(count_in_line, 11);
    }
    assert(count_in_line(line, 'P', 20) == 0) by {
        reveal_with_fuel(count_in_line, 11);
    }
    assert(count_in_line(line, 'P', 30) == 0) by {
        reveal_with_fuel(count_in_line, 11);
    }
    assert(count_in_line(line, 'P', 40) == 0) by {
        reveal_with_fuel(count_in_line, 11);
    }
    assert(count_in_line(line, 'P', 50) == 0) by {
        reveal_with_fuel(count_in_line, 11);
    }
    assert(count_in_line(line, 'P', 60) == 0) by {
        reveal_with_fuel(count_in_line, 11);
    }
    assert(count_in_line(line, 'F', 10) == 0) by {
        reveal_with_fuel(count_in_line, 11);
    }
    assert(count_in_line(line, 'F', 20) == 0) by {
        reveal_with_fuel(count_in_line, 11);
    }
    assert(count_in_line(line, 'F', 30) == 0) by {
        reveal_with_fuel(count_in_line, 11);
    }
    assert(count_in_line(line, 'F', 40) == 0) by {
        reveal_with_fuel(count_in_line, 11);
    }
    assert(count_in_line(line, 'F', 50) == 0) by {
        reveal_with_fuel(count_in_line, 11);
    }
    assert(count_in_line(line, 'F', 60) == 0) by {
        reveal_with_fuel(count_in_line, 11);
    }
    assert(count_in_line(line, 'o', 10) == 0) by {
        reveal_with_fuel(count_in_line, 11);
    }
    assert(count_in_line(line, 'o', 20) == 0) by {
        reveal_with_fuel(count_in_line, 11);
    }
    assert(count_in_line(line, 'o', 30) == 0) by {
        reveal_with_fuel(count_in_line, 11);
    }
    assert(count_in_line(line, 'o', 40) == 0) by {
        reveal_with_fuel(count_in_line, 11);
    }
    assert(count_in_line(line, 'o', 50) == 0) by {
        reveal_with_fuel(count_in_line, 11);
    }
    assert(count_in_line(line, 'o', 60) == 0) by {
        reveal_with_fuel(count_in_line, 11);
    }
    assert(count_in_line(line, '#', 10) == 0) by {
        reveal_with_fuel(count_in_line, 11);
    }
    assert(count_in_line(line, '#', 20) == 0) by {
        reveal_with_fuel(count_in_line, 11);
    }
    assert(count_in_line(line, '#', 30) == 0) by {
        reveal_with_fuel(count_in_line, 11);
    }
    assert(count_in_line(line, '#', 40) == 0) by {
        reveal_with_fuel(count_in_line, 11);
    }
    assert(count_in_line(line, '#', 50) == 0) by {
        reveal_with_fuel(count_in_line, 11);
    }
    assert(count_in_line(line, '#', 60) == 0) by {
        reveal_with_fuel(count_in_line, 11);
    }
    assert(count_in_line(line, '=', 10) == 0) by {
        reveal_with_fuel(count_in_line, 11);
    }
    assert(count_in_line(line, '=', 20) == 0) by {
        reveal_with_fuel(count_in_line, 11);
    }
    assert(count_in_line(line, '=', 30) == 0) by {
        reveal_with_fuel(count_in_line, 11);
    }
    assert(count_in_line(line, '=', 40) == 0) by {
        reveal_with_fuel(count_in_line, 11);
    }
    assert(count_in_line(line, '=', 50) == 0) by {
        reveal_with_fuel(count_in_line, 11);
    }
    assert(count_in_line(line, '=', 60) == 0) by {
        reveal_with_fuel(count_in_line, 11);
    }
    assert(count_in_line(line, '^', 10) == 0) by {
        reveal_with_fuel(count_in_line, 11);
    }
    assert(count_in_line(line, '^', 20) == 0) by {
        reveal_with_fuel(count_in_line, 11);
    }
    assert(count_in_line(line, '^', 30) == 0) by {
        reveal_with_fuel(count_in_line, 11);
    }
    assert(count_in_line(line, '^', 40) == 0) by {
        reveal_with_fuel(count_in_line, 11);
    }
    assert(count_in_line(line, '^', 50) == 0) by {
        reveal_with_fuel(count_in_line, 11);
    }
    assert(count_in_line(line, '^', 60) == 0) by {
        reveal_with_fuel(count_in_line, 11);
    }
}

proof fn art_row_is_well_formed_02()
    ensures
        row_facts("........................................................F..."@, 0, 1, 0, 0, 0, 0),
{
    reveal_strlit("........................................................F...");
    let line = "........................................................F..."@;
    assert(line.len() == 60);
    assert(known_from(line, 0)) by {
        reveal_with_fuel(known_from, 61);
    }
    assert(count_in_line(line, 'P', 10) == 0) by {
        reveal_with_fuel(count_in_line, 11);
    }
    assert(count_in_line(line, 'P', 20) == 0) by {
        reveal_with_fuel(count_in_line, 11);
    }
    assert(count_in_line(line, 'P', 30) == 0) by {
        reveal_with_fuel(count_in_line, 11);
    }
    assert(count_in_line(line, 'P', 40) == 0) by {
        reveal_with_fuel(count_in_line, 11);
    }
    assert(count_in_line(line, 'P', 50) == 0) by {
        reveal_with_fuel(count_in_line, 11);
    }
    assert(count_in_line(line, 'P', 60) == 0) by {
        reveal_with_fuel(count_in_line, 11);
    }
    assert(count_in_line(line, 'F', 10) == 0) by {
        reveal_with_fuel(count_in_line, 11);
    }
    assert(count_in_line(line, 'F', 20) == 0) by {
        reveal_with_fuel(count_in_line, 11);
    }
    assert(count_in_line(line, 'F', 30) == 0) by {
        reveal_with_fuel(count_in_line, 11);
    }
    assert(count_in_line(line, 'F', 40) == 0) by {
        reveal_with_fuel(count_in_line, 11);
    }
    assert(count_in_line(line, 'F', 50) == 0) by {
        reveal_with_fuel(count_in_line, 11);
    }
    assert(count_in_line(line, 'F', 60) == 1) by {
        reveal_with_fuel(count_in_line, 11);
    }
    assert(count_in_line(line, 'o', 10) == 0) by {
        reveal_with_fuel(count_in_line, 11);
    }
    assert(count_in_line(line, 'o', 20) == 0) by {
        reveal_with_fuel(count_in_line, 11);
    }
    assert(count_in_line(line, 'o', 30) == 0) by {
        reveal_with_fuel(count_in_line, 11);
    }
    assert(count_in_line(line, 'o', 40) == 0) by {
        reveal_with_fuel(count_in_line, 11);
    }
    assert(count_in_line(line, 'o', 50) == 0) by {
        reveal_with_fuel(count_in_line, 11);
    }
    assert(count_in_line(line, 'o', 60) == 0) by {
        reveal_with_fuel(count_in_line, 11);
    }
    assert(count_in_line(line, '#', 10) == 0) by {
        reveal_with_fuel(count_in_line, 11);
    }
    assert(count_in_line(line, '#', 20) == 0) by {
        reveal_with_fuel(count_in_line, 11);
    }
    assert(count_in_line(line, '#', 30) == 0) by {
        reveal_with_fuel(count_in_line, 11);
    }
    assert(count_in_line(line, '#', 40) == 0) by {
        reveal_with_fuel(count_in_line, 11);
    }
    assert(count_in_line(line, '#', 50) == 0) by {
        reveal_with_fuel(count_in_line, 11);
    }
    assert(count_in_line(line, '#', 60) == 0) by {
        reveal_with_fuel(count_in_line, 11);
    }
    assert(count_in_line(line, '=', 10) == 0) by {
        reveal_with_fuel(count_in_line, 11);
    }
    assert(count_in_line(line, '=', 20) == 0) by {
        reveal_with_fuel(count_in_line, 11);
    }
    assert(count_in_line(line, '=', 30) == 0) by {
        reveal_with_fuel(count_in_line, 11);
    }
    assert(count_in_line(line, '=', 40) == 0) by {
        reveal_with_fuel(count_in_line, 11);
    }
    assert(count_in_line(line, '=', 50) == 0) by {
        reveal_with_fuel(count_in_line, 11);
    }
    assert(count_in_line(line, '=', 60) == 0) by {
        reveal_with_fuel(count_in_line, 11);
    }
    assert(count_in_line(line, '^', 10) == 0) by {
        reveal_with_fuel(count_in_line, 11);
    }
    assert(count_in_line(line, '^', 20) == 0) by {
        reveal_with_fuel(count_in_line, 11);
    }
    assert(count_in_line(line, '^', 30) == 0) by {
        reveal_with_fuel(count_in_line, 11);
    }
    assert(count_in_line(line, '^', 40) == 0) by {
        reveal_with_fuel(count_in_line, 11);
    }
    assert(count_in_line(line, '^', 50) == 0) by {
        reveal_with_fuel(count_in_line, 11);
    }
    assert(count_in_line(line, '^', 60) == 0) by {
        reveal_with_fuel(count_in_line, 11);
    }
}

proof fn art_row_is_well_formed_03()
    ensures
        row_facts("......................................................====.."@, 0, 0, 0, 0, 4, 0),
{
    reveal_strlit("......................................................====..");
    let line = "......................................................====.."@;
    assert(line.len() == 60);
    assert(known_from(line, 0)) by {
        reveal_with_fuel(known_from, 61);
    }
    assert(count_in_line(line, 'P', 10) == 0) by {
        reveal_with_fuel(count_in_line, 11);
    }
    assert(count_in_line(line, 'P', 20) == 0) by {
        reveal_with_fuel(count_in_line, 11);
    }
    assert(count_in_line(line, 'P', 30) == 0) by {
        reveal_with_fuel(count_in_line, 11);
    }
    assert(count_in_line(line, 'P', 40) == 0) by {
        reveal_with_fuel(count_in_line, 11);
    }
    assert(count_in_line(line, 'P', 50) == 0) by {
        reveal_with_fuel(count_in_line, 11);
    }
    assert(count_in_line(line, 'P', 60) == 0) by {
        reveal_with_fuel(count_in_line, 11);
    }
    assert(count_in_line(line, 'F', 10) == 0) by {
        reveal_with_fuel(count_in_line, 11);
    }
    assert(count_in_line(line, 'F', 20) == 0) by {
        reveal_with_fuel(count_in_line, 11);
    }
    assert(count_in_line(line, 'F', 30) == 0) by {
        reveal_with_fuel(count_in_line, 11);
    }
    assert(count_in_line(line, 'F', 40) == 0) by {
        reveal_with_fuel(count_in_line, 11);
    }
    assert(count_in_line(line, 'F', 50) == 0) by {
        reveal_with_fuel(count_in_line, 11);
    }
    assert(count_in_line(line, 'F', 60) == 0) by {
        reveal_with_fuel(count_in_line, 11);
    }
    assert(count_in_line(line, 'o', 10) == 0) by {
        reveal_with_fuel(count_in_line, 11);
    }
    assert(count_in_line(line, 'o', 20) == 0) by {
        reveal_with_fuel(count_in_line, 11);
    }
    assert(count_in_line(line, 'o', 30) == 0) by {
        reveal_with_fuel(count_in_line, 11);
    }
    assert(count_in_line(line, 'o', 40) == 0) by {
        reveal_with_fuel(count_in_line, 11);
    }
    assert(count_in_line(line, 'o', 50) == 0) by {
        reveal_with_fuel(count_in_line, 11);
    }
    assert(count_in_line(line, 'o', 60) == 0) by {
        reveal_with_fuel(count_in_line, 11);
    }
    assert(count_in_line(line, '#', 10) == 0) by {
        reveal_with_fuel(count_in_line, 11);
    }
    assert(count_in_line(line, '#', 20) == 0) by {
        reveal_with_fuel(count_in_line, 11);
    }
    assert(count_in_line(line, '#', 30) == 0) by {
        reveal_with_fuel(count_in_line, 11);
    }
    assert(count_in_line(line, '#', 40) == 0) by {
        reveal_with_fuel(count_in_line, 11);
    }
    assert(count_in_line(line, '#', 50) == 0) by {
        reveal_with_fuel(count_in_line, 11);
    }
    assert(count_in_line(line, '#', 60) == 0) by {
        reveal_with_fuel(count_in_line, 11);
    }
    assert(count_in_line(line, '=', 10) == 0) by {
        reveal_with_fuel(count_in_line, 11);
    }
    assert(count_in_line(line, '=', 20) == 0) by {
        reveal_with_fuel(count_in_line, 11);
    }
    assert(count_in_line(line, '=', 30) == 0) by {
        reveal_with_fuel(count_in_line, 11);
    }
    assert(count_in_line(line, '=', 40) == 0) by {
        reveal_with_fuel(count_in_line, 11);
    }
    assert(count_in_line(line, '=', 50) == 0) by {
        reveal_with_fuel(count_in_line, 11);
    }
    assert(count_in_line(line, '=', 60) == 4) by {
        reveal_with_fuel(count_in_line, 11);
    }
    assert(count_in_line(line, '^', 10) == 0) by {
        reveal_with_fuel(count_in_line, 11);
    }
    assert(count_in_line(line, '^', 20) == 0) by {
        reveal_with_fuel(count_in_line, 11);
    }
    assert(count_in_line(line, '^', 30) == 0) by {
        reveal_with_fuel(count_in_line, 11);
    }
    assert(count_in_line(line, '^', 40) == 0) by {
        reveal_with_fuel(count_in_line, 11);
    }
    assert(count_in_line(line, '^', 50) == 0) by {
        reveal_with_fuel(count_in_line, 11);
    }
    assert(count_in_line(line, '^', 60) == 0) by {
        reveal_with_fuel(count_in_line, 11);
    }
}

proof fn art_row_is_well_formed_04()
    ensures
        row_facts(".....................................................o......"@, 0, 0, 1, 0, 0, 0),
{
    reveal_strlit(".....................................................o......");
    let line = ".....................................................o......"@;
    assert(line.len() == 60);
    assert(known_from(line, 0)) by {
        reveal_with_fuel(known_from, 61);
    }
    assert(count_in_line(line, 'P', 10) == 0) by {
        reveal_with_fuel(count_in_line, 11);
    }
    assert(count_in_line(line, 'P', 20) == 0) by {
        reveal_with_fuel(count_in_line, 11);
    }
    assert(count_in_line(line, 'P', 30) == 0) by {
        reveal_with_fuel(count_in_line, 11);
    }
    assert(count_in_line(line, 'P', 40) == 0) by {
        reveal_with_fuel(count_in_line, 11);
    }
    assert(count_in_line(line, 'P', 50) == 0) by {
        reveal_with_fuel(count_in_line, 11);
    }
    assert(count_in_line(line, 'P', 60) == 0) by {
        reveal_with_fuel(count_in_line, 11);
    }
    assert(count_in_line(line, 'F', 10) == 0) by {
        reveal_with_fuel(count_in_line, 11);
    }
    assert(count_in_line(line, 'F', 20) == 0) by {
        reveal_with_fuel(count_in_line, 11);
    }
    assert(count_in_line(line, 'F', 30) == 0) by {
        reveal_with_fuel(count_in_line, 11);
    }
    assert(count_in_line(line, 'F', 40) == 0) by {
        reveal_with_fuel(count_in_line, 11);
    }
    assert(count_in_line(line, 'F', 50) == 0) by {
        reveal_with_fuel(count_in_line, 11);
    }
    assert(count_in_line(line, 'F', 60) == 0) by {
        reveal_with_fuel(count_in_line, 11);
    }
    assert(count_in_line(line, 'o', 10) == 0) by {
        reveal_with_fuel(count_in_line, 11);
    }
    assert(count_in_line(line, 'o', 20) == 0) by {
        reveal_with_fuel(count_in_line, 11);
    }
    assert(count_in_line(line, 'o', 30) == 0) by {
        reveal_with_fuel(count_in_line, 11);
    }
    assert(count_in_line(line, 'o', 40) == 0) by {
        reveal_with_fuel(count_in_line, 11);
    }
    assert(count_in_line(line, 'o', 50) == 0) by {
        reveal_with_fuel(count_in_line, 11);
    }
    assert(count_in_line(line, 'o', 60) == 1) by {
        reveal_with_fuel(count_in_line, 11);
    }
    assert(count_in_line(line, '#', 10) == 0) by {
        reveal_with_fuel(count_in_line, 11);
    }
    assert(count_in_line(line, '#', 20) == 0) by {
        reveal_with_fuel(count_in_line, 11);
    }
    assert(count_in_line(line, '#', 30) == 0) by {
        reveal_with_fuel(count_in_line, 11);
    }
    assert(count_in_line(line, '#', 40) == 0) by {
        reveal_with_fuel(count_in_line, 11);
    }
    assert(count_in_line(line, '#', 50) == 0) by {
        reveal_with_fuel(count_in_line, 11);
    }
    assert(count_in_line(line, '#', 60) == 0) by {
        reveal_with_fuel(count_in_line, 11);
    }
    assert(count_in_line(line, '=', 10) == 0) by {
        reveal_with_fuel(count_in_line, 11);
    }
    assert(count_in_line(line, '=', 20) == 0) by {
        reveal_with_fuel(count_in_line, 11);
    }
    assert(count_in_line(line, '=', 30) == 0) by {
        reveal_with_fuel(count_in_line, 11);
    }
    assert(count_in_line(line, '=', 40) == 0) by {
        reveal_with_fuel(count_in_line, 11);
    }
    assert(count_in_line(line, '=', 50) == 0) by {
        reveal_with_fuel(count_in_line, 11);
    }
    assert(count_in_line(line, '=', 60) == 0) by {
        reveal_with_fuel(count_in_line, 11);
    }
    assert(count_in_line(line, '^', 10) == 0) by {
        reveal_with_fuel(count_in_line, 11);
    }
    assert(count_in_line(line, '^', 20) == 0) by {
        reveal_with_fuel(count_in_line, 11);
    }
    assert(count_in_line(line, '^', 30) == 0) by {
        reveal_with_fuel(count_in_line, 11);
    }
    assert(count_in_line(line, '^', 40) == 0) by {
        reveal_with_fuel(count_in_line, 11);
    }
    assert(count_in_line(line, '^', 50) == 0) by {
        reveal_with_fuel(count_in_line, 11);
    }
    assert(count_in_line(line, '^', 60) == 0) by {
        reveal_with_fuel(count_in_line, 11);
    }
}

proof fn art_row_is_well_formed_05()
    ensures
        row_facts(".....................................................######."@, 0, 0, 0, 6, 0, 0),
{
    reveal_strlit(".....................................................######.");
    let line = ".....................................................######."@;
    assert(line.len() == 60);
    assert(known_from(line, 0)) by {
        reveal_with_fuel(known_from, 61);
    }
    assert(count_in_line(line, 'P', 10) == 0) by {
        reveal_with_fuel(count_in_line, 11);
    }
    assert(count_in_line(line, 'P', 20) == 0) by {
        reveal_with_fuel(count_in_line, 11);
    }
    assert(count_in_line(line, 'P', 30) == 0) by {
        reveal_with_fuel(count_in_line, 11);
    }
    assert(count_in_line(line, 'P', 40) == 0) by {
        reveal_with_fuel(count_in_line, 11);
    }
    assert(count_in_line(line, 'P', 50) == 0) by {
        reveal_with_fuel(count_in_line, 11);
    }
    assert(count_in_line(line, 'P', 60) == 0) by {
        reveal_with_fuel(count_in_line, 11);
    }
    assert(count_in_line(line, 'F', 10) == 0) by {
        reveal_with_fuel(count_in_line, 11);
    }
    assert(count_in_line(line, 'F', 20) == 0) by {
        reveal_with_fuel(count_in_line, 11);
    }
    assert(count_in_line(line, 'F', 30) == 0) by {
        reveal_with_fuel(count_in_line, 11);
    }
    assert(count_in_line(line, 'F', 40) == 0) by {
        reveal_with_fuel(count_in_line, 11);
    }
    assert(count_in_line(line, 'F', 50) == 0) by {
        reveal_with_fuel(count_in_line, 11);
    }
    assert(count_in_line(line, 'F', 60) == 0) by {
        reveal_with_fuel(count_in_line, 11);
    }
    assert(count_in_line(line, 'o', 10) == 0) by {
        reveal_with_fuel(count_in_line, 11);
    }
    assert(count_in_line(line, 'o', 20) == 0) by {
        reveal_with_fuel(count_in_line, 11);
    }
    assert(count_in_line(line, 'o', 30) == 0) by {
        reveal_with_fuel(count_in_line, 11);
    }
    assert(count_in_line(line, 'o', 40) == 0) by {
        reveal_with_fuel(count_in_line, 11);
    }
    assert(count_in_line(line, 'o', 50) == 0) by {
        reveal_with_fuel(count_in_line, 11);
    }
    assert(count_in_line(line, 'o', 60) == 0) by {
        reveal_with_fuel(count_in_line, 11);
    }
    assert(count_in_line(line, '#', 10) == 0) by {
        reveal_with_fuel(count_in_line, 11);
    }
    assert(count_in_line(line, '#', 20) == 0) by {
        reveal_with_fuel(count_in_line, 11);
    }
    assert(count_in_line(line, '#', 30) == 0) by {
        reveal_with_fuel(count_in_line, 11);
    }
    assert(count_in_line(line, '#', 40) == 0) by {
        reveal_with_fuel(count_in_line, 11);
    }
    assert(count_in_line(line, '#', 50) == 0) by {
        reveal_with_fuel(count_in_line, 11);
    }
    assert(count_in_line(line, '#', 60) == 6) by {
        reveal_with_fuel(count_in_line, 11);
    }
    assert(count_in_line(line, '=', 10) == 0) by {
        reveal_with_fuel(count_in_line, 11);
    }
    assert(count_in_line(line, '=', 20) == 0) by {
        reveal_with_fuel(count_in_line, 11);
    }
    assert(count_in_line(line, '=', 30) == 0) by {
        reveal_with_fuel(count_in_line, 11);
    }
    assert(count_in_line(line, '=', 40) == 0) by {
        reveal_with_fuel(count_in_line, 11);
    }
    assert(count_in_line(line, '=', 50) == 0) by {
        reveal_with_fuel(count_in_line, 11);
    }
    assert(count_in_line(line, '=', 60) == 0) by {
        reveal_with_fuel(count_in_line, 11);
    }
    assert(count_in_line(line, '^', 10) == 0) by {
        reveal_with_fuel(count_in_line, 11);
    }
    assert(count_in_line(line, '^', 20) == 0) by {
        reveal_with_fuel(count_in_line, 11);
    }
    assert(count_in_line(line, '^', 30) == 0) by {
        reveal_with_fuel(count_in_line, 11);
    }
    assert(count_in_line(line, '^', 40) == 0) by {
        reveal_with_fuel(count_in_line, 11);
    }
    assert(count_in_line(line, '^', 50) == 0) by {
        reveal_with_fuel(count_in_line, 11);
    }
    assert(count_in_line(line, '^', 60) == 0) by {
        reveal_with_fuel(count_in_line, 11);
    }
}

proof fn art_row_is_well_formed_06()
    ensures
        row_facts("............................................................"@, 0, 0, 0, 0, 0, 0),
{
    reveal_strlit("............................................................");
    let line = "............................................................"@;
    assert(line.len() == 60);
    assert(known_from(line, 0)) by {
        reveal_with_fuel(known_from, 61);
    }
    assert(count_in_line(line, 'P', 10) == 0) by {
        reveal_with_fuel(count_in_line, 11);
    }
    assert(count_in_line(line, 'P', 20) == 0) by {
        reveal_with_fuel(count_in_line, 11);
    }
    assert(count_in_line(line, 'P', 30) == 0) by {
        reveal_with_fuel(count_in_line, 11);
    }
    assert(count_in_line(line, 'P', 40) == 0) by {
        reveal_with_fuel(count_in_line, 11);
    }
    assert(count_in_line(line, 'P', 50) == 0) by {
        reveal_with_fuel(count_in_line, 11);
    }
    assert(count_in_line(line, 'P', 60) == 0) by {
        reveal_with_fuel(count_in_line, 11);
    }
    assert(count_in_line(line, 'F', 10) == 0) by {
        reveal_with_fuel(count_in_line, 11);
    }
    assert(count_in_line(line, 'F', 20) == 0) by {
        reveal_with_fuel(count_in_line, 11);
    }
    assert(count_in_line(line, 'F', 30) == 0) by {
        reveal_with_fuel(count_in_line, 11);
    }
    assert(count_in_line(line, 'F', 40) == 0) by {
        reveal_with_fuel(count_in_line, 11);
    }
    assert(count_in_line(line, 'F', 50) == 0) by {
        reveal_with_fuel(count_in_line, 11);
    }
    assert(count_in_line(line, 'F', 60) == 0) by {
        reveal_with_fuel(count_in_line, 11);
    }
    assert(count_in_line(line, 'o', 10) == 0) by {
        reveal_with_fuel(count_in_line, 11);
    }
    assert(count_in_line(line, 'o', 20) == 0) by {
        reveal_with_fuel(count_in_line, 11);
    }
    assert(count_in_line(line, 'o', 30) == 0) by {
        reveal_with_fuel(count_in_line, 11);
    }
    assert(count_in_line(line, 'o', 40) == 0) by {
        reveal_with_fuel(count_in_line, 11);
    }
    assert(count_in_line(line, 'o', 50) == 0) by {
        reveal_with_fuel(count_in_line, 11);
    }
    assert(count_in_line(line, 'o', 60) == 0) by {
        reveal_with_fuel(count_in_line, 11);
    }
    assert(count_in_line(line, '#', 10) == 0) by {
        reveal_with_fuel(count_in_line, 11);
    }
    assert(count_in_line(line, '#', 20) == 0) by {
        reveal_with_fuel(count_in_line, 11);
    }
    assert(count_in_line(line, '#', 30) == 0) by {
        reveal_with_fuel(count_in_line, 11);
    }
    assert(count_in_line(line, '#', 40) == 0) by {
        reveal_with_fuel(count_in_line, 11);
    }
    assert(count_in_line(line, '#', 50) == 0) by {
        reveal_with_fuel(count_in_line, 11);
    }
    assert(count_in_line(line, '#', 60) == 0) by {
        reveal_with_fuel(count_in_line, 11);
    }
    assert(count_in_line(line, '=', 10) == 0) by {
        reveal_with_fuel(count_in_line, 11);
    }
    assert(count_in_line(line, '=', 20) == 0) by {
        reveal_with_fuel(count_in_line, 11);
    }
    assert(count_in_line(line, '=', 30) == 0) by {
        reveal_with_fuel(count_in_line, 11);
    }
    assert(count_in_line(line, '=', 40) == 0) by {
        reveal_with_fuel(count_in_line, 11);
    }
    assert(count_in_line(line, '=', 50) == 0) by {
        reveal_with_fuel(count_in_line, 11);
    }
    assert(count_in_line(line, '=', 60) == 0) by {
        reveal_with_fuel(count_in_line, 11);
    }
    assert(count_in_line(line, '^', 10) == 0) by {
        reveal_with_fuel(count_in_line, 11);
    }
    assert(count_in_line(line, '^', 20) == 0) by {
        reveal_with_fuel(count_in_line, 11);
    }
    assert(count_in_line(line, '^', 30) == 0) by {
        reveal_with_fuel(count_in_line, 11);
    }
    assert(count_in_line(line, '^', 40) == 0) by {
        reveal_with_fuel(count_in_line, 11);
    }
    assert(count_in_line(line, '^', 50) == 0) by {
        reveal_with_fuel(count_in_line, 11);
    }
    assert(count_in_line(line, '^', 60) == 0) by {
        reveal_with_fuel(count_in_line, 11);
    }
}

proof fn art_row_is_well_formed_07()
    ensures
        row_facts("..................................................o........."@, 0, 0, 1, 0, 0, 0),
{
    reveal_strlit("..................................................o.........");
    let line = "..................................................o........."@;
    assert(line.len() == 60);
    assert(known_from(line, 0)) by {
        reveal_with_fuel(known_from, 61);
    }
    assert(count_in_line(line, 'P', 10) == 0) by {
        reveal_with_fuel(count_in_line, 11);
    }
    assert(count_in_line(line, 'P', 20) == 0) by {
        reveal_with_fuel(count_in_line, 11);
    }
    assert(count_in_line(line, 'P', 30) == 0) by {
        reveal_with_fuel(count_in_line, 11);
    }
    assert(count_in_line(line, 'P', 40) == 0) by {
        reveal_with_fuel(count_in_line, 11);
    }
    assert(count_in_line(line, 'P', 50) == 0) by {
        reveal_with_fuel(count_in_line, 11);
    }
    assert(count_in_line(line, 'P', 60) == 0) by {
        reveal_with_fuel(count_in_line, 11);
    }
    assert(count_in_line(line, 'F', 10) == 0) by {
        reveal_with_fuel(count_in_line, 11);
    }
    assert(count_in_line(line, 'F', 20) == 0) by {
        reveal_with_fuel(count_in_line, 11);
    }
    assert(count_in_line(line, 'F', 30) == 0) by {
        reveal_with_fuel(count_in_line, 11);
    }
    assert(count_in_line(line, 'F', 40) == 0) by {
        reveal_with_fuel(count_in_line, 11);
    }
    assert(count_in_line(line, 'F', 50) == 0) by {
        reveal_with_fuel(count_in_line, 11);
    }
    assert(count_in_line(line, 'F', 60) == 0) by {
        reveal_with_fuel(count_in_line, 11);
    }
    assert(count_in_line(line, 'o', 10) == 0) by {
        reveal_with_fuel(count_in_line, 11);
    }
    assert(count_in_line(line, 'o', 20) == 0) by {
        reveal_with_fuel(count_in_line, 11);
    }
    assert(count_in_line(line, 'o', 30) == 0) by {
        reveal_with_fuel(count_in_line, 11);
    }
    assert(count_in_line(line, 'o', 40) == 0) by {
        reveal_with_fuel(count_in_line, 11);
    }
    assert(count_in_line(line, 'o', 50) == 0) by {
        reveal_with_fuel(count_in_line, 11);
    }
    assert(count_in_line(line, 'o', 60) == 1) by {
        reveal_with_fuel(count_in_line, 11);
    }
    assert(count_in_line(line, '#', 10) == 0) by {
        reveal_with_fuel(count_in_line, 11);
    }
    assert(count_in_line(line, '#', 20) == 0) by {
        reveal_with_fuel(count_in_line, 11);
    }
    assert(count_in_line(line, '#', 30) == 0) by {
        reveal_with_fuel(count_in_line, 11);
    }
    assert(count_in_line(line, '#', 40) == 0) by {
        reveal_with_fuel(count_in_line, 11);
    }
    assert(count_in_line(line, '#', 50) == 0) by {
        reveal_with_fuel(count_in_line, 11);
    }
    assert(count_in_line(line, '#', 60) == 0) by {
        reveal_with_fuel(count_in_line, 11);
    }
    assert(count_in_line(line, '=', 10) == 0) by {
        reveal_with_fuel(count_in_line, 11);
    }
    assert(count_in_line(line, '=', 20) == 0) by {
        reveal_with_fuel(count_in_line, 11);
    }
    assert(count_in_line(line, '=', 30) == 0) by {
        reveal_with_fuel(count_in_line, 11);
    }
    assert(count_in_line(line, '=', 40) == 0) by {
        reveal_with_fuel(count_in_line, 11);
    }
    assert(count_in_line(line, '=', 50) == 0) by {
        reveal_with_fuel(count_in_line, 11);
    }
    assert(count_in_line(line, '=', 60) == 0) by {
        reveal_with_fuel(count_in_line, 11);
    }
    assert(count_in_line(line, '^', 10) == 0) by {
        reveal_with_fuel(count_in_line, 11);
    }
    assert(count_in_line(line, '^', 20) == 0) by {
        reveal_with_fuel(count_in_line, 11);
    }
    assert(count_in_line(line, '^', 30) == 0) by {
        reveal_with_fuel(count_in_line, 11);
    }
    assert(count_in_line(line, '^', 40) == 0) by {
        reveal_with_fuel(count_in_line, 11);
    }
    assert(count_in_line(line, '^', 50) == 0) by {
        reveal_with_fuel(count_in_line, 11);
    }
    assert(count_in_line(line, '^', 60) == 0) by {
        reveal_with_fuel(count_in_line, 11);
    }
}

proof fn art_row_is_well_formed_08()
    ensures
        row_facts("............................................................"@, 0, 0, 0, 0, 0, 0),
{
    reveal_strlit("............................................................");
    let line = "............................................................"@;
    assert(line.len() == 60);
    assert(known_from(line, 0)) by {
        reveal_with_fuel(known_from, 61);
    }
    assert(count_in_line(line, 'P', 10) == 0) by {
        reveal_with_fuel(count_in_line, 11);
    }
    assert(count_in_line(line, 'P', 20) == 0) by {
        reveal_with_fuel(count_in_line, 11);
    }
    assert(count_in_line(line, 'P', 30) == 0) by {
        reveal_with_fuel(count_in_line, 11);
    }
    assert(count_in_line(line, 'P', 40) == 0) by {
        reveal_with_fuel(count_in_line, 11);
    }
    assert(count_in_line(line, 'P', 50) == 0) by {
        reveal_with_fuel(count_in_line, 11);
    }
    assert(count_in_line(line, 'P', 60) == 0) by {
        reveal_with_fuel(count_in_line, 11);
    }
    assert(count_in_line(line, 'F', 10) == 0) by {
        reveal_with_fuel(count_in_line, 11);
    }
    assert(count_in_line(line, 'F', 20) == 0) by {
        reveal_with_fuel(count_in_line, 11);
    }
    assert(count_in_line(line, 'F', 30) == 0) by {
        reveal_with_fuel(count_in_line, 11);
    }
    assert(count_in_line(line, 'F', 40) == 0) by {
        reveal_with_fuel(count_in_line, 11);
    }
    assert(count_in_line(line, 'F', 50) == 0) by {
        reveal_with_fuel(count_in_line, 11);
    }
    assert(count_in_line(line, 'F', 60) == 0) by {
        reveal_with_fuel(count_in_line, 11);
    }
    assert(count_in_line(line, 'o', 10) == 0) by {
        reveal_with_fuel(count_in_line, 11);
    }
    assert(count_in_line(line, 'o', 20) == 0) by {
        reveal_with_fuel(count_in_line, 11);
    }
    assert(count_in_line(line, 'o', 30) == 0) by {
        reveal_with_fuel(count_in_line, 11);
    }
    assert(count_in_line(line, 'o', 40) == 0) by {
        reveal_with_fuel(count_in_line, 11);
    }
    assert(count_in_line(line, 'o', 50) == 0) by {
        reveal_with_fuel(count_in_line, 11);
    }
    assert(count_in_line(line, 'o', 60) == 0) by {
        reveal_with_fuel(count_in_line, 11);
    }
    assert(count_in_line(line, '#', 10) == 0) by {
        reveal_with_fuel(count_in_line, 11);
    }
    assert(count_in_line(line, '#', 20) == 0) by {
        reveal_with_fuel(count_in_line, 11);
    }
    assert(count_in_line(line, '#', 30) == 0) by {
        reveal_with_fuel(count_in_line, 11);
    }
    assert(count_in_line(line, '#', 40) == 0) by {
        reveal_with_fuel(count_in_line, 11);
    }
    assert(count_in_line(line, '#', 50) == 0) by {
        reveal_with_fuel(count_in_line, 11);
    }
    assert(count_in_line(line, '#', 60) == 0) by {
        reveal_with_fuel(count_in_line, 11);
    }
    assert(count_in_line(line, '=', 10) == 0) by {
        reveal_with_fuel(count_in_line, 11);
    }
    assert(count_in_line(line, '=', 20) == 0) by {
        reveal_with_fuel(count_in_line, 11);
    }
    assert(count_in_line(line, '=', 30) == 0) by {
        reveal_with_fuel(count_in_line, 11);
    }
    assert(count_in_line(line, '=', 40) == 0) by {
        reveal_with_fuel(count_in_line, 11);
    }
    assert(count_in_line(line, '=', 50) == 0) by {
        reveal_with_fuel(count_in_line, 11);
    }
    assert(count_in_line(line, '=', 60) == 0) by {
        reveal_with_fuel(count_in_line, 11);
    }
    assert(count_in_line(line, '^', 10) == 0) by {
        reveal_with_fuel(count_in_line, 11);
    }
    assert(count_in_line(line, '^', 20) == 0) by {
        reveal_with_fuel(count_in_line, 11);
    }
    assert(count_in_line(line, '^', 30) == 0) by {
        reveal_with_fuel(count_in_line, 11);
    }
    assert(count_in_line(line, '^', 40) == 0) by {
        reveal_with_fuel(count_in_line, 11);
    }
    assert(count_in_line(line, '^', 50) == 0) by {
        reveal_with_fuel(count_in_line, 11);
    }
    assert(count_in_line(line, '^', 60) == 0) by {
        reveal_with_fuel(count_in_line, 11);
    }
}

proof fn art_row_is_well_formed_09()
    ensures
        row_facts("......................oo...................................."@, 0, 0, 2, 0, 0, 0),
{
    reveal_strlit("......................oo....................................");
    let line = "......................oo...................................."@;
    assert(line.len() == 60);
    assert(known_from(line, 0)) by {
        reveal_with_fuel(known_from, 61);
    }
    assert(count_in_line(line, 'P', 10) == 0) by {
        reveal_with_fuel(count_in_line, 11);
    }
    assert(count_in_line(line, 'P', 20) == 0) by {
        reveal_with_fuel(count_in_line, 11);
    }
    assert(count_in_line(line, 'P', 30) == 0) by {
        reveal_with_fuel(count_in_line, 11);
    }
    assert(count_in_line(line, 'P', 40) == 0) by {
        reveal_with_fuel(count_in_line, 11);
    }
    assert(count_in_line(line, 'P', 50) == 0) by {
        reveal_with_fuel(count_in_line, 11);
    }
    assert(count_in_line(line, 'P', 60) == 0) by {
        reveal_with_fuel(count_in_line, 11);
    }
    assert(count_in_line(line, 'F', 10) == 0) by {
        reveal_with_fuel(count_in_line, 11);
    }
    assert(count_in_line(line, 'F', 20) == 0) by {
        reveal_with_fuel(count_in_line, 11);
    }
    assert(count_in_line(line, 'F', 30) == 0) by {
        reveal_with_fuel(count_in_line, 11);
    }
    assert(count_in_line(line, 'F', 40) == 0) by {
        reveal_with_fuel(count_in_line, 11);
    }
    assert(count_in_line(line, 'F', 50) == 0) by {
        reveal_with_fuel(count_in_line, 11);
    }
    assert(count_in_line(line, 'F', 60) == 0) by {
        reveal_with_fuel(count_in_line, 11);
    }
    assert(count_in_line(line, 'o', 10) == 0) by {
        reveal_with_fuel(count_in_line, 11);
    }
    assert(count_in_line(line, 'o', 20) == 0) by {
        reveal_with_fuel(count_in_line, 11);
    }
    assert(count_in_line(line, 'o', 30) == 2) by {
        reveal_with_fuel(count_in_line, 11);
    }
    assert(count_in_line(line, 'o', 40) == 2) by {
        reveal_with_fuel(count_in_line, 11);
    }
    assert(count_in_line(line, 'o', 50) == 2) by {
        reveal_with_fuel(count_in_line, 11);
    }
    assert(count_in_line(line, 'o', 60) == 2) by {
        reveal_with_fuel(count_in_line, 11);
    }
    assert(count_in_line(line, '#', 10) == 0) by {
        reveal_with_fuel(count_in_line, 11);
    }
    assert(count_in_line(line, '#', 20) == 0) by {
        reveal_with_fuel(count_in_line, 11);
    }
    assert(count_in_line(line, '#', 30) == 0) by {
        reveal_with_fuel(count_in_line, 11);
    }
    assert(count_in_line(line, '#', 40) == 0) by {
        reveal_with_fuel(count_in_line, 11);
    }
    assert(count_in_line(line, '#', 50) == 0) by {
        reveal_with_fuel(count_in_line, 11);
    }
    assert(count_in_line(line, '#', 60) == 0) by {
        reveal_with_fuel(count_in_line, 11);
    }
    assert(count_in_line(line, '=', 10) == 0) by {
        reveal_with_fuel(count_in_line, 11);
    }
    assert(count_in_line(line, '=', 20) == 0) by {
        reveal_with_fuel(count_in_line, 11);
    }
    assert(count_in_line(line, '=', 30) == 0) by {
        reveal_with_fuel(count_in_line, 11);
    }
    assert(count_in_line(line, '=', 40) == 0) by {
        reveal_with_fuel(count_in_line, 11);
    }
    assert(count_in_line(line, '=', 50) == 0) by {
        reveal_with_fuel(count_in_line, 11);
    }
    assert(count_in_line(line, '=', 60) == 0) by {
        reveal_with_fuel(count_in_line, 11);
    }
    assert(count_in_line(line, '^', 10) == 0) by {
        reveal_with_fuel(count_in_line, 11);
    }
    assert(count_in_line(line, '^', 20) == 0) by {
        reveal_with_fuel(count_in_line, 11);
    }
    assert(count_in_line(line, '^', 30) == 0) by {
        reveal_with_fuel(count_in_line, 11);
    }
    assert(count_in_line(line, '^', 40) == 0) by {
        reveal_with_fuel(count_in_line, 11);
    }
    assert(count_in_line(line, '^', 50) == 0) by {
        reveal_with_fuel(count_in_line, 11);
    }
    assert(count_in_line(line, '^', 60) == 0) by {
        reveal_with_fuel(count_in_line, 11);
    }
}

proof fn art_row_is_well_formed_10()
    ensures
        row_facts(".....................====..................................."@, 0, 0, 0, 0, 4, 0),
{
    reveal_strlit(".....................====...................................");
    let line = ".....................====..................................."@;
    assert(line.len() == 60);
    assert(known_from(line, 0)) by {
        reveal_with_fuel(known_from, 61);
    }
    assert(count_in_line(line, 'P', 10) == 0) by {
        reveal_with_fuel(count_in_line, 11);
    }
    assert(count_in_line(line, 'P', 20) == 0) by {
        reveal_with_fuel(count_in_line, 11);
    }
    assert(count_in_line(line, 'P', 30) == 0) by {
        reveal_with_fuel(count_in_line, 11);
    }
    assert(count_in_line(line, 'P', 40) == 0) by {
        reveal_with_fuel(count_in_line, 11);
    }
    assert(count_in_line(line, 'P', 50) == 0) by {
        reveal_with_fuel(count_in_line, 11);
    }
    assert(count_in_line(line, 'P', 60) == 0) by {
        reveal_with_fuel(count_in_line, 11);
    }
    assert(count_in_line(line, 'F', 10) == 0) by {
        reveal_with_fuel(count_in_line, 11);
    }
    assert(count_in_line(line, 'F', 20) == 0) by {
        reveal_with_fuel(count_in_line, 11);
    }
    assert(count_in_line(line, 'F', 30) == 0) by {
        reveal_with_fuel(count_in_line, 11);
    }
    assert(count_in_line(line, 'F', 40) == 0) by {
        reveal_with_fuel(count_in_line, 11);
    }
    assert(count_in_line(line, 'F', 50) == 0) by {
        reveal_with_fuel(count_in_line, 11);
    }
    assert(count_in_line(line, 'F', 60) == 0) by {
        reveal_with_fuel(count_in_line, 11);
    }
    assert(count_in_line(line, 'o', 10) == 0) by {
        reveal_with_fuel(count_in_line, 11);
    }
    assert(count_in_line(line, 'o', 20) == 0) by {
        reveal_with_fuel(count_in_line, 11);
    }
    assert(count_in_line(line, 'o', 30) == 0) by {
        reveal_with_fuel(count_in_line, 11);
    }
    assert(count_in_line(line, 'o', 40) == 0) by {
        reveal_with_fuel(count_in_line, 11);
    }
    assert(count_in_line(line, 'o', 50) == 0) by {
        reveal_with_fuel(count_in_line, 11);
    }
    assert(count_in_line(line, 'o', 60) == 0) by {
        reveal_with_fuel(count_in_line, 11);
    }
    assert(count_in_line(line, '#', 10) == 0) by {
        reveal_with_fuel(count_in_line, 11);
    }
    assert(count_in_line(line, '#', 20) == 0) by {
        reveal_with_fuel(count_in_line, 11);
    }
    assert(count_in_line(line, '#', 30) == 0) by {
        reveal_with_fuel(count_in_line, 11);
    }
    assert(count_in_line(line, '#', 40) == 0) by {
        reveal_with_fuel(count_in_line, 11);
    }
    assert(count_in_line(line, '#', 50) == 0) by {
        reveal_with_fuel(count_in_line, 11);
    }
    assert(count_in_line(line, '#', 60) == 0) by {
        reveal_with_fuel(count_in_line, 11);
    }
    assert(count_in_line(line, '=', 10) == 0) by {
        reveal_with_fuel(count_in_line, 11);
    }
    assert(count_in_line(line, '=', 20) == 0) by {
        reveal_with_fuel(count_in_line, 11);
    }
    assert(count_in_line(line, '=', 30) == 4) by {
        reveal_with_fuel(count_in_line, 11);
    }
    assert(count_in_line(line, '=', 40) == 4) by {
        reveal_with_fuel(count_in_line, 11);
    }
    assert(count_in_line(line, '=', 50) == 4) by {
        reveal_with_fuel(count_in_line, 11);
    }
    assert(count_in_line(line, '=', 60) == 4) by {
        reveal_with_fuel(count_in_line, 11);
    }
    assert(count_in_line(line, '^', 10) == 0) by {
        reveal_with_fuel(count_in_line, 11);
    }
    assert(count_in_line(line, '^', 20) == 0) by {
        reveal_with_fuel(count_in_line, 11);
    }
    assert(count_in_line(line, '^', 30) == 0) by {
        reveal_with_fuel(count_in_line, 11);
    }
    assert(count_in_line(line, '^', 40) == 0) by {
        reveal_with_fuel(count_in_line, 11);
    }
    assert(count_in_line(line, '^', 50) == 0) by {
        reveal_with_fuel(count_in_line, 11);
    }
    assert(count_in_line(line, '^', 60) == 0) by {
        reveal_with_fuel(count_in_line, 11);
    }
}

proof fn art_row_is_well_formed_11()
    ensures
        row_facts("..............................................o............."@, 0, 0, 1, 0, 0, 0),
{
    reveal_strlit("..............................................o.............");
    let line = "..............................................o............."@;
    assert(line.len() == 60);
    assert(known_from(line, 0)) by {
        reveal_with_fuel(known_from, 61);
    }
    assert(count_in_line(line, 'P', 10) == 0) by {
        reveal_with_fuel(count_in_line, 11);
    }
    assert(count_in_line(line, 'P', 20) == 0) by {
        reveal_with_fuel(count_in_line, 11);
    }
    assert(count_in_line(line, 'P', 30) == 0) by {
        reveal_with_fuel(count_in_line, 11);
    }
    assert(count_in_line(line, 'P', 40) == 0) by {
        reveal_with_fuel(count_in_line, 11);
    }
    assert(count_in_line(line, 'P', 50) == 0) by {
        reveal_with_fuel(count_in_line, 11);
    }
    assert(count_in_line(line, 'P', 60) == 0) by {
        reveal_with_fuel(count_in_line, 11);
    }
    assert(count_in_line(line, 'F', 10) == 0) by {
        reveal_with_fuel(count_in_line, 11);
    }
    assert(count_in_line(line, 'F', 20) == 0) by {
        reveal_with_fuel(count_in_line, 11);
    }
    assert(count_in_line(line, 'F', 30) == 0) by {
        reveal_with_fuel(count_in_line, 11);
    }
    assert(count_in_line(line, 'F', 40) == 0) by {
        reveal_with_fuel(count_in_line, 11);
    }
    assert(count_in_line(line, 'F', 50) == 0) by {
        reveal_with_fuel(count_in_line, 11);
    }
    assert(count_in_line(line, 'F', 60) == 0) by {
        reveal_with_fuel(count_in_line, 11);
    }
    assert(count_in_line(line, 'o', 10) == 0) by {
        reveal_with_fuel(count_in_line, 11);
    }
    assert(count_in_line(line, 'o', 20) == 0) by {
        reveal_with_fuel(count_in_line, 11);
    }
    assert(count_in_line(line, 'o', 30) == 0) by {
        reveal_with_fuel(count_in_line, 11);
    }
    assert(count_in_line(line, 'o', 40) == 0) by {
        reveal_with_fuel(count_in_line, 11);
    }
    assert(count_in_line(line, 'o', 50) == 1) by {
        reveal_with_fuel(count_in_line, 11);
    }
    assert(count_in_line(line, 'o', 60) == 1) by {
        reveal_with_fuel(count_in_line, 11);
    }
    assert(count_in_line(line, '#', 10) == 0) by {
        reveal_with_fuel(count_in_line, 11);
    }
    assert(count_in_line(line, '#', 20) == 0) by {
        reveal_with_fuel(count_in_line, 11);
    }
    assert(count_in_line(line, '#', 30) == 0) by {
        reveal_with_fuel(count_in_line, 11);
    }
    assert(count_in_line(line, '#', 40) == 0) by {
        reveal_with_fuel(count_in_line, 11);
    }
    assert(count_in_line(line, '#', 50) == 0) by {
        reveal_with_fuel(count_in_line, 11);
    }
    assert(count_in_line(line, '#', 60) == 0) by {
        reveal_with_fuel(count_in_line, 11);
    }
    assert(count_in_line(line, '=', 10) == 0) by {
        reveal_with_fuel(count_in_line, 11);
    }
    assert(count_in_line(line, '=', 20) == 0) by {
        reveal_with_fuel(count_in_line, 11);
    }
    assert(count_in_line(line, '=', 30) == 0) by {
        reveal_with_fuel(count_in_line, 11);
    }
    assert(count_in_line(line, '=', 40) == 0) by {
        reveal_with_fuel(count_in_line, 11);
    }
    assert(count_in_line(line, '=', 50) == 0) by {
        reveal_with_fuel(count_in_line, 11);
    }
    assert(count_in_line(line, '=', 60) == 0) by {
        reveal_with_fuel(count_in_line, 11);
    }
    assert(count_in_line(line, '^', 10) == 0) by {
        reveal_with_fuel(count_in_line, 11);
    }
    assert(count_in_line(line, '^', 20) == 0) by {
        reveal_with_fuel(count_in_line, 11);
    }
    assert(count_in_line(line, '^', 30) == 0) by {
        reveal_with_fuel(count_in_line, 11);
    }
    assert(count_in_line(line, '^', 40) == 0) by {
        reveal_with_fuel(count_in_line, 11);
    }
    assert(count_in_line(line, '^', 50) == 0) by {
        reveal_with_fuel(count_in_line, 11);
    }
    assert(count_in_line(line, '^', 60) == 0) by {
        reveal_with_fuel(count_in_line, 11);
    }
}

proof fn art_row_is_well_formed_12()
    ensures
        row_facts("...........oo.....oo........................................"@, 0, 0, 4, 0, 0, 0),
{
    reveal_strlit("...........oo.....oo........................................");
    let line = "...........oo.....oo........................................"@;
    assert(line.len() == 60);
    assert(known_from(line, 0)) by {
        reveal_with_fuel(known_from, 61);
    }
    assert(count_in_line(line, 'P', 10) == 0) by {
        reveal_with_fuel(count_in_line, 11);
    }
    assert(count_in_line(line, 'P', 20) == 0) by {
        reveal_with_fuel(count_in_line, 11);
    }
    assert(count_in_line(line, 'P', 30) == 0) by {
        reveal_with_fuel(count_in_line, 11);
    }
    assert(count_in_line(line, 'P', 40) == 0) by {
        reveal_with_fuel(count_in_line, 11);
    }
    assert(count_in_line(line, 'P', 50) == 0) by {
        reveal_with_fuel(count_in_line, 11);
    }
    assert(count_in_line(line, 'P', 60) == 0) by {
        reveal_with_fuel(count_in_line, 11);
    }
    assert(count_in_line(line, 'F', 10) == 0) by {
        reveal_with_fuel(count_in_line, 11);
    }
    assert(count_in_line(line, 'F', 20) == 0) by {
        reveal_with_fuel(count_in_line, 11);
    }
    assert(count_in_line(line, 'F', 30) == 0) by {
        reveal_with_fuel(count_in_line, 11);
    }
    assert(count_in_line(line, 'F', 40) == 0) by {
        reveal_with_fuel(count_in_line, 11);
    }
    assert(count_in_line(line, 'F', 50) == 0) by {
        reveal_with_fuel(count_in_line, 11);
    }
    assert(count_in_line(line, 'F', 60) == 0) by {
        reveal_with_fuel(count_in_line, 11);
    }
    assert(count_in_line(line, 'o', 10) == 0) by {
        reveal_with_fuel(count_in_line, 11);
    }
    assert(count_in_line(line, 'o', 20) == 4) by {
        reveal_with_fuel(count_in_line, 11);
    }
    assert(count_in_line(line, 'o', 30) == 4) by {
        reveal_with_fuel(count_in_line, 11);
    }
    assert(count_in_line(line, 'o', 40) == 4) by {
        reveal_with_fuel(count_in_line, 11);
    }
    assert(count_in_line(line, 'o', 50) == 4) by {
        reveal_with_fuel(count_in_line, 11);
    }
    assert(count_in_line(line, 'o', 60) == 4) by {
        reveal_with_fuel(count_in_line, 11);
    }
    assert(count_in_line(line, '#', 10) == 0) by {
        reveal_with_fuel(count_in_line, 11);
    }
    assert(count_in_line(line, '#', 20) == 0) by {
        reveal_with_fuel(count_in_line, 11);
    }
    assert(count_in_line(line, '#', 30) == 0) by {
        reveal_with_fuel(count_in_line, 11);
    }
    assert(count_in_line(line, '#', 40) == 0) by {
        reveal_with_fuel(count_in_line, 11);
    }
    assert(count_in_line(line, '#', 50) == 0) by {
        reveal_with_fuel(count_in_line, 11);
    }
    assert(count_in_line(line, '#', 60) == 0) by {
        reveal_with_fuel(count_in_line, 11);
    }
    assert(count_in_line(line, '=', 10) == 0) by {
        reveal_with_fuel(count_in_line, 11);
    }
    assert(count_in_line(line, '=', 20) == 0) by {
        reveal_with_fuel(count_in_line, 11);
    }
    assert(count_in_line(line, '=', 30) == 0) by {
        reveal_with_fuel(count_in_line, 11);
    }
    assert(count_in_line(line, '=', 40) == 0) by {
        reveal_with_fuel(count_in_line, 11);
    }
    assert(count_in_line(line, '=', 50) == 0) by {
        reveal_with_fuel(count_in_line, 11);
    }
    assert(count_in_line(line, '=', 60) == 0) by {
        reveal_with_fuel(count_in_line, 11);
    }
    assert(count_in_line(line, '^', 10) == 0) by {
        reveal_with_fuel(count_in_line, 11);
    }
    assert(count_in_line(line, '^', 20) == 0) by {
        reveal_with_fuel(count_in_line, 11);
    }
    assert(count_in_line(line, '^', 30) == 0) by {
        reveal_with_fuel(count_in_line, 11);
    }
    assert(count_in_line(line, '^', 40) == 0) by {
        reveal_with_fuel(count_in_line, 11);
    }
    assert(count_in_line(line, '^', 50) == 0) by {
        reveal_with_fuel(count_in_line, 11);
    }
    assert(count_in_line(line, '^', 60) == 0) by {
        reveal_with_fuel(count_in_line, 11);
    }
}

proof fn art_row_is_well_formed_13()
    ensures
        row_facts("...............======...........oo...........===............"@, 0, 0, 2, 0, 9, 0),
{
    reveal_strlit("...............======...........oo...........===............");
    let line = "...............======...........oo...........===............"@;
    assert(line.len() == 60);
    assert(known_from(line, 0)) by {
        reveal_with_fuel(known_from, 61);
    }
    assert(count_in_line(line, 'P', 10) == 0) by {
        reveal_with_fuel(count_in_line, 11);
    }
    assert(count_in_line(line, 'P', 20) == 0) by {
        reveal_with_fuel(count_in_line, 11);
    }
    assert(count_in_line(line, 'P', 30) == 0) by {
        reveal_with_fuel(count_in_line, 11);
    }
    assert(count_in_line(line, 'P', 40) == 0) by {
        reveal_with_fuel(count_in_line, 11);
    }
    assert(count_in_line(line, 'P', 50) == 0) by {
        reveal_with_fuel(count_in_line, 11);
    }
    assert(count_in_line(line, 'P', 60) == 0) by {
        reveal_with_fuel(count_in_line, 11);
    }
    assert(count_in_line(line, 'F', 10) == 0) by {
        reveal_with_fuel(count_in_line, 11);
    }
    assert(count_in_line(line, 'F', 20) == 0) by {
        reveal_with_fuel(count_in_line, 11);
    }
    assert(count_in_line(line, 'F', 30) == 0) by {
        reveal_with_fuel(count_in_line, 11);
    }
    assert(count_in_line(line, 'F', 40) == 0) by {
        reveal_with_fuel(count_in_line, 11);
    }
    assert(count_in_line(line, 'F', 50) == 0) by {
        reveal_with_fuel(count_in_line, 11);
    }
    assert(count_in_line(line, 'F', 60) == 0) by {
        reveal_with_fuel(count_in_line, 11);
    }
    assert(count_in_line(line, 'o', 10) == 0) by {
        reveal_with_fuel(count_in_line, 11);
    }
    assert(count_in_line(line, 'o', 20) == 0) by {
        reveal_with_fuel(count_in_line, 11);
    }
    assert(count_in_line(line, 'o', 30) == 0) by {
        reveal_with_fuel(count_in_line, 11);
    }
    assert(count_in_line(line, 'o', 40) == 2) by {
        reveal_with_fuel(count_in_line, 11);
    }
    assert(count_in_line(line, 'o', 50) == 2) by {
        reveal_with_fuel(count_in_line, 11);
    }
    assert(count_in_line(line, 'o', 60) == 2) by {
        reveal_with_fuel(count_in_line, 11);
    }
    assert(count_in_line(line, '#', 10) == 0) by {
        reveal_with_fuel(count_in_line, 11);
    }
    assert(count_in_line(line, '#', 20) == 0) by {
        reveal_with_fuel(count_in_line, 11);
    }
    assert(count_in_line(line, '#', 30) == 0) by {
        reveal_with_fuel(count_in_line, 11);
    }
    assert(count_in_line(line, '#', 40) == 0) by {
        reveal_with_fuel(count_in_line, 11);
    }
    assert(count_in_line(line, '#', 50) == 0) by {
        reveal_with_fuel(count_in_line, 11);
    }
    assert(count_in_line(line, '#', 60) == 0) by {
        reveal_with_fuel(count_in_line, 11);
    }
    assert(count_in_line(line, '=', 10) == 0) by {
        reveal_with_fuel(count_in_line, 11);
    }
    assert(count_in_line(line, '=', 20) == 5) by {
        reveal_with_fuel(count_in_line, 11);
    }
    assert(count_in_line(line, '=', 30) == 6) by {
        reveal_with_fuel(count_in_line, 11);
    }
    assert(count_in_line(line, '=', 40) == 6) by {
        reveal_with_fuel(count_in_line, 11);
    }
    assert(count_in_line(line, '=', 50) == 9) by {
        reveal_with_fuel(count_in_line, 11);
    }
    assert(count_in_line(line, '=', 60) == 9) by {
        reveal_with_fuel(count_in_line, 11);
    }
    assert(count_in_line(line, '^', 10) == 0) by {
        reveal_with_fuel(count_in_line, 11);
    }
    assert(count_in_line(line, '^', 20) == 0) by {
        reveal_with_fuel(count_in_line, 11);
    }
    assert(count_in_line(line, '^', 30) == 0) by {
        reveal_with_fuel(count_in_line, 11);
    }
    assert(count_in_line(line, '^', 40) == 0) by {
        reveal_with_fuel(count_in_line, 11);
    }
    assert(count_in_line(line, '^', 50) == 0) by {
        reveal_with_fuel(count_in_line, 11);
    }
    assert(count_in_line(line, '^', 60) == 0) by {
        reveal_with_fuel(count_in_line, 11);
    }
}

proof fn art_row_is_well_formed_14()
    ensures
        row_facts("..........###.............................o................."@, 0, 0, 1, 3, 0, 0),
{
    reveal_strlit("..........###.............................o.................");
    let line = "..........###.............................o................."@;
    assert(line.len() == 60);
    assert(known_from(line, 0)) by {
        reveal_with_fuel(known_from, 61);
    }
    assert(count_in_line(line, 'P', 10) == 0) by {
        reveal_with_fuel(count_in_line, 11);
    }
    assert(count_in_line(line, 'P', 20) == 0) by {
        reveal_with_fuel(count_in_line, 11);
    }
    assert(count_in_line(line, 'P', 30) == 0) by {
        reveal_with_fuel(count_in_line, 11);
    }
    assert(count_in_line(line, 'P', 40) == 0) by {
        reveal_with_fuel(count_in_line, 11);
    }
    assert(count_in_line(line, 'P', 50) == 0) by {
        reveal_with_fuel(count_in_line, 11);
    }
    assert(count_in_line(line, 'P', 60) == 0) by {
        reveal_with_fuel(count_in_line, 11);
    }
    assert(count_in_line(line, 'F', 10) == 0) by {
        reveal_with_fuel(count_in_line, 11);
    }
    assert(count_in_line(line, 'F', 20) == 0) by {
        reveal_with_fuel(count_in_line, 11);
    }
    assert(count_in_line(line, 'F', 30) == 0) by {
        reveal_with_fuel(count_in_line, 11);
    }
    assert(count_in_line(line, 'F', 40) == 0) by {
        reveal_with_fuel(count_in_line, 11);
    }
    assert(count_in_line(line, 'F', 50) == 0) by {
        reveal_with_fuel(count_in_line, 11);
    }
    assert(count_in_line(line, 'F', 60) == 0) by {
        reveal_with_fuel(count_in_line, 11);
    }
    assert(count_in_line(line, 'o', 10) == 0) by {
        reveal_with_fuel(count_in_line, 11);
    }
    assert(count_in_line(line, 'o', 20) == 0) by {
        reveal_with_fuel(count_in_line, 11);
    }
    assert(count_in_line(line, 'o', 30) == 0) by {
        reveal_with_fuel(count_in_line, 11);
    }
    assert(count_in_line(line, 'o', 40) == 0) by {
        reveal_with_fuel(count_in_line, 11);
    }
    assert(count_in_line(line, 'o', 50) == 1) by {
        reveal_with_fuel(count_in_line, 11);
    }
    assert(count_in_line(line, 'o', 60) == 1) by {
        reveal_with_fuel(count_in_line, 11);
    }
    assert(count_in_line(line, '#', 10) == 0) by {
        reveal_with_fuel(count_in_line, 11);
    }
    assert(count_in_line(line, '#', 20) == 3) by {
        reveal_with_fuel(count_in_line, 11);
    }
    assert(count_in_line(line, '#', 30) == 3) by {
        reveal_with_fuel(count_in_line, 11);
    }
    assert(count_in_line(line, '#', 40) == 3) by {
        reveal_with_fuel(count_in_line, 11);
    }
    assert(count_in_line(line, '#', 50) == 3) by {
        reveal_with_fuel(count_in_line, 11);
    }
    assert(count_in_line(line, '#', 60) == 3) by {
        reveal_with_fuel(count_in_line, 11);
    }
    assert(count_in_line(line, '=', 10) == 0) by {
        reveal_with_fuel(count_in_line, 11);
    }
    assert(count_in_line(line, '=', 20) == 0) by {
        reveal_with_fuel(count_in_line, 11);
    }
    assert(count_in_line(line, '=', 30) == 0) by {
        reveal_with_fuel(count_in_line, 11);
    }
    assert(count_in_line(line, '=', 40) == 0) by {
        reveal_with_fuel(count_in_line, 11);
    }
    assert(count_in_line(line, '=', 50) == 0) by {
        reveal_with_fuel(count_in_line, 11);
    }
    assert(count_in_line(line, '=', 60) == 0) by {
        reveal_with_fuel(count_in_line, 11);
    }
    assert(count_in_line(line, '^', 10) == 0) by {
        reveal_with_fuel(count_in_line, 11);
    }
    assert(count_in_line(line, '^', 20) == 0) by {
        reveal_with_fuel(count_in_line, 11);
    }
    assert(count_in_line(line, '^', 30) == 0) by {
        reveal_with_fuel(count_in_line, 11);
    }
    assert(count_in_line(line, '^', 40) == 0) by {
        reveal_with_fuel(count_in_line, 11);
    }
    assert(count_in_line(line, '^', 50) == 0) by {
        reveal_with_fuel(count_in_line, 11);
    }
    assert(count_in_line(line, '^', 60) == 0) by {
        reveal_with_fuel(count_in_line, 11);
    }
}

proof fn art_row_is_well_formed_15()
    ensures
        row_facts(".........o...............................###................"@, 0, 0, 1, 3, 0, 0),
{
    reveal_strlit(".........o...............................###................");
    let line = ".........o...............................###................"@;
    assert(line.len() == 60);
    assert(known_from(line, 0)) by {
        reveal_with_fuel(known_from, 61);
    }
    assert(count_in_line(line, 'P', 10) == 0) by {
        reveal_with_fuel(count_in_line, 11);
    }
    assert(count_in_line(line, 'P', 20) == 0) by {
        reveal_with_fuel(count_in_line, 11);
    }
    assert(count_in_line(line, 'P', 30) == 0) by {
        reveal_with_fuel(count_in_line, 11);
    }
    assert(count_in_line(line, 'P', 40) == 0) by {
        reveal_with_fuel(count_in_line, 11);
    }
    assert(count_in_line(line, 'P', 50) == 0) by {
        reveal_with_fuel(count_in_line, 11);
    }
    assert(count_in_line(line, 'P', 60) == 0) by {
        reveal_with_fuel(count_in_line, 11);
    }
    assert(count_in_line(line, 'F', 10) == 0) by {
        reveal_with_fuel(count_in_line, 11);
    }
    assert(count_in_line(line, 'F', 20) == 0) by {
        reveal_with_fuel(count_in_line, 11);
    }
    assert(count_in_line(line, 'F', 30) == 0) by {
        reveal_with_fuel(count_in_line, 11);
    }
    assert(count_in_line(line, 'F', 40) == 0) by {
        reveal_with_fuel(count_in_line, 11);
    }
    assert(count_in_line(line, 'F', 50) == 0) by {
        reveal_with_fuel(count_in_line, 11);
    }
    assert(count_in_line(line, 'F', 60) == 0) by {
        reveal_with_fuel(count_in_line, 11);
    }
    assert(count_in_line(line, 'o', 10) == 1) by {
        reveal_with_fuel(count_in_line, 11);
    }
    assert(count_in_line(line, 'o', 20) == 1) by {
        reveal_with_fuel(count_in_line, 11);
    }
    assert(count_in_line(line, 'o', 30) == 1) by {
        reveal_with_fuel(count_in_line, 11);
    }
    assert(count_in_line(line, 'o', 40) == 1) by {
        reveal_with_fuel(count_in_line, 11);
    }
    assert(count_in_line(line, 'o', 50) == 1) by {
        reveal_with_fuel(count_in_line, 11);
    }
    assert(count_in_line(line, 'o', 60) == 1) by {
        reveal_with_fuel(count_in_line, 11);
    }
    assert(count_in_line(line, '#', 10) == 0) by {
        reveal_with_fuel(count_in_line, 11);
    }
    assert(count_in_line(line, '#', 20) == 0) by {
        reveal_with_fuel(count_in_line, 11);
    }
    assert(count_in_line(line, '#', 30) == 0) by {
        reveal_with_fuel(count_in_line, 11);
    }
    assert(count_in_line(line, '#', 40) == 0) by {
        reveal_with_fuel(count_in_line, 11);
    }
    assert(count_in_line(line, '#', 50) == 3) by {
        reveal_with_fuel(count_in_line, 11);
    }
    assert(count_in_line(line, '#', 60) == 3) by {
        reveal_with_fuel(count_in_line, 11);
    }
    assert(count_in_line(line, '=', 10) == 0) by {
        reveal_with_fuel(count_in_line, 11);
    }
    assert(count_in_line(line, '=', 20) == 0) by {
        reveal_with_fuel(count_in_line, 11);
    }
    assert(count_in_line(line, '=', 30) == 0) by {
        reveal_with_fuel(count_in_line, 11);
    }
    assert(count_in_line(line, '=', 40) == 0) by {
        reveal_with_fuel(count_in_line, 11);
    }
    assert(count_in_line(line, '=', 50) == 0) by {
        reveal_with_fuel(count_in_line, 11);
    }
    assert(count_in_line(line, '=', 60) == 0) by {
        reveal_with_fuel(count_in_line, 11);
    }
    assert(count_in_line(line, '^', 10) == 0) by {
        reveal_with_fuel(count_in_line, 11);
    }
    assert(count_in_line(line, '^', 20) == 0) by {
        reveal_with_fuel(count_in_line, 11);
    }
    assert(count_in_line(line, '^', 30) == 0) by {
        reveal_with_fuel(count_in_line, 11);
    }
    assert(count_in_line(line, '^', 40) == 0) by {
        reveal_with_fuel(count_in_line, 11);
    }
    assert(count_in_line(line, '^', 50) == 0) by {
        reveal_with_fuel(count_in_line, 11);
    }
    assert(count_in_line(line, '^', 60) == 0) by {
        reveal_with_fuel(count_in_line, 11);
    }
}

proof fn art_row_is_well_formed_16()
    ensures
        row_facts("..P..o.##..............................o...................."@, 1, 0, 2, 2, 0, 0),
{
    reveal_strlit("..P..o.##..............................o....................");
    let line = "..P..o.##..............................o...................."@;
    assert(line.len() == 60);
    assert(known_from(line, 0)) by {
        reveal_with_fuel(known_from, 61);
    }
    assert(count_in_line(line, 'P', 10) == 1) by {
        reveal_with_fuel(count_in_line, 11);
    }
    assert(count_in_line(line, 'P', 20) == 1) by {
        reveal_with_fuel(count_in_line, 11);
    }
    assert(count_in_line(line, 'P', 30) == 1) by {
        reveal_with_fuel(count_in_line, 11);
    }
    assert(count_in_line(line, 'P', 40) == 1) by {
        reveal_with_fuel(count_in_line, 11);
    }
    assert(count_in_line(line, 'P', 50) == 1) by {
        reveal_with_fuel(count_in_line, 11);
    }
    assert(count_in_line(line, 'P', 60) == 1) by {
        reveal_with_fuel(count_in_line, 11);
    }
    assert(count_in_line(line, 'F', 10) == 0) by {
        reveal_with_fuel(count_in_line, 11);
    }
    assert(count_in_line(line, 'F', 20) == 0) by {
        reveal_with_fuel(count_in_line, 11);
    }
    assert(count_in_line(line, 'F', 30) == 0) by {
        reveal_with_fuel(count_in_line, 11);
    }
    assert(count_in_line(line, 'F', 40) == 0) by {
        reveal_with_fuel(count_in_line, 11);
    }
    assert(count_in_line(line, 'F', 50) == 0) by {
        reveal_with_fuel(count_in_line, 11);
    }
    assert(count_in_line(line, 'F', 60) == 0) by {
        reveal_with_fuel(count_in_line, 11);
    }
    assert(count_in_line(line, 'o', 10) == 1) by {
        reveal_with_fuel(count_in_line, 11);
    }
    assert(count_in_line(line, 'o', 20) == 1) by {
        reveal_with_fuel(count_in_line, 11);
    }
    assert(count_in_line(line, 'o', 30) == 1) by {
        reveal_with_fuel(count_in_line, 11);
    }
    assert(count_in_line(line, 'o', 40) == 2) by {
        reveal_with_fuel(count_in_line, 11);
    }
    assert(count_in_line(line, 'o', 50) == 2) by {
        reveal_with_fuel(count_in_line, 11);
    }
    assert(count_in_line(line, 'o', 60) == 2) by {
        reveal_with_fuel(count_in_line, 11);
    }
    assert(count_in_line(line, '#', 10) == 2) by {
        reveal_with_fuel(count_in_line, 11);
    }
    assert(count_in_line(line, '#', 20) == 2) by {
        reveal_with_fuel(count_in_line, 11);
    }
    assert(count_in_line(line, '#', 30) == 2) by {
        reveal_with_fuel(count_in_line, 11);
    }
    assert(count_in_line(line, '#', 40) == 2) by {
        reveal_with_fuel(count_in_line, 11);
    }
    assert(count_in_line(line, '#', 50) == 2) by {
        reveal_with_fuel(count_in_line, 11);
    }
    assert(count_in_line(line, '#', 60) == 2) by {
        reveal_with_fuel(count_in_line, 11);
    }
    assert(count_in_line(line, '=', 10) == 0) by {
        reveal_with_fuel(count_in_line, 11);
    }
    assert(count_in_line(line, '=', 20) == 0) by {
        reveal_with_fuel(count_in_line, 11);
    }
    assert(count_in_line(line, '=', 30) == 0) by {
        reveal_with_fuel(count_in_line, 11);
    }
    assert(count_in_line(line, '=', 40) == 0) by {
        reveal_with_fuel(count_in_line, 11);
    }
    assert(count_in_line(line, '=', 50) == 0) by {
        reveal_with_fuel(count_in_line, 11);
    }
    assert(count_in_line(line, '=', 60) == 0) by {
        reveal_with_fuel(count_in_line, 11);
    }
    assert(count_in_line(line, '^', 10) == 0) by {
        reveal_with_fuel(count_in_line, 11);
    }
    assert(count_in_line(line, '^', 20) == 0) by {
        reveal_with_fuel(count_in_line, 11);
    }
    assert(count_in_line(line, '^', 30) == 0) by {
        reveal_with_fuel(count_in_line, 11);
    }
    assert(count_in_line(line, '^', 40) == 0) by {
        reveal_with_fuel(count_in_line, 11);
    }
    assert(count_in_line(line, '^', 50) == 0) by {
        reveal_with_fuel(count_in_line, 11);
    }
    assert(count_in_line(line, '^', 60) == 0) by {
        reveal_with_fuel(count_in_line, 11);
    }
}

proof fn art_row_is_well_formed_17()
    ensures
        row_facts("#########################^^#..........########^^^###########"@, 0, 0, 0, 45, 0, 5),
{
    reveal_strlit("#########################^^#..........########^^^###########");
    let line = "#########################^^#..........########^^^###########"@;
    assert(line.len() == 60);
    assert(known_from(line, 0)) by {
        reveal_with_fuel(known_from, 61);
    }
    assert(count_in_line(line, 'P', 10) == 0) by {
        reveal_with_fuel(count_in_line, 11);
    }
    assert(count_in_line(line, 'P', 20) == 0) by {
        reveal_with_fuel(count_in_line, 11);
    }
    assert(count_in_line(line, 'P', 30) == 0) by {
        reveal_with_fuel(count_in_line, 11);
    }
    assert(count_in_line(line, 'P', 40) == 0) by {
        reveal_with_fuel(count_in_line, 11);
    }
    assert(count_in_line(line, 'P', 50) == 0) by {
        reveal_with_fuel(count_in_line, 11);
    }
    assert(count_in_line(line, 'P', 60) == 0) by {
        reveal_with_fuel(count_in_line, 11);
    }
    assert(count_in_line(line, 'F', 10) == 0) by {
        reveal_with_fuel(count_in_line, 11);
    }
    assert(count_in_line(line, 'F', 20) == 0) by {
        reveal_with_fuel(count_in_line, 11);
    }
    assert(count_in_line(line, 'F', 30) == 0) by {
        reveal_with_fuel(count_in_line, 11);
    }
    assert(count_in_line(line, 'F', 40) == 0) by {
        reveal_with_fuel(count_in_line, 11);
    }
    assert(count_in_line(line, 'F', 50) == 0) by {
        reveal_with_fuel(count_in_line, 11);
    }
    assert(count_in_line(line, 'F', 60) == 0) by {
        reveal_with_fuel(count_in_line, 11);
    }
    assert(count_in_line(line, 'o', 10) == 0) by {
        reveal_with_fuel(count_in_line, 11);
    }
    assert(count_in_line(line, 'o', 20) == 0) by {
        reveal_with_fuel(count_in_line, 11);
    }
    assert(count_in_line(line, 'o', 30) == 0) by {
        reveal_with_fuel(count_in_line, 11);
    }
    assert(count_in_line(line, 'o', 40) == 0) by {
        reveal_with_fuel(count_in_line, 11);
    }
    assert(count_in_line(line, 'o', 50) == 0) by {
        reveal_with_fuel(count_in_line, 11);
    }
    assert(count_in_line(line, 'o', 60) == 0) by {
        reveal_with_fuel(count_in_line, 11);
    }
    assert(count_in_line(line, '#', 10) == 10) by {
        reveal_with_fuel(count_in_line, 11);
    }
    assert(count_in_line(line, '#', 20) == 20) by {
        reveal_with_fuel(count_in_line, 11);
    }
    assert(count_in_line(line, '#', 30) == 26) by {
        reveal_with_fuel(count_in_line, 11);
    }
    assert(count_in_line(line, '#', 40) == 28) by {
        reveal_with_fuel(count_in_line, 11);
    }
    assert(count_in_line(line, '#', 50) == 35) by {
        reveal_with_fuel(count_in_line, 11);
    }
    assert(count_in_line(line, '#', 60) == 45) by {
        reveal_with_fuel(count_in_line, 11);
    }
    assert(count_in_line(line, '=', 10) == 0) by {
        reveal_with_fuel(count_in_line, 11);
    }
    assert(count_in_line(line, '=', 20) == 0) by {
        reveal_with_fuel(count_in_line, 11);
    }
    assert(count_in_line(line, '=', 30) == 0) by {
        reveal_with_fuel(count_in_line, 11);
    }
    assert(count_in_line(line, '=', 40) == 0) by {
        reveal_with_fuel(count_in_line, 11);
    }
    assert(count_in_line(line, '=', 50) == 0) by {
        reveal_with_fuel(count_in_line, 11);
    }
    assert(count_in_line(line, '=', 60) == 0) by {
        reveal_with_fuel(count_in_line, 11);
    }
    assert(count_in_line(line, '^', 10) == 0) by {
        reveal_with_fuel(count_in_line, 11);
    }
    assert(count_in_line(line, '^', 20) == 0) by {
        reveal_with_fuel(count_in_line, 11);
    }
    assert(count_in_line(line, '^', 30) == 2) by {
        reveal_with_fuel(count_in_line, 11);
    }
    assert(count_in_line(line, '^', 40) == 2) by {
        reveal_with_fuel(count_in_line, 11);
    }
    assert(count_in_line(line, '^', 50) == 5) by {
        reveal_with_fuel(count_in_line, 11);
    }
    assert(count_in_line(line, '^', 60) == 5) by {
        reveal_with_fuel(count_in_line, 11);
    }
}

/// Every character of `line` from position `k` on belongs to the format.
pub open spec fn known_from(line: Seq<char>, k: int) -> bool
    decreases line.len() - k,
{
    if k < 0 || k >= line.len() {
        true
    } else {
        is_known(line[k]) && known_from(line, k + 1)
    }
}

/// Every row from `k` on is `width` characters, all of the format.
pub open spec fn rows_known_from(rows: Seq<&str>, width: nat, k: int) -> bool
    decreases rows.len() - k,
{
    if k < 0 || k >= rows.len() {
        true
    } else {
        rows[k]@.len() == width && known_from(rows[k]@, 0) && rows_known_from(rows, width, k + 1)
    }
}

proof fn known_from_all(line: Seq<char>, k: int)
    requires
        0 <= k,
        known_from(line, k),
    ensures
        forall|c: int| k <= c < line.len() ==> is_known(#[trigger] line[c]),
    decreases line.len() - k,
{
    if k < line.len() {
        known_from_all(line, k + 1);
    }
}

proof fn rows_known_from_all(rows: Seq<&str>, width: nat, k: int)
    requires
        0 <= k,
        rows_known_from(rows, width, k),
    ensures
        forall|r: int|
            k <= r < rows.len() ==> #[trigger] rows[r]@.len() == width && known_from(rows[r]@, 0),
    decreases rows.len() - k,
{
    if k < rows.len() {
        rows_known_from_all(rows, width, k + 1);
    }
}

proof fn count_in_line_monotone(line: Seq<char>, ch: char, i: int, j: int)
    requires
        i <= j,
    ensures
        count_in_line(line, ch, i) <= count_in_line(line, ch, j),
    decreases j - i,
{
    if i < j {
        count_in_line_monotone(line, ch, i, j - 1);
    }
}

proof fn count_in_rows_monotone(g: Seq<Seq<char>>, ch: char, i: int, j: int)
    requires
        i <= j,
    ensures
        count_in_rows(g, ch, i) <= count_in_rows(g, ch, j),
    decreases j - i,
{
    if i < j {
        count_in_rows_monotone(g, ch, i, j - 1);
    }
}

proof fn count_in_line_bounded(line: Seq<char>, ch: char, upto: int)
    requires
        0 <= upto,
    ensures
        count_in_line(line, ch, upto) <= upto,
    decreases upto,
{
    if upto > 0 {
        count_in_line_bounded(line, ch, upto - 1);
    }
}

proof fn count_in_rows_bounded(g: Seq<Seq<char>>, ch: char, width: nat, upto: int)
    requires
        0 <= upto <= g.len(),
        forall|r: int| 0 <= r < g.len() ==> #[trigger] g[r].len() == width,
    ensures
        count_in_rows(g, ch, upto) <= upto * width,
    decreases upto,
{
    if upto > 0 {
        count_in_rows_bounded(g, ch, width, upto - 1);
        count_in_line_bounded(g[upto - 1], ch, width as int);
        assert((upto - 1) * width + width == upto * width) by (nonlinear_arith);
    }
}

/// A cell holding `ch` is counted in the grid's total after everything before it.
proof fn count_before_leaves_room(g: Seq<Seq<char>>, ch: char, row: int, column: int)
    requires
        in_grid(g, row, column),
        g[row][column] == ch,
    ensures
        count_before(g, ch, row, column) + 1 <= count_in_grid(g, ch),
{
    count_in_line_monotone(g[row], ch, column + 1, g[row].len() as int);
    count_in_rows_monotone(g, ch, row + 1, g.len() as int);
}

/// A cell holding `ch` is counted before every cell read after it.
proof fn earlier_cell_is_counted(g: Seq<Seq<char>>, ch: char, r1: int, c1: int, r2: int, c2: int)
    requires
        in_grid(g, r1, c1),
        in_grid(g, r2, c2),
        g[r1][c1] == ch,
        reads_before(r1, c1, r2, c2),
    ensures
        count_before(g, ch, r1, c1) + 1 <= count_before(g, ch, r2, c2),
{
    if r1 == r2 {
        count_in_line_monotone(g[r1], ch, c1 + 1, c2);
    } else {
        count_in_line_monotone(g[r1], ch, c1 + 1, g[r1].len() as int);
        count_in_rows_monotone(g, ch, r1 + 1, r2);
    }
}

/// When the grid holds `ch` exactly once, any two cells holding it are the same cell.
proof fn only_one_cell_holds(g: Seq<Seq<char>>, ch: char, r1: int, c1: int, r2: int, c2: int)
    requires
        count_in_grid(g, ch) == 1,
        in_grid(g, r1, c1),
        in_grid(g, r2, c2),
        g[r1][c1] == ch,
        g[r2][c2] == ch,
    ensures
        r1 == r2 && c1 == c2,
{
    if reads_before(r1, c1, r2, c2) {
        earlier_cell_is_counted(g, ch, r1, c1, r2, c2);
        count_before_leaves_room(g, ch, r2, c2);
    } else if reads_before(r2, c2, r1, c1) {
        earlier_cell_is_counted(g, ch, r2, c2, r1, c1);
        count_before_leaves_room(g, ch, r1, c1);
    }
}

/// Rows of one width, of known characters only, with exactly one spawn and few enough
/// cells, form a buildable level.
proof fn buildable_from_known_rows(rows: Seq<&str>, width: nat)
    requires
        rows.len() > 0,
        rows_known_from(rows, width, 0),
        count_in_grid(grid(rows), 'P') == 1,
        rows.len() * width <= u32::MAX,
    ensures
        level_ok(rows),
        rows[0].spec_bytes().len() == width,
{
    let g = grid(rows);
    rows_known_from_all(rows, width, 0);
    assert forall|r: int| 0 <= r < rows.len() implies #[trigger] rows[r].spec_bytes().len()
        == width by {
        known_from_all(rows[r]@, 0);
        assert(vstd::utf8::is_ascii_chars(rows[r]@));
        vstd::utf8::is_ascii_chars_encode_utf8(rows[r]@);
    }
    assert forall|r: int| 0 <= r < rows.len() implies #[trigger] byte_width(rows[r])
        == byte_width(rows[0]) by {
        assert(rows[r].spec_bytes().len() == width);
        assert(rows[0].spec_bytes().len() == width);
    }
    assert forall|r: int| 0 <= r < g.len() implies #[trigger] g[r].len() == width by {
        assert(g[r] == rows[r]@);
    }
    count_in_rows_bounded(g, 'o', width, g.len() as int);
    assert forall|r: int, c: int| in_grid(g, r, c) implies !#[trigger] is_fault(g, r, c) by {
        assert(g[r] == rows[r]@);
        known_from_all(rows[r]@, 0);
        if g[r][c] == 'P' {
            count_before_leaves_room(g, 'P', r, c);
        }
        if g[r][c] == 'o' {
            count_before_leaves_room(g, 'o', r, c);
        }
    }
}
} // verus!
