//! The script language: one statement to a line, its words in a fixed
//! order.
//!
//! ```text
//! set gamemode <survival|creative|adventure|spectator>
//! set inventory slot <u16> item <item> count <i8>
//! set held_item <u16>
//! interact position <x> <y> <z> face <up|down|north|south|east|west>
//! assert position <x> <y> <z> block <block>
//! assert inventory slot <u16> item <item> count <i8>
//! assert inventory slot <u16> empty
//! ```
//!
//! Empty lines and lines that begin with `#` are passed over. The words of
//! a line stand between single white-space characters, and a line holds its
//! statement and nothing after it. The names of items and of blocks are
//! looked up when the script is read: a script that names what does not
//! exist is not well formed.

use vstd::prelude::*;
use crate::dispatch::Gamemode;
use crate::orientation::Face;
use crate::registry::{item_named, kind_named, BlockKindId, ItemId};
use crate::text::{
    as_i32,
    as_i8,
    as_u16,
    parse_i32,
    parse_i8,
    parse_u16,
    pieces,
    same,
    split,
    trim,
    trimmed,
    views,
    Separator,
};
use crate::world::Position;

verus! {

/// Why a line is no statement.
#[derive(Clone, Copy, Debug, PartialEq, Eq, Structural)]
pub enum ParseError {
    /// The word that should name a statement, or the part of the state it
    /// is about, names none.
    UnknownCommand,
    /// A word of the statement's fixed wording is missing or another word
    /// stands in its place.
    MissingKeyword,
    /// The line ends where a number or a name is due.
    MissingValue,
    /// A word that should be a number is none, or is one out of range.
    InvalidNumber,
    /// A word that should name a face names none.
    UnknownFace,
    /// A word that should name a game mode names none.
    UnknownGamemode,
    /// A word that should name a kind of block names none.
    UnknownBlock,
    /// A word that should name an item names none.
    UnknownItem,
    /// A word stands after the last word of the statement.
    UnexpectedWord,
}

/// A block, by the name of its kind.
#[derive(Debug, Clone, Eq, PartialEq)]
pub struct Block {
    pub id: String,
}

/// The content that a slot is to have.
#[derive(Debug, Clone, Eq, PartialEq)]
pub struct InventorySlot {
    pub slot: u16,
    pub item: String,
    pub count: i8,
}

/// A statement that sets up the state before an interaction.
#[derive(Debug, Clone, Eq, PartialEq)]
pub enum Setting {
    Gamemode(Gamemode),
    Inventory(InventorySlot),
    HeldItem(u16),
}

/// A statement that checks the state.
#[derive(Debug, Clone, Eq, PartialEq)]
pub enum Assert {
    /// The cell at the position holds a block of the kind.
    Position(Position, Block),
    /// The slot holds that many of the item, or nothing.
    Inventory(u16, Option<(String, i8)>),
}

/// A statement that strikes a face of a cell.
#[derive(Clone, Copy, Debug, PartialEq, Eq, Structural)]
pub struct Interact {
    pub position: Position,
    pub face: Face,
}

/// A statement.
#[derive(Debug, Clone, Eq, PartialEq)]
pub enum Line {
    Setting(Setting),
    Assert(Assert),
    Interact(Interact),
}

/// A `Block` with its name as characters.
pub struct BlockView {
    pub id: Seq<char>,
}

/// An `InventorySlot` with its name as characters.
pub struct InventorySlotView {
    pub slot: u16,
    pub item: Seq<char>,
    pub count: i8,
}

/// A `Setting` with its names as characters.
pub enum SettingView {
    Gamemode(Gamemode),
    Inventory(InventorySlotView),
    HeldItem(u16),
}

/// An `Assert` with its names as characters.
pub enum AssertView {
    Position(Position, BlockView),
    Inventory(u16, Option<(Seq<char>, i8)>),
}

/// A `Line` with its names as characters.
pub enum LineView {
    Setting(SettingView),
    Assert(AssertView),
    Interact(Interact),
}

impl View for Block {
    type V = BlockView;

    open spec fn view(&self) -> BlockView {
        BlockView { id: self.id@ }
    }
}

impl View for InventorySlot {
    type V = InventorySlotView;

    open spec fn view(&self) -> InventorySlotView {
        InventorySlotView { slot: self.slot, item: self.item@, count: self.count }
    }
}

impl View for Setting {
    type V = SettingView;

    open spec fn view(&self) -> SettingView {
        match self {
            Setting::Gamemode(mode) => SettingView::Gamemode(*mode),
            Setting::Inventory(content) => SettingView::Inventory(content@),
            Setting::HeldItem(slot) => SettingView::HeldItem(*slot),
        }
    }
}

impl View for Assert {
    type V = AssertView;

    open spec fn view(&self) -> AssertView {
        match self {
            Assert::Position(at, block) => AssertView::Position(*at, block@),
            Assert::Inventory(slot, content) => AssertView::Inventory(
                *slot,
                match content {
                    Some((item, count)) => Some((item@, *count)),
                    None => None,
                },
            ),
        }
    }
}

impl View for Line {
    type V = LineView;

    open spec fn view(&self) -> LineView {
        match self {
            Line::Setting(setting) => LineView::Setting(setting@),
            Line::Assert(assert) => LineView::Assert(assert@),
            Line::Interact(interact) => LineView::Interact(*interact),
        }
    }
}

/// The views of a list of statements.
pub open spec fn line_views(lines: Seq<Line>) -> Seq<LineView> {
    Seq::new(lines.len(), |i: int| lines[i]@)
}

/// A result with its value, where it has one, as its view.
pub open spec fn viewed<T: View>(result: Result<T, ParseError>) -> Result<T::V, ParseError> {
    match result {
        Ok(value) => Ok(value@),
        Err(error) => Err(error),
    }
}

/// The word at index `at`, where the line has that many.
pub open spec fn word(words: Seq<Seq<char>>, at: int) -> Option<Seq<char>> {
    if 0 <= at < words.len() {
        Some(words[at])
    } else {
        None
    }
}

/// Whether the word at index `at` is `keyword`.
pub open spec fn has_keyword(words: Seq<Seq<char>>, at: int, keyword: Seq<char>) -> bool {
    word(words, at) == Some(keyword)
}

/// The `i32` that the word at index `at` writes.
pub open spec fn i32_at(words: Seq<Seq<char>>, at: int) -> Result<i32, ParseError> {
    match word(words, at) {
        None => Err(ParseError::MissingValue),
        Some(w) => match as_i32(w) {
            Some(n) => Ok(n),
            None => Err(ParseError::InvalidNumber),
        },
    }
}

/// The `u16` that the word at index `at` writes.
pub open spec fn u16_at(words: Seq<Seq<char>>, at: int) -> Result<u16, ParseError> {
    match word(words, at) {
        None => Err(ParseError::MissingValue),
        Some(w) => match as_u16(w) {
            Some(n) => Ok(n),
            None => Err(ParseError::InvalidNumber),
        },
    }
}

/// The `i8` that the word at index `at` writes.
pub open spec fn i8_at(words: Seq<Seq<char>>, at: int) -> Result<i8, ParseError> {
    match word(words, at) {
        None => Err(ParseError::MissingValue),
        Some(w) => match as_i8(w) {
            Some(n) => Ok(n),
            None => Err(ParseError::InvalidNumber),
        },
    }
}

/// A statement that ends before index `end`: the statement as it was read,
/// or an error where a word stands at `end`.
pub open spec fn ended<T>(words: Seq<Seq<char>>, end: int, read: Result<T, ParseError>) -> Result<
    T,
    ParseError,
> {
    match read {
        Err(e) => Err(e),
        Ok(statement) => if word(words, end) is Some {
            Err(ParseError::UnexpectedWord)
        } else {
            Ok(statement)
        },
    }
}

/// The name of an item that exists, at index `at`.
pub open spec fn item_at(words: Seq<Seq<char>>, at: int) -> Result<Seq<char>, ParseError> {
    match word(words, at) {
        None => Err(ParseError::MissingValue),
        Some(name) => if item_named(name) is None {
            Err(ParseError::UnknownItem)
        } else {
            Ok(name)
        },
    }
}

/// The index `further` words after `at`, or one past the last word where
/// that index is past it too.
fn ahead(words: &Vec<&str>, at: usize, further: usize) -> (index: usize)
    ensures
        index == at + further || (at + further >= words@.len() && index >= words@.len()),
{
    let past = words.len();
    match at.checked_add(further) {
        Some(index) => index,
        None => past,
    }
}

/// The word at index `at + further`, where the line has that many.
fn nth<'a>(words: &Vec<&'a str>, at: usize, further: usize) -> (found: Option<&'a str>)
    ensures
        match word(views(words@), at + further) {
            Some(w) => found matches Some(f) && f@ == w,
            None => found is None,
        },
{
    let i = ahead(words, at, further);
    if i < words.len() {
        Some(words[i])
    } else {
        None
    }
}

/// Whether the word at index `at + further` is `keyword`.
fn keyword_at(words: &Vec<&str>, at: usize, further: usize, keyword: &str) -> (found: bool)
    ensures
        found == has_keyword(views(words@), at + further, keyword@),
{
    match nth(words, at, further) {
        Some(w) => same(w, keyword),
        None => false,
    }
}

/// Whether a word stands at index `at + further`.
fn word_at(words: &Vec<&str>, at: usize, further: usize) -> (found: bool)
    ensures
        found == word(views(words@), at + further) is Some,
{
    nth(words, at, further).is_some()
}

/// The name of an item at index `at + further`.
fn parse_item_at(words: &Vec<&str>, at: usize, further: usize) -> (name: Result<
    String,
    ParseError,
>)
    ensures
        match item_at(views(words@), at + further) {
            Ok(n) => name matches Ok(found) && found@ == n,
            Err(e) => name == Err::<String, ParseError>(e),
        },
{
    match nth(words, at, further) {
        None => Err(ParseError::MissingValue),
        Some(name) => match ItemId::named(name) {
            None => Err(ParseError::UnknownItem),
            Some(_) => Ok(name.to_owned()),
        },
    }
}

/// The `i32` that the word at index `at + further` writes.
fn parse_i32_at(words: &Vec<&str>, at: usize, further: usize) -> (value: Result<i32, ParseError>)
    ensures
        value == i32_at(views(words@), at + further),
{
    match nth(words, at, further) {
        None => Err(ParseError::MissingValue),
        Some(w) => match parse_i32(w) {
            Some(n) => Ok(n),
            None => Err(ParseError::InvalidNumber),
        },
    }
}

/// The `u16` that the word at index `at + further` writes.
fn parse_u16_at(words: &Vec<&str>, at: usize, further: usize) -> (value: Result<u16, ParseError>)
    ensures
        value == u16_at(views(words@), at + further),
{
    match nth(words, at, further) {
        None => Err(ParseError::MissingValue),
        Some(w) => match parse_u16(w) {
            Some(n) => Ok(n),
            None => Err(ParseError::InvalidNumber),
        },
    }
}

/// The `i8` that the word at index `at + further` writes.
fn parse_i8_at(words: &Vec<&str>, at: usize, further: usize) -> (value: Result<i8, ParseError>)
    ensures
        value == i8_at(views(words@), at + further),
{
    match nth(words, at, further) {
        None => Err(ParseError::MissingValue),
        Some(w) => match parse_i8(w) {
            Some(n) => Ok(n),
            None => Err(ParseError::InvalidNumber),
        },
    }
}

impl Face {
    /// The face that the word at index `at` names.
    pub open spec fn spec_parse(words: Seq<Seq<char>>, at: int) -> Result<Face, ParseError> {
        let w = word(words, at);
        if w == Some("up"@) {
            Ok(Face::Up)
        } else if w == Some("down"@) {
            Ok(Face::Down)
        } else if w == Some("north"@) {
            Ok(Face::North)
        } else if w == Some("south"@) {
            Ok(Face::South)
        } else if w == Some("east"@) {
            Ok(Face::East)
        } else if w == Some("west"@) {
            Ok(Face::West)
        } else {
            Err(ParseError::UnknownFace)
        }
    }

    /// Reads a face from the word at index `at`.
    pub fn parse(words: &Vec<&str>, at: usize) -> (face: Result<Face, ParseError>)
        ensures
            face == Face::spec_parse(views(words@), at as int),
    {
        let w = match nth(words, at, 0) {
            Some(w) => w,
            None => {
                return Err(ParseError::UnknownFace);
            },
        };
        if same(w, "up") {
            Ok(Face::Up)
        } else if same(w, "down") {
            Ok(Face::Down)
        } else if same(w, "north") {
            Ok(Face::North)
        } else if same(w, "south") {
            Ok(Face::South)
        } else if same(w, "east") {
            Ok(Face::East)
        } else if same(w, "west") {
            Ok(Face::West)
        } else {
            Err(ParseError::UnknownFace)
        }
    }
}

impl Gamemode {
    /// The game mode that the word at index `at` names.
    pub open spec fn spec_parse(words: Seq<Seq<char>>, at: int) -> Result<Gamemode, ParseError> {
        let w = word(words, at);
        if w == Some("survival"@) {
            Ok(Gamemode::Survival)
        } else if w == Some("creative"@) {
            Ok(Gamemode::Creative)
        } else if w == Some("adventure"@) {
            Ok(Gamemode::Adventure)
        } else if w == Some("spectator"@) {
            Ok(Gamemode::Spectator)
        } else {
            Err(ParseError::UnknownGamemode)
        }
    }

    /// Reads a game mode from the word at index `at`.
    pub fn parse(words: &Vec<&str>, at: usize) -> (mode: Result<Gamemode, ParseError>)
        ensures
            mode == Gamemode::spec_parse(views(words@), at as int),
    {
        let w = match nth(words, at, 0) {
            Some(w) => w,
            None => {
                return Err(ParseError::UnknownGamemode);
            },
        };
        if same(w, "survival") {
            Ok(Gamemode::Survival)
        } else if same(w, "creative") {
            Ok(Gamemode::Creative)
        } else if same(w, "adventure") {
            Ok(Gamemode::Adventure)
        } else if same(w, "spectator") {
            Ok(Gamemode::Spectator)
        } else {
            Err(ParseError::UnknownGamemode)
        }
    }
}

impl Position {
    /// The position that the three words from index `at` on write: x, y
    /// and z. The first word that is missing or no number decides the
    /// error.
    pub open spec fn spec_parse(words: Seq<Seq<char>>, at: int) -> Result<Position, ParseError> {
        match i32_at(words, at) {
            Err(e) => Err(e),
            Ok(x) => match i32_at(words, at + 1) {
                Err(e) => Err(e),
                Ok(y) => match i32_at(words, at + 2) {
                    Err(e) => Err(e),
                    Ok(z) => Ok(Position { x, y, z }),
                },
            },
        }
    }

    /// Reads a position from the three words from index `at` on.
    pub fn parse(words: &Vec<&str>, at: usize) -> (position: Result<Position, ParseError>)
        ensures
            position == Position::spec_parse(views(words@), at as int),
    {
        let x = parse_i32_at(words, at, 0)?;
        let y = parse_i32_at(words, at, 1)?;
        let z = parse_i32_at(words, at, 2)?;
        Ok(Position { x, y, z })
    }
}

impl Block {
    /// The block that the two words from index `at` on write: `block` and
    /// the name of a kind of block that exists.
    pub open spec fn spec_parse(words: Seq<Seq<char>>, at: int) -> Result<BlockView, ParseError> {
        if !has_keyword(words, at, "block"@) {
            Err(ParseError::MissingKeyword)
        } else {
            match word(words, at + 1) {
                None => Err(ParseError::MissingValue),
                Some(id) => if kind_named(id) is None {
                    Err(ParseError::UnknownBlock)
                } else {
                    Ok(BlockView { id })
                },
            }
        }
    }

    /// Reads a block from the two words from index `at` on.
    pub fn parse(words: &Vec<&str>, at: usize) -> (block: Result<Block, ParseError>)
        ensures
            viewed(block) == Block::spec_parse(views(words@), at as int),
    {
        if !keyword_at(words, at, 0, "block") {
            return Err(ParseError::MissingKeyword);
        }
        match nth(words, at, 1) {
            None => Err(ParseError::MissingValue),
            Some(id) => match BlockKindId::named(id) {
                None => Err(ParseError::UnknownBlock),
                Some(_) => Ok(Block { id: id.to_owned() }),
            },
        }
    }
}

impl InventorySlot {
    /// The content that the six words from index `at` on write: `slot` and
    /// a number, `item` and the name of an item that exists, `count` and a
    /// number.
    pub open spec fn spec_parse(words: Seq<Seq<char>>, at: int) -> Result<
        InventorySlotView,
        ParseError,
    > {
        if !has_keyword(words, at, "slot"@) {
            Err(ParseError::MissingKeyword)
        } else {
            match u16_at(words, at + 1) {
                Err(e) => Err(e),
                Ok(slot) => if !has_keyword(words, at + 2, "item"@) {
                    Err(ParseError::MissingKeyword)
                } else {
                    match item_at(words, at + 3) {
                        Err(e) => Err(e),
                        Ok(item) => if !has_keyword(words, at + 4, "count"@) {
                            Err(ParseError::MissingKeyword)
                        } else {
                            match i8_at(words, at + 5) {
                                Err(e) => Err(e),
                                Ok(count) => Ok(InventorySlotView { slot, item, count }),
                            }
                        },
                    }
                },
            }
        }
    }

    /// Reads the content of a slot from the six words from index `at` on.
    pub fn parse(words: &Vec<&str>, at: usize) -> (content: Result<InventorySlot, ParseError>)
        ensures
            viewed(content) == InventorySlot::spec_parse(views(words@), at as int),
    {
        if !keyword_at(words, at, 0, "slot") {
            return Err(ParseError::MissingKeyword);
        }
        let slot = parse_u16_at(words, at, 1)?;
        if !keyword_at(words, at, 2, "item") {
            return Err(ParseError::MissingKeyword);
        }
        let item = parse_item_at(words, at, 3)?;
        if !keyword_at(words, at, 4, "count") {
            return Err(ParseError::MissingKeyword);
        }
        let count = parse_i8_at(words, at, 5)?;
        Ok(InventorySlot { slot, item, count })
    }
}

impl Setting {
    /// The `set` statement that the words from index `at` on write, which
    /// are the last of the line.
    pub open spec fn spec_parse(words: Seq<Seq<char>>, at: int) -> Result<SettingView, ParseError> {
        let w = word(words, at);
        if w == Some("gamemode"@) {
            ended(
                words,
                at + 2,
                match Gamemode::spec_parse(words, at + 1) {
                    Ok(mode) => Ok(SettingView::Gamemode(mode)),
                    Err(e) => Err(e),
                },
            )
        } else if w == Some("inventory"@) {
            ended(
                words,
                at + 7,
                match InventorySlot::spec_parse(words, at + 1) {
                    Ok(content) => Ok(SettingView::Inventory(content)),
                    Err(e) => Err(e),
                },
            )
        } else if w == Some("held_item"@) {
            ended(
                words,
                at + 2,
                match u16_at(words, at + 1) {
                    Ok(slot) => Ok(SettingView::HeldItem(slot)),
                    Err(e) => Err(e),
                },
            )
        } else {
            Err(ParseError::UnknownCommand)
        }
    }

    /// Reads a `set` statement from the words from index `at` on, which
    /// follow the word `set`.
    pub fn parse(words: &Vec<&str>, at: usize) -> (setting: Result<Setting, ParseError>)
        ensures
            viewed(setting) == Setting::spec_parse(views(words@), at as int),
    {
        let next = ahead(words, at, 1);
        if keyword_at(words, at, 0, "gamemode") {
            let mode = Gamemode::parse(words, next)?;
            if word_at(words, at, 2) {
                return Err(ParseError::UnexpectedWord);
            }
            Ok(Setting::Gamemode(mode))
        } else if keyword_at(words, at, 0, "inventory") {
            let content = InventorySlot::parse(words, next)?;
            if word_at(words, at, 7) {
                return Err(ParseError::UnexpectedWord);
            }
            Ok(Setting::Inventory(content))
        } else if keyword_at(words, at, 0, "held_item") {
            let slot = parse_u16_at(words, at, 1)?;
            if word_at(words, at, 2) {
                return Err(ParseError::UnexpectedWord);
            }
            Ok(Setting::HeldItem(slot))
        } else {
            Err(ParseError::UnknownCommand)
        }
    }
}

/// The content that an `assert inventory` statement expects of a slot, read
/// from the words from index `at` on, which are the last of the line:
/// `empty`, or `item` and the name of an item that exists, `count` and a
/// number.
pub open spec fn expected_content(words: Seq<Seq<char>>, at: int) -> Result<
    Option<(Seq<char>, i8)>,
    ParseError,
> {
    match word(words, at) {
        None => Err(ParseError::MissingValue),
        Some(w) => if w == "empty"@ {
            ended(words, at + 1, Ok(None))
        } else if w != "item"@ {
            Err(ParseError::MissingKeyword)
        } else {
            match item_at(words, at + 1) {
                Err(e) => Err(e),
                Ok(item) => if !has_keyword(words, at + 2, "count"@) {
                    Err(ParseError::MissingKeyword)
                } else {
                    ended(
                        words,
                        at + 4,
                        match i8_at(words, at + 3) {
                            Err(e) => Err(e),
                            Ok(count) => Ok(Some((item, count))),
                        },
                    )
                },
            }
        },
    }
}

impl Assert {
    /// The `assert` statement that the words from index `at` on write,
    /// which are the last of the line.
    pub open spec fn spec_parse(words: Seq<Seq<char>>, at: int) -> Result<AssertView, ParseError> {
        let w = word(words, at);
        if w == Some("position"@) {
            match Position::spec_parse(words, at + 1) {
                Err(e) => Err(e),
                Ok(position) => ended(
                    words,
                    at + 6,
                    match Block::spec_parse(words, at + 4) {
                        Err(e) => Err(e),
                        Ok(block) => Ok(AssertView::Position(position, block)),
                    },
                ),
            }
        } else if w == Some("inventory"@) {
            if !has_keyword(words, at + 1, "slot"@) {
                Err(ParseError::MissingKeyword)
            } else {
                match u16_at(words, at + 2) {
                    Err(e) => Err(e),
                    Ok(slot) => match expected_content(words, at + 3) {
                        Err(e) => Err(e),
                        Ok(content) => Ok(AssertView::Inventory(slot, content)),
                    },
                }
            }
        } else {
            Err(ParseError::UnknownCommand)
        }
    }

    /// Reads an `assert` statement from the words from index `at` on, which
    /// follow the word `assert`.
    pub fn parse(words: &Vec<&str>, at: usize) -> (assert: Result<Assert, ParseError>)
        ensures
            viewed(assert) == Assert::spec_parse(views(words@), at as int),
    {
        if keyword_at(words, at, 0, "position") {
            let position = Position::parse(words, ahead(words, at, 1))?;
            let block = Block::parse(words, ahead(words, at, 4))?;
            if word_at(words, at, 6) {
                return Err(ParseError::UnexpectedWord);
            }
            Ok(Assert::Position(position, block))
        } else if keyword_at(words, at, 0, "inventory") {
            if !keyword_at(words, at, 1, "slot") {
                return Err(ParseError::MissingKeyword);
            }
            let slot = parse_u16_at(words, at, 2)?;
            let next = match nth(words, at, 3) {
                None => {
                    return Err(ParseError::MissingValue);
                },
                Some(next) => next,
            };
            if same(next, "empty") {
                if word_at(words, at, 4) {
                    return Err(ParseError::UnexpectedWord);
                }
                return Ok(Assert::Inventory(slot, None));
            }
            if !same(next, "item") {
                return Err(ParseError::MissingKeyword);
            }
            let item = parse_item_at(words, at, 4)?;
            if !keyword_at(words, at, 5, "count") {
                return Err(ParseError::MissingKeyword);
            }
            let count = parse_i8_at(words, at, 6)?;
            if word_at(words, at, 7) {
                return Err(ParseError::UnexpectedWord);
            }
            Ok(Assert::Inventory(slot, Some((item, count))))
        } else {
            Err(ParseError::UnknownCommand)
        }
    }
}

impl Interact {
    /// The `interact` statement that the words from index `at` on write,
    /// which are the last of the line: `position` and three numbers, `face`
    /// and the name of a face.
    pub open spec fn spec_parse(words: Seq<Seq<char>>, at: int) -> Result<Interact, ParseError> {
        if !has_keyword(words, at, "position"@) {
            Err(ParseError::MissingKeyword)
        } else {
            match Position::spec_parse(words, at + 1) {
                Err(e) => Err(e),
                Ok(position) => if !has_keyword(words, at + 4, "face"@) {
                    Err(ParseError::MissingKeyword)
                } else {
                    ended(
                        words,
                        at + 6,
                        match Face::spec_parse(words, at + 5) {
                            Err(e) => Err(e),
                            Ok(face) => Ok(Interact { position, face }),
                        },
                    )
                },
            }
        }
    }

    /// Reads an `interact` statement from the words from index `at` on,
    /// which follow the word `interact`.
    pub fn parse(words: &Vec<&str>, at: usize) -> (interact: Result<Interact, ParseError>)
        ensures
            interact == Interact::spec_parse(views(words@), at as int),
    {
        if !keyword_at(words, at, 0, "position") {
            return Err(ParseError::MissingKeyword);
        }
        let position = Position::parse(words, ahead(words, at, 1))?;
        if !keyword_at(words, at, 4, "face") {
            return Err(ParseError::MissingKeyword);
        }
        let face = Face::parse(words, ahead(words, at, 5))?;
        if word_at(words, at, 6) {
            return Err(ParseError::UnexpectedWord);
        }
        Ok(Interact { position, face })
    }
}

impl Line {
    /// The statement that `line` writes. Its first word names the
    /// statement; the words that follow are the statement's own.
    pub open spec fn spec_parse(line: Seq<char>) -> Result<LineView, ParseError> {
        let words = pieces(line, Separator::Space);
        let w = word(words, 0);
        if w == Some("set"@) {
            match Setting::spec_parse(words, 1) {
                Ok(setting) => Ok(LineView::Setting(setting)),
                Err(e) => Err(e),
            }
        } else if w == Some("assert"@) {
            match Assert::spec_parse(words, 1) {
                Ok(assert) => Ok(LineView::Assert(assert)),
                Err(e) => Err(e),
            }
        } else if w == Some("interact"@) {
            match Interact::spec_parse(words, 1) {
                Ok(interact) => Ok(LineView::Interact(interact)),
                Err(e) => Err(e),
            }
        } else {
            Err(ParseError::UnknownCommand)
        }
    }

    /// Reads a statement from a line.
    pub fn parse(input: &str) -> (line: Result<Line, ParseError>)
        ensures
            viewed(line) == Line::spec_parse(input@),
    {
        let words = split(input, Separator::Space);
        if keyword_at(&words, 0, 0, "set") {
            Ok(Line::Setting(Setting::parse(&words, 1)?))
        } else if keyword_at(&words, 0, 0, "assert") {
            Ok(Line::Assert(Assert::parse(&words, 1)?))
        } else if keyword_at(&words, 0, 0, "interact") {
            Ok(Line::Interact(Interact::parse(&words, 1)?))
        } else {
            Err(ParseError::UnknownCommand)
        }
    }
}

/// Whether a line, trimmed, is passed over: it is empty or a comment.
pub open spec fn passed_over(line: Seq<char>) -> bool {
    line.len() == 0 || line[0] == '#'
}

/// The statements of the first lines of a script, or the error of the
/// first line among them that is no statement.
pub open spec fn statements(lines: Seq<Seq<char>>) -> Result<Seq<LineView>, ParseError>
    decreases lines.len(),
{
    if lines.len() == 0 {
        Ok(Seq::empty())
    } else {
        match statements(lines.drop_last()) {
            Err(e) => Err(e),
            Ok(before) => {
                let line = trimmed(lines.last());
                if passed_over(line) {
                    Ok(before)
                } else {
                    match Line::spec_parse(line) {
                        Err(e) => Err(e),
                        Ok(statement) => Ok(before.push(statement)),
                    }
                }
            },
        }
    }
}

/// The statements of a script in the order of its lines, or the error of
/// its first line that is no statement.
pub open spec fn spec_parse(input: Seq<char>) -> Result<Seq<LineView>, ParseError> {
    statements(pieces(input, Separator::LineFeed))
}

/// An error among the first lines is the error of the whole.
proof fn lemma_first_error_stays(lines: Seq<Seq<char>>, n: int)
    requires
        0 <= n <= lines.len(),
        statements(lines.take(n)) is Err,
    ensures
        statements(lines) == statements(lines.take(n)),
    decreases lines.len() - n,
{
    if n < lines.len() {
        assert(lines.take(n + 1).drop_last() =~= lines.take(n));
        lemma_first_error_stays(lines, n + 1);
    } else {
        assert(lines.take(n) =~= lines);
    }
}

/// Reads a script: every line that is not empty and no comment is a
/// statement. Nothing is returned of a script with a line that is none.
pub fn parse(input: &str) -> (lines: Result<Vec<Line>, ParseError>)
    ensures
        match lines {
            Ok(lines) => spec_parse(input@) == Ok::<Seq<LineView>, ParseError>(line_views(lines@)),
            Err(e) => spec_parse(input@) == Err::<Seq<LineView>, ParseError>(e),
        },
{
    let raw = split(input, Separator::LineFeed);
    let ghost all = views(raw@);
    let mut lines: Vec<Line> = Vec::new();
    let mut i: usize = 0;
    assert(all.take(0) =~= Seq::<Seq<char>>::empty());
    assert(line_views(lines@) =~= Seq::<LineView>::empty());
    while i < raw.len()
        invariant
            i <= raw.len(),
            all == views(raw@),
            all == pieces(input@, Separator::LineFeed),
            statements(all.take(i as int)) == Ok::<Seq<LineView>, ParseError>(line_views(lines@)),
        decreases raw.len() - i,
    {
        let line = trim(raw[i]);
        proof {
            assert(all.take(i + 1).drop_last() =~= all.take(i as int));
            assert(all.take(i + 1).last() == raw@[i as int]@);
        }
        let comment = line.unicode_len() > 0 && line.get_char(0) == '#';
        if line.unicode_len() > 0 && !comment {
            match Line::parse(line) {
                Err(e) => {
                    proof {
                        lemma_first_error_stays(all, i + 1);
                    }
                    return Err(e);
                },
                Ok(statement) => {
                    let ghost before = lines@;
                    lines.push(statement);
                    proof {
                        assert(line_views(lines@) =~= line_views(before).push(statement@));
                    }
                },
            }
        }
        i += 1;
    }
    assert(all.take(i as int) =~= all);
    Ok(lines)
}

} // verus!
