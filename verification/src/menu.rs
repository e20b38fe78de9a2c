//! The compression menu: reading the number that the user typed and turning
//! it into one of the three compression options of flate2.

use crate::gzip::{best_level, default_level, fast_level};
use crate::text::{
    all_white_space, law_trim_ignores_surrounding_white_space, parse_u32, read_u32, trim,
    trimmed_chars,
};
use vstd::prelude::*;

verus! {

/// The three entries of the compression menu.
#[derive(PartialEq, Eq, Structural, Clone, Copy, Debug)]
pub enum CompressionChoice {
    /// Entry 1: flate2's default compression.
    Default,
    /// Entry 2: flate2's fastest compression.
    Fastest,
    /// Entry 3: flate2's best compression.
    Best,
}

impl CompressionChoice {
    /// The flate2 compression level of the entry.
    pub open spec fn level_of(self) -> u32 {
        match self {
            CompressionChoice::Default => 6,
            CompressionChoice::Fastest => 1,
            CompressionChoice::Best => 9,
        }
    }

    /// The flate2 compression level of the entry: that of
    /// `Compression::default()`, `Compression::fast()` or `Compression::best()`.
    pub fn level(&self) -> (l: u32)
        ensures
            l == self.level_of(),
            l <= 9,
    {
        match self {
            CompressionChoice::Default => default_level(),
            CompressionChoice::Fastest => fast_level(),
            CompressionChoice::Best => best_level(),
        }
    }
}

/// The menu entry that number `n` selects, if any.
pub open spec fn choice_for(n: u32) -> Option<CompressionChoice> {
    if n == 1 {
        Some(CompressionChoice::Default)
    } else if n == 2 {
        Some(CompressionChoice::Fastest)
    } else if n == 3 {
        Some(CompressionChoice::Best)
    } else {
        None
    }
}

/// The number that a line typed at the menu holds, read as
/// `line.trim().parse::<u32>()` reads it.
pub open spec fn menu_number(line: Seq<char>) -> Option<u32> {
    parse_u32(trim(line))
}

/// The menu entry that a typed line selects: `None` where the line holds no
/// number or a number other than 1, 2 and 3.
pub open spec fn menu_choice(line: Seq<char>) -> Option<CompressionChoice> {
    match menu_number(line) {
        Some(n) => choice_for(n),
        None => None,
    }
}

/// The menu entry that number `n` selects, if any.
pub fn choice_from_number(n: u32) -> (r: Option<CompressionChoice>)
    ensures
        r == choice_for(n),
{
    if n == 1 {
        Some(CompressionChoice::Default)
    } else if n == 2 {
        Some(CompressionChoice::Fastest)
    } else if n == 3 {
        Some(CompressionChoice::Best)
    } else {
        None
    }
}

/// Reads the number from a line typed at the menu: surrounding white space
/// is ignored, then an optional `+` and decimal digits that fit in a `u32`.
pub fn read_menu_number(line: &str) -> (r: Option<u32>)
    ensures
        r == menu_number(line@),
{
    let cs = trimmed_chars(line);
    read_u32(&cs)
}

/// The menu entry that a typed line selects, if any.
pub fn parse_menu_choice(line: &str) -> (r: Option<CompressionChoice>)
    ensures
        r == menu_choice(line@),
{
    match read_menu_number(line) {
        Some(n) => choice_from_number(n),
        None => None,
    }
}

/// The menu entry that a typed line selects, falling back to the default
/// compression where the line selects none; the flag tells whether the line
/// was a valid choice (an invalid one is reported to the user).
pub fn choice_or_default(line: &str) -> (r: (CompressionChoice, bool))
    ensures
        r.1 == menu_choice(line@).is_some(),
        r.0 == (match menu_choice(line@) {
            Some(c) => c,
            None => CompressionChoice::Default,
        }),
{
    match parse_menu_choice(line) {
        Some(c) => (c, true),
        None => (CompressionChoice::Default, false),
    }
}


/// Law: white space typed before or after the number, such as the line
/// feed that ends the line, does not change the entry it selects.
pub proof fn law_menu_ignores_surrounding_white_space(pre: Seq<char>, line: Seq<char>, post: Seq<char>)
    requires
        all_white_space(pre),
        all_white_space(post),
    ensures
        menu_choice(pre + line + post) == menu_choice(line),
        menu_number(pre + line + post) == menu_number(line),
{
    law_trim_ignores_surrounding_white_space(pre, line, post);
}


/// Law: the menu has exactly three entries, numbered 1 to 3: number 1
/// selects the default compression, 2 the fastest, 3 the best, and every
/// other number selects none.
pub proof fn law_menu_entries_one_to_three(n: u32)
    ensures
        choice_for(n) is Some <==> 1 <= n <= 3,
        choice_for(n) == Some(CompressionChoice::Default) <==> n == 1,
        choice_for(n) == Some(CompressionChoice::Fastest) <==> n == 2,
        choice_for(n) == Some(CompressionChoice::Best) <==> n == 3,
{
}


/// Law: the entries are ordered by effort: the fastest entry compresses at
/// flate2's lowest level of the three (1), the best at the highest (9), the
/// default in between (6).
pub proof fn law_menu_levels_by_effort()
    ensures
        CompressionChoice::Fastest.level_of() == 1,
        CompressionChoice::Default.level_of() == 6,
        CompressionChoice::Best.level_of() == 9,
        forall|c: CompressionChoice| CompressionChoice::Fastest.level_of() <= #[trigger] c.level_of()
            <= CompressionChoice::Best.level_of(),
{
}

} // verus!
