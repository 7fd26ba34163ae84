//! The main menu: what a line of input selects from it.

use vstd::prelude::*;
use crate::number::{parse_i32, signed_literal, within_i32};
use crate::text::{trim, trimmed};

verus! {

/// The actions of the main menu, in the order in which it numbers them from 1.
#[derive(Debug, Clone, Copy, PartialEq, Eq, Structural)]
pub enum MenuChoice {
    Add,
    Remove,
    ViewAll,
    ViewCompleted,
    ViewPending,
    MarkComplete,
    ChangePriority,
    Exit,
}

/// What a line of input selects from the menu.
#[derive(Debug, Clone, Copy, PartialEq, Eq, Structural)]
pub enum Selection {
    /// The line is the number of an action.
    Chosen(MenuChoice),
    /// The line is a number, but no action has it.
    OutOfRange,
    /// The line is not a number that 32 bits with a sign hold.
    NotANumber,
}

/// The action that the menu numbers `n`.
pub open spec fn choice_numbered(n: int) -> Option<MenuChoice> {
    if n == 1 {
        Some(MenuChoice::Add)
    } else if n == 2 {
        Some(MenuChoice::Remove)
    } else if n == 3 {
        Some(MenuChoice::ViewAll)
    } else if n == 4 {
        Some(MenuChoice::ViewCompleted)
    } else if n == 5 {
        Some(MenuChoice::ViewPending)
    } else if n == 6 {
        Some(MenuChoice::MarkComplete)
    } else if n == 7 {
        Some(MenuChoice::ChangePriority)
    } else if n == 8 {
        Some(MenuChoice::Exit)
    } else {
        None
    }
}

/// What `line` selects: the white space around it counts for nothing, and
/// what is left is read as a numeral with or without a sign.
pub open spec fn selection_of(line: Seq<char>) -> Selection {
    match within_i32(signed_literal(trimmed(line))) {
        Some(n) => match choice_numbered(n as int) {
            Some(choice) => Selection::Chosen(choice),
            None => Selection::OutOfRange,
        },
        None => Selection::NotANumber,
    }
}

/// A line selects an action exactly where it is, white space aside, a numeral
/// for a number from 1 to 8.
pub proof fn lemma_selection_range(line: Seq<char>)
    ensures
        selection_of(line) is Chosen <==> exists|n: int|
            1 <= n <= 8 && signed_literal(trimmed(line)) == Some(n),
{
    if selection_of(line) is Chosen {
        let n = signed_literal(trimmed(line))->0;
        assert(1 <= n <= 8 && signed_literal(trimmed(line)) == Some(n));
    }
}

/// Reads a line of input as a selection from the menu.
pub fn select(line: &str) -> (selection: Selection)
    ensures
        selection == selection_of(line@),
{
    match parse_i32(trim(line)) {
        Some(1) => Selection::Chosen(MenuChoice::Add),
        Some(2) => Selection::Chosen(MenuChoice::Remove),
        Some(3) => Selection::Chosen(MenuChoice::ViewAll),
        Some(4) => Selection::Chosen(MenuChoice::ViewCompleted),
        Some(5) => Selection::Chosen(MenuChoice::ViewPending),
        Some(6) => Selection::Chosen(MenuChoice::MarkComplete),
        Some(7) => Selection::Chosen(MenuChoice::ChangePriority),
        Some(8) => Selection::Chosen(MenuChoice::Exit),
        Some(_) => Selection::OutOfRange,
        None => Selection::NotANumber,
    }
}

} // verus!
