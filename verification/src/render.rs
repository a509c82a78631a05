//! The gallows figure shown after each wrong guess.

use vstd::prelude::*;

verus! {

use vstd::string::StringExecFns;

/// The drawing stage for a count of wrong guesses: the count itself up to
/// five, and the final stage for six or more.
pub open spec fn spec_hangman_stage(num_wrong_guesses: int) -> int {
    if num_wrong_guesses >= 6 {
        6
    } else {
        num_wrong_guesses
    }
}

/// The text of the gallows figure at each stage: an empty gallows at stage
/// zero, one more body part per stage, the complete figure at stage six.
pub open spec fn spec_hangman_art(stage: int) -> Seq<char> {
    if stage <= 0 {
        "  _______\n |       |\n |\n |\n |\n |\n_|___"@
    } else if stage == 1 {
        "  _______\n |       |\n |       O\n |\n |\n |\n_|___"@
    } else if stage == 2 {
        "  _______\n |       |\n |       O\n |       |\n |\n |\n_|___"@
    } else if stage == 3 {
        "  _______\n |       |\n |       O\n |      /|\n |\n |\n_|___"@
    } else if stage == 4 {
        "  _______\n |       |\n |       O\n |      /|\\\n |\n |\n_|___"@
    } else if stage == 5 {
        "  _______\n |       |\n |       O\n |      /|\\\n |      /\n |\n_|___"@
    } else {
        "  _______\n |       |\n |       O\n |      /|\\\n |      / \\\n |\n_|___"@
    }
}

/// The gallows figure for the given number of wrong guesses, as one string
/// of seven lines; every count of six or more yields the final, complete
/// figure.
pub fn hangman_art(num_wrong_guesses: u32) -> (r: String)
    ensures
        r@ == spec_hangman_art(spec_hangman_stage(num_wrong_guesses as int)),
{
    if num_wrong_guesses == 0 {
        String::from_str("  _______\n |       |\n |\n |\n |\n |\n_|___")
    } else if num_wrong_guesses == 1 {
        String::from_str("  _______\n |       |\n |       O\n |\n |\n |\n_|___")
    } else if num_wrong_guesses == 2 {
        String::from_str("  _______\n |       |\n |       O\n |       |\n |\n |\n_|___")
    } else if num_wrong_guesses == 3 {
        String::from_str("  _______\n |       |\n |       O\n |      /|\n |\n |\n_|___")
    } else if num_wrong_guesses == 4 {
        String::from_str("  _______\n |       |\n |       O\n |      /|\\\n |\n |\n_|___")
    } else if num_wrong_guesses == 5 {
        String::from_str("  _______\n |       |\n |       O\n |      /|\\\n |      /\n |\n_|___")
    } else {
        String::from_str("  _______\n |       |\n |       O\n |      /|\\\n |      / \\\n |\n_|___")
    }
}

} // verus!
