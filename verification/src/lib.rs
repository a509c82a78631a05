//! A verified core for a terminal Hangman game.
//!
//! The library holds the game's rules: masking the secret word against the
//! guessed letters, judging wins and losses, applying letter and whole-word
//! guesses to the game state, classifying player input, picking the secret
//! word from a candidate list, and rendering the gallows figure. All console
//! and file handling lives outside the library.

pub mod game;
pub mod render;
pub mod words;
