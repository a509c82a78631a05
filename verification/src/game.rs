//! Game rules: masking the secret word, judging a win, and the per-turn
//! state transition.

use vstd::prelude::*;

verus! {

use vstd::string::StrSliceExecFns;

/// The character shown in place of a letter that has not been guessed yet.
pub const PLACEHOLDER: char = '_';

/// The number of wrong guesses a player may make before losing.
pub const MAX_ATTEMPTS: u32 = 6;

/// The masked rendering of `w` against the guessed letters `g`: each
/// character of `w` stands for itself when it occurs in `g`, and for the
/// placeholder otherwise.
pub open spec fn spec_display(w: Seq<char>, g: Seq<char>) -> Seq<char> {
    Seq::new(w.len(), |i: int| if g.contains(w[i]) { w[i] } else { PLACEHOLDER })
}

/// The game is won when every character of the secret word `w` has been
/// guessed, that is, occurs in `g`.
pub open spec fn spec_is_won(w: Seq<char>, g: Seq<char>) -> bool {
    forall|i: int| 0 <= i < w.len() ==> g.contains(#[trigger] w[i])
}

/// Whether the slice of letters holds `c`.
pub fn contains_char(letters: &[char], c: char) -> (r: bool)
    ensures
        r == letters@.contains(c),
{
    let mut i: usize = 0;
    while i < letters.len()
        invariant
            0 <= i <= letters@.len(),
            forall|j: int| 0 <= j < i ==> letters@[j] != c,
        decreases letters@.len() - i,
    {
        if letters[i] == c {
            return true;
        }
        i += 1;
    }
    false
}

/// Whether the word holds the character `c`.
pub fn word_contains_char(word: &str, c: char) -> (r: bool)
    ensures
        r == word@.contains(c),
{
    let n = word.unicode_len();
    let mut i: usize = 0;
    while i < n
        invariant
            n == word@.len(),
            0 <= i <= n,
            forall|j: int| 0 <= j < i ==> word@[j] != c,
        decreases n - i,
    {
        if word.get_char(i) == c {
            return true;
        }
        i += 1;
    }
    false
}

/// Relies on `core::iter::Iterator::collect` with `String` as the target:
/// collecting characters builds the string of exactly those characters, in
/// order.
#[verifier::external_body]
fn chars_to_string(letters: &Vec<char>) -> (r: String)
    ensures
        r@ == letters@,
{
    letters.iter().collect()
}

/// The masked word shown to the player: each character of the secret word
/// that occurs among the guessed letters appears as itself, every other
/// position as the placeholder.
pub fn display_word(word: &str, guessed_letters: &[char]) -> (r: String)
    ensures
        r@ == spec_display(word@, guessed_letters@),
        r@.len() == word@.len(),
        forall|i: int| 0 <= i < word@.len() ==>
            r@[i] == (if guessed_letters@.contains(#[trigger] word@[i]) {
                word@[i]
            } else {
                PLACEHOLDER
            }),
{
    let n = word.unicode_len();
    let mut out: Vec<char> = Vec::new();
    let mut i: usize = 0;
    while i < n
        invariant
            n == word@.len(),
            0 <= i <= n,
            out@.len() == i,
            forall|j: int| 0 <= j < i ==> out@[j] == spec_display(word@, guessed_letters@)[j],
        decreases n - i,
    {
        let c = word.get_char(i);
        if contains_char(guessed_letters, c) {
            out.push(c);
        } else {
            out.push(PLACEHOLDER);
        }
        i += 1;
    }
    proof {
        assert(out@ =~= spec_display(word@, guessed_letters@));
    }
    chars_to_string(&out)
}

/// True exactly when every letter of the secret word has been guessed.
pub fn is_game_won(word: &str, guessed_letters: &[char]) -> (r: bool)
    ensures
        r == spec_is_won(word@, guessed_letters@),
{
    let n = word.unicode_len();
    let mut i: usize = 0;
    while i < n
        invariant
            n == word@.len(),
            0 <= i <= n,
            forall|j: int| 0 <= j < i ==> guessed_letters@.contains(#[trigger] word@[j]),
        decreases n - i,
    {
        if !contains_char(guessed_letters, word.get_char(i)) {
            return false;
        }
        i += 1;
    }
    true
}

/// The guessed letters joined into one string, in the order they were
/// first tried.
pub fn guessed_letters_text(guessed_letters: &[char]) -> (r: String)
    ensures
        r@ == guessed_letters@,
{
    let mut out: Vec<char> = Vec::new();
    let mut i: usize = 0;
    while i < guessed_letters.len()
        invariant
            0 <= i <= guessed_letters@.len(),
            out@ == guessed_letters@.subrange(0, i as int),
        decreases guessed_letters@.len() - i,
    {
        out.push(guessed_letters[i]);
        i += 1;
        proof {
            assert(out@ =~= guessed_letters@.subrange(0, i as int));
        }
    }
    proof {
        assert(out@ =~= guessed_letters@);
    }
    chars_to_string(&out)
}

/// Each position of the masked display shows the secret word's character
/// exactly when that character has been guessed. This reading holds of
/// words that do not themselves contain the placeholder character.
pub proof fn lemma_display_reveals_iff_guessed(w: Seq<char>, g: Seq<char>)
    requires
        !w.contains(PLACEHOLDER),
    ensures
        spec_display(w, g).len() == w.len(),
        forall|i: int|
            0 <= i < w.len() ==> (spec_display(w, g)[i] == #[trigger] w[i] <==> g.contains(w[i])),
{
    assert forall|i: int|
        0 <= i < w.len() implies (spec_display(w, g)[i] == #[trigger] w[i] <==> g.contains(
        w[i],
    )) by {
        if !g.contains(w[i]) && w[i] == PLACEHOLDER {
            assert(w.contains(PLACEHOLDER));
        }
    }
}

/// The game is won exactly when the guessed letters form a superset of the
/// set of characters of the secret word.
pub proof fn lemma_is_won_iff_superset(w: Seq<char>, g: Seq<char>)
    ensures
        spec_is_won(w, g) <==> w.to_set().subset_of(g.to_set()),
{
    if spec_is_won(w, g) {
        assert forall|c: char| w.to_set().contains(c) implies g.to_set().contains(c) by {
            assert(w.contains(c));
            let i = choose|i: int| 0 <= i < w.len() && w[i] == c;
            assert(g.contains(w[i]));
        }
    }
    if w.to_set().subset_of(g.to_set()) {
        assert forall|i: int| 0 <= i < w.len() implies g.contains(#[trigger] w[i]) by {
            assert(w.contains(w[i]));
            assert(w.to_set().contains(w[i]));
        }
    }
}

/// Whether a character counts as alphabetic when classifying player input.
pub uninterp spec fn is_alpha(c: char) -> bool;

/// Relies on `char::is_alphabetic`: the result depends on the character
/// alone.
#[verifier::external_body]
fn char_is_alphabetic(c: char) -> (r: bool)
    ensures
        r == is_alpha(c),
{
    c.is_alphabetic()
}

/// Every character of `s` is alphabetic.
pub open spec fn spec_all_alpha(s: Seq<char>) -> bool {
    forall|i: int| 0 <= i < s.len() ==> is_alpha(#[trigger] s[i])
}

/// True exactly when every character of `s` is alphabetic.
pub fn all_alphabetic(s: &str) -> (r: bool)
    ensures
        r == spec_all_alpha(s@),
{
    let n = s.unicode_len();
    let mut i: usize = 0;
    while i < n
        invariant
            n == s@.len(),
            0 <= i <= n,
            forall|j: int| 0 <= j < i ==> is_alpha(#[trigger] s@[j]),
        decreases n - i,
    {
        if !char_is_alphabetic(s.get_char(i)) {
            return false;
        }
        i += 1;
    }
    true
}

/// How one trimmed, lowercased input line is read.
#[derive(Clone, Copy, Debug)]
pub enum GuessClass {
    /// A single alphabetic character: a letter guess.
    Letter(char),
    /// More than one character, all alphabetic: a guess at the whole word.
    WholeWord,
    /// Empty, or holding a non-alphabetic character: rejected.
    Invalid,
}

/// Reads an input line as a letter guess, a whole-word guess, or invalid
/// input, exactly as long as it is purely alphabetic and non-empty.
pub fn classify_guess(s: &str) -> (r: GuessClass)
    ensures
        s@.len() == 1 && spec_all_alpha(s@) ==> r == GuessClass::Letter(s@[0]),
        s@.len() > 1 && spec_all_alpha(s@) ==> r == GuessClass::WholeWord,
        s@.len() == 0 || !spec_all_alpha(s@) ==> r == GuessClass::Invalid,
{
    let n = s.unicode_len();
    if n == 1 && all_alphabetic(s) {
        GuessClass::Letter(s.get_char(0))
    } else if n > 1 && all_alphabetic(s) {
        GuessClass::WholeWord
    } else {
        GuessClass::Invalid
    }
}

/// What a single letter guess did to the state.
#[derive(Clone, Copy, Debug, PartialEq, Eq, Structural)]
pub enum LetterOutcome {
    /// The letter was guessed before; nothing changed.
    Repeat,
    /// The letter occurs in the secret word.
    Hit,
    /// The letter does not occur; one attempt was spent.
    Miss,
}

/// What one line of player input did to the game.
#[derive(Clone, Copy, Debug, PartialEq, Eq, Structural)]
pub enum TurnOutcome {
    /// The input was empty or not purely alphabetic; nothing changed.
    Invalid,
    /// The letter was guessed before; nothing changed.
    Repeat,
    /// A letter of the secret word was uncovered, but not the last one.
    Hit,
    /// A wrong guess; attempts remain, the game goes on.
    Miss,
    /// The word is fully revealed, or the whole-word guess matched.
    Won,
    /// A wrong guess spent the last attempt.
    Lost,
}

/// The state of one Hangman game session.
pub struct GameState {
    /// The secret word the player must uncover.
    pub secret: String,
    /// The letters guessed so far, in the order they were first tried.
    pub guessed: Vec<char>,
    /// Wrong guesses still allowed before the game is lost.
    pub attempts: u32,
}

impl GameState {
    /// Attempts never exceed the starting allowance, and no letter is
    /// recorded twice.
    pub open spec fn wf(self) -> bool {
        &&& self.attempts <= MAX_ATTEMPTS
        &&& forall|i: int, j: int|
            0 <= i < j < self.guessed@.len() ==> #[trigger] self.guessed@[i]
                != #[trigger] self.guessed@[j]
    }

    /// A fresh game on the given secret word: no letters guessed, the full
    /// allowance of attempts.
    pub fn new(secret: String) -> (g: GameState)
        ensures
            g.wf(),
            g.secret == secret,
            g.guessed@ == Seq::<char>::empty(),
            g.attempts == MAX_ATTEMPTS,
    {
        GameState { secret, guessed: Vec::new(), attempts: MAX_ATTEMPTS }
    }

    /// How many wrong guesses have been made so far: the spent part of the
    /// attempt allowance, and zero for a state above the allowance.
    pub fn wrong_guesses(&self) -> (n: u32)
        ensures
            n == if self.attempts <= MAX_ATTEMPTS {
                (MAX_ATTEMPTS - self.attempts) as u32
            } else {
                0u32
            },
    {
        if self.attempts <= MAX_ATTEMPTS {
            MAX_ATTEMPTS - self.attempts
        } else {
            0
        }
    }

    /// Applies a single-letter guess. A repeated letter changes nothing; a
    /// new letter is always recorded, and costs an attempt exactly when it
    /// does not occur in the secret word.
    pub fn apply_letter_guess(&mut self, letter: char) -> (r: LetterOutcome)
        requires
            old(self).wf(),
            old(self).attempts > 0,
        ensures
            final(self).wf(),
            final(self).secret == old(self).secret,
            old(self).guessed@.contains(letter) ==> r == LetterOutcome::Repeat
                && *final(self) == *old(self),
            !old(self).guessed@.contains(letter) ==> final(self).guessed@
                == old(self).guessed@.push(letter),
            !old(self).guessed@.contains(letter) && old(self).secret@.contains(letter) ==> r
                == LetterOutcome::Hit && final(self).attempts == old(self).attempts,
            !old(self).guessed@.contains(letter) && !old(self).secret@.contains(letter) ==> r
                == LetterOutcome::Miss && final(self).attempts == old(self).attempts - 1,
    {
        if contains_char(self.guessed.as_slice(), letter) {
            return LetterOutcome::Repeat;
        }
        self.guessed.push(letter);
        if word_contains_char(self.secret.as_str(), letter) {
            LetterOutcome::Hit
        } else {
            self.attempts = self.attempts - 1;
            LetterOutcome::Miss
        }
    }

    /// One round of the game loop: classifies the trimmed, lowercased input
    /// line, applies it, and reports whether the game goes on, is won, or is
    /// lost. Invalid and repeated input leaves the state untouched.
    pub fn play_turn(&mut self, guess: &str) -> (r: TurnOutcome)
        requires
            old(self).wf(),
            old(self).attempts > 0,
            !spec_is_won(old(self).secret@, old(self).guessed@),
        ensures
            final(self).wf(),
            final(self).secret == old(self).secret,
            ({
                let w = old(self).secret@;
                let g = old(self).guessed@;
                let s = guess@;
                if s.len() == 0 || !spec_all_alpha(s) {
                    r == TurnOutcome::Invalid && *final(self) == *old(self)
                } else if s.len() == 1 {
                    if g.contains(s[0]) {
                        r == TurnOutcome::Repeat && *final(self) == *old(self)
                    } else {
                        final(self).guessed@ == g.push(s[0]) && if w.contains(s[0]) {
                            final(self).attempts == old(self).attempts && r == (if spec_is_won(
                                w,
                                g.push(s[0]),
                            ) {
                                TurnOutcome::Won
                            } else {
                                TurnOutcome::Hit
                            })
                        } else {
                            final(self).attempts == old(self).attempts - 1 && r == (if old(
                                self,
                            ).attempts == 1 {
                                TurnOutcome::Lost
                            } else {
                                TurnOutcome::Miss
                            })
                        }
                    }
                } else {
                    if s == w {
                        r == TurnOutcome::Won && *final(self) == *old(self)
                    } else {
                        final(self).guessed == old(self).guessed && final(self).attempts == old(
                            self,
                        ).attempts - 1 && r == (if old(self).attempts == 1 {
                            TurnOutcome::Lost
                        } else {
                            TurnOutcome::Miss
                        })
                    }
                }
            }),
    {
        match classify_guess(guess) {
            GuessClass::Invalid => TurnOutcome::Invalid,
            GuessClass::Letter(c) => {
                match self.apply_letter_guess(c) {
                    LetterOutcome::Repeat => TurnOutcome::Repeat,
                    LetterOutcome::Hit => {
                        if is_game_won(self.secret.as_str(), self.guessed.as_slice()) {
                            TurnOutcome::Won
                        } else {
                            TurnOutcome::Hit
                        }
                    },
                    LetterOutcome::Miss => {
                        if self.attempts == 0 {
                            TurnOutcome::Lost
                        } else {
                            TurnOutcome::Miss
                        }
                    },
                }
            },
            GuessClass::WholeWord => {
                let candidate = guess.to_owned();
                if self.apply_word_guess(&candidate) {
                    TurnOutcome::Won
                } else {
                    if self.attempts == 0 {
                        TurnOutcome::Lost
                    } else {
                        TurnOutcome::Miss
                    }
                }
            },
        }
    }

    /// Applies a guess at the whole word. A correct guess wins and leaves
    /// the state untouched; any other word costs exactly one attempt.
    pub fn apply_word_guess(&mut self, candidate: &String) -> (r: bool)
        requires
            old(self).wf(),
            old(self).attempts > 0,
        ensures
            final(self).wf(),
            final(self).secret == old(self).secret,
            final(self).guessed == old(self).guessed,
            r == (candidate@ == old(self).secret@),
            r ==> *final(self) == *old(self),
            !r ==> final(self).attempts == old(self).attempts - 1,
    {
        if *candidate == self.secret {
            true
        } else {
            self.attempts = self.attempts - 1;
            false
        }
    }
}

} // verus!
