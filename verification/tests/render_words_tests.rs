use hangman::render::hangman_art;
use hangman::words::select_word;

#[test]
fn empty_gallows_before_any_wrong_guess() {
    assert_eq!(hangman_art(0), "  _______\n |       |\n |\n |\n |\n |\n_|___");
}

#[test]
fn figure_grows_with_each_wrong_guess() {
    assert_eq!(hangman_art(1), "  _______\n |       |\n |       O\n |\n |\n |\n_|___");
    assert_eq!(hangman_art(2), "  _______\n |       |\n |       O\n |       |\n |\n |\n_|___");
    assert_eq!(hangman_art(3), "  _______\n |       |\n |       O\n |      /|\n |\n |\n_|___");
    assert_eq!(hangman_art(4), "  _______\n |       |\n |       O\n |      /|\\\n |\n |\n_|___");
    assert_eq!(
        hangman_art(5),
        "  _______\n |       |\n |       O\n |      /|\\\n |      /\n |\n_|___"
    );
    assert_eq!(
        hangman_art(6),
        "  _______\n |       |\n |       O\n |      /|\\\n |      / \\\n |\n_|___"
    );
}

#[test]
fn counts_past_six_show_the_complete_figure() {
    assert_eq!(hangman_art(7), hangman_art(6));
    assert_eq!(hangman_art(100), hangman_art(6));
}

#[test]
fn no_word_from_an_empty_list() {
    let words: Vec<String> = Vec::new();
    assert!(select_word(&words).is_none());
}

#[test]
fn selected_word_comes_from_the_list() {
    let words = vec![String::from("cat"), String::from("dog"), String::from("owl")];
    for _ in 0..20 {
        let picked = select_word(&words).expect("list is non-empty");
        assert!(words.contains(&picked));
    }
}

#[test]
fn single_candidate_is_always_picked() {
    let words = vec![String::from("hangman")];
    assert_eq!(select_word(&words), Some(String::from("hangman")));
}
