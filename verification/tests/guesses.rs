use exercises::guess::Guess;
use exercises::guessing::Guess as GameGuess;
use exercises::guessing::Verdict;

#[test]
fn test_guessing() {
    let g = Guess::new(5);
    assert_eq!(5, Guess::get(&g));
}

#[test]
fn guess_boundaries() {
    assert_eq!(1, Guess::get(&Guess::new(1)));
    assert_eq!(100, Guess::get(&Guess::new(100)));
}

#[test]
fn game_guess_verdicts() {
    let g = GameGuess::new(50);
    assert!(matches!(g.check(75), Verdict::TooSmall));
    assert!(matches!(g.check(50), Verdict::Correct));
    assert!(matches!(g.check(25), Verdict::TooBig));
}
