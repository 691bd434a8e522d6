use exercises::art::add_one;
use exercises::art::mix;
use exercises::art::PrimaryColor;
use exercises::art::SecondaryColor;

#[test]
fn add_one_eq() {
    let num = 6;
    let result = add_one(num);
    assert_eq!(num + 1, result);
}

#[test]
fn mix_covers_the_color_wheel() {
    assert!(matches!(
        mix(PrimaryColor::Red, PrimaryColor::Yellow),
        SecondaryColor::Orange
    ));
    assert!(matches!(
        mix(PrimaryColor::Blue, PrimaryColor::Yellow),
        SecondaryColor::Green
    ));
    assert!(matches!(
        mix(PrimaryColor::Red, PrimaryColor::Blue),
        SecondaryColor::Purple
    ));
    assert!(matches!(
        mix(PrimaryColor::Blue, PrimaryColor::Red),
        SecondaryColor::Purple
    ));
}
