use reaction_game::game::Game;
use reaction_game::position::{clamp, Pos};
use reaction_game::text::u64_to_string;

#[test]
fn clamp_hits_both_bounds_and_passes_values_through() {
    assert_eq!(clamp(5, 10, 90), 10);
    assert_eq!(clamp(10, 10, 90), 10);
    assert_eq!(clamp(42, 10, 90), 42);
    assert_eq!(clamp(90, 10, 90), 90);
    assert_eq!(clamp(91, 10, 90), 90);
    assert_eq!(clamp(255, 10, 90), 90);
    assert_eq!(clamp(7, 7, 7), 7);
}

#[test]
fn style_places_the_vertical_offset_first() {
    let p = Pos { x: 42, y: 90 };
    assert_eq!(p.to_style(), "top:90vh;left:42vw");
    let q = Pos { x: 10, y: 10 };
    assert_eq!(q.to_style(), "top:10vh;left:10vw");
}

#[test]
fn decimal_rendering_matches_std() {
    assert_eq!(u64_to_string(0), "0");
    assert_eq!(u64_to_string(7), "7");
    assert_eq!(u64_to_string(10), "10");
    assert_eq!(u64_to_string(255), "255");
    assert_eq!(u64_to_string(1000), "1000");
    assert_eq!(u64_to_string(987654321), "987654321");
    assert_eq!(u64_to_string(u64::MAX), format!("{}", u64::MAX));
}

fn with_elapsed(centis: u64) -> Game {
    let mut g = Game::new(50, 50);
    if centis > 0 {
        g.update(reaction_game::game::AppMessage::TargetClick, 50, 50);
        let mut i: u64 = 0;
        while i < centis {
            g.update(reaction_game::game::AppMessage::OnInterval, 0, 0);
            i += 1;
        }
    }
    g
}

#[test]
fn time_text_has_exactly_two_decimals() {
    assert_eq!(with_elapsed(0).time_text(), "0.00");
    assert_eq!(with_elapsed(7).time_text(), "0.07");
    assert_eq!(with_elapsed(50).time_text(), "0.50");
    assert_eq!(with_elapsed(123).time_text(), "1.23");
    assert_eq!(with_elapsed(500).time_text(), "5.00");
    assert_eq!(with_elapsed(999).time_text(), "9.99");
    assert_eq!(with_elapsed(1000).time_text(), "10.00");
    assert_eq!(with_elapsed(2000).time_text(), "10.00");
}
