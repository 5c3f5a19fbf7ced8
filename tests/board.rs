use repeat_macro::board::{ball_name, board_name, random_tilt, tilt_for_roll, Tilt};

#[test]
fn rolls_select_tilts() {
    assert_eq!(tilt_for_roll(0), Tilt::XPositive);
    assert_eq!(tilt_for_roll(1), Tilt::XNegative);
    assert_eq!(tilt_for_roll(2), Tilt::ZNegative);
    assert_eq!(tilt_for_roll(3), Tilt::ZPositive);
    assert_eq!(tilt_for_roll(4), Tilt::XPositive);
    assert_eq!(tilt_for_roll(127), Tilt::ZPositive);
}

#[test]
fn negative_rolls_select_a_tilt() {
    assert_eq!(tilt_for_roll(-1), Tilt::ZPositive);
    assert_eq!(tilt_for_roll(-2), Tilt::ZNegative);
    assert_eq!(tilt_for_roll(-3), Tilt::XNegative);
    assert_eq!(tilt_for_roll(-4), Tilt::XPositive);
    assert_eq!(tilt_for_roll(-5), Tilt::ZPositive);
    assert_eq!(tilt_for_roll(-128), Tilt::XPositive);
}

#[test]
fn rolls_agree_with_euclidean_remainder() {
    let mut counts = [0usize; 4];
    for roll in i8::MIN..=i8::MAX {
        let expected = match roll.rem_euclid(4) {
            0 => Tilt::XPositive,
            1 => Tilt::XNegative,
            2 => Tilt::ZNegative,
            _ => Tilt::ZPositive,
        };
        assert_eq!(tilt_for_roll(roll), expected);
        counts[roll.rem_euclid(4) as usize] += 1;
    }
    assert_eq!(counts, [64, 64, 64, 64]);
}

#[test]
fn tilt_steps() {
    assert_eq!(Tilt::XPositive.degrees(), (1, 0));
    assert_eq!(Tilt::XNegative.degrees(), (-1, 0));
    assert_eq!(Tilt::ZNegative.degrees(), (0, -1));
    assert_eq!(Tilt::ZPositive.degrees(), (0, 1));
}

#[test]
fn random_tilts_cover_all_four() {
    let mut seen = [false; 4];
    for _ in 0..1000 {
        let i = match random_tilt() {
            Tilt::XPositive => 0,
            Tilt::XNegative => 1,
            Tilt::ZNegative => 2,
            Tilt::ZPositive => 3,
        };
        seen[i] = true;
    }
    assert_eq!(seen, [true; 4]);
}

#[test]
fn entity_names() {
    assert_eq!(board_name(0), "Board0");
    assert_eq!(board_name(1999), "Board1999");
    assert_eq!(ball_name(42), "Ball42");
}
