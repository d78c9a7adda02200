use session_engine::dice::{
    evaluate, parse_dice, roll_dice, DiceError, DiceExpr, DiceRoll,
};

#[test]
fn parses_count_sides_and_modifier() {
    assert_eq!(parse_dice("2d6+3"), Ok(DiceExpr { count: 2, sides: 6, modifier: 3 }));
    assert_eq!(parse_dice("1d20"), Ok(DiceExpr { count: 1, sides: 20, modifier: 0 }));
    assert_eq!(parse_dice("10d10+0"), Ok(DiceExpr { count: 10, sides: 10, modifier: 0 }));
    assert_eq!(parse_dice("3d8+-2"), Ok(DiceExpr { count: 3, sides: 8, modifier: -2 }));
}

#[test]
fn a_modifier_must_be_a_number() {
    assert_eq!(parse_dice("2d6+abc"), Err(DiceError::InvalidModifier));
    assert_eq!(parse_dice("2d6+"), Err(DiceError::InvalidModifier));
    assert_eq!(parse_dice("2d6+ 3"), Err(DiceError::InvalidModifier));
    assert_eq!(parse_dice("2d6+3.5"), Err(DiceError::InvalidModifier));
    assert_eq!(parse_dice("2d6+99999999999"), Err(DiceError::InvalidModifier));
    assert_eq!(parse_dice("2d6+1d4"), Err(DiceError::InvalidModifier));
    assert_eq!(roll_dice("2d6+abc"), Err("Invalid dice modifier".to_string()));
}

#[test]
fn there_is_at_most_one_modifier() {
    assert_eq!(parse_dice("2d6+3+4"), Err(DiceError::InvalidFormat));
    assert_eq!(parse_dice("2d6++4"), Err(DiceError::InvalidFormat));
    assert_eq!(parse_dice("2d6+3+"), Err(DiceError::InvalidFormat));
    assert_eq!(
        roll_dice("2d6+3+4"),
        Err("Invalid dice format. Use format like '2d6+3'".to_string())
    );
}

#[test]
fn the_modifier_may_be_negative_or_zero() {
    assert_eq!(parse_dice("2d6+-3"), Ok(DiceExpr { count: 2, sides: 6, modifier: -3 }));
    assert_eq!(parse_dice("2d6+0"), Ok(DiceExpr { count: 2, sides: 6, modifier: 0 }));
    assert_eq!(parse_dice("2d6+-0"), Ok(DiceExpr { count: 2, sides: 6, modifier: 0 }));
    assert_eq!(
        parse_dice("1d2+-2147483648"),
        Ok(DiceExpr { count: 1, sides: 2, modifier: i32::MIN })
    );
}

#[test]
fn zero_dice_fail_validation() {
    assert_eq!(parse_dice("0d6"), Err(DiceError::NotPositive));
    assert_eq!(roll_dice("0d6"), Err("Dice count and sides must be positive".to_string()));
}

#[test]
fn a_missing_count_fails_validation() {
    assert_eq!(parse_dice("d20"), Err(DiceError::InvalidCount));
    assert_eq!(roll_dice("d20"), Err("Invalid dice count".to_string()));
}

#[test]
fn a_wrong_separator_fails_validation() {
    assert_eq!(parse_dice("2x6"), Err(DiceError::InvalidFormat));
    assert_eq!(
        roll_dice("2x6"),
        Err("Invalid dice format. Use format like '2d6+3'".to_string())
    );
}

#[test]
fn every_parse_error_has_its_input() {
    assert_eq!(parse_dice(""), Err(DiceError::InvalidFormat));
    assert_eq!(parse_dice("20"), Err(DiceError::InvalidFormat));
    assert_eq!(parse_dice("2d6d8"), Err(DiceError::InvalidFormat));
    assert_eq!(parse_dice("2D6"), Err(DiceError::InvalidFormat));
    assert_eq!(parse_dice("+2d6"), Err(DiceError::InvalidFormat));
    assert_eq!(parse_dice("xd6"), Err(DiceError::InvalidCount));
    assert_eq!(parse_dice(" 2d6"), Err(DiceError::InvalidCount));
    assert_eq!(parse_dice("2d"), Err(DiceError::InvalidSides));
    assert_eq!(parse_dice("2dx"), Err(DiceError::InvalidSides));
    assert_eq!(parse_dice("2d6 "), Err(DiceError::InvalidSides));
    assert_eq!(parse_dice("2d0"), Err(DiceError::NotPositive));
    assert_eq!(parse_dice("-2d6"), Err(DiceError::NotPositive));
    assert_eq!(parse_dice("2d-6"), Err(DiceError::NotPositive));
    assert_eq!(parse_dice("0d0"), Err(DiceError::NotPositive));
}

#[test]
fn the_checks_come_in_order() {
    // shape, count, sides, modifier, sign
    assert_eq!(parse_dice("xdy+z+"), Err(DiceError::InvalidFormat));
    assert_eq!(parse_dice("xdy+z"), Err(DiceError::InvalidCount));
    assert_eq!(parse_dice("0dy+z"), Err(DiceError::InvalidSides));
    assert_eq!(parse_dice("0d0+z"), Err(DiceError::InvalidModifier));
    assert_eq!(parse_dice("0d0+1"), Err(DiceError::NotPositive));
    assert_eq!(roll_dice("2dy"), Err("Invalid dice sides".to_string()));
}

#[test]
fn error_messages_are_exact() {
    assert_eq!(DiceError::InvalidFormat.message(), "Invalid dice format. Use format like '2d6+3'");
    assert_eq!(DiceError::InvalidCount.message(), "Invalid dice count");
    assert_eq!(DiceError::InvalidSides.message(), "Invalid dice sides");
    assert_eq!(DiceError::InvalidModifier.message(), "Invalid dice modifier");
    assert_eq!(DiceError::NotPositive.message(), "Dice count and sides must be positive");
    assert_eq!(DiceError::TotalOutOfRange.message(), "Dice total out of range");
}

#[test]
fn evaluate_turns_draws_into_faces_and_a_total() {
    // 0 % 6 + 1 = 1, 5 % 6 + 1 = 6, 6 % 6 + 1 = 1, 4294967295 % 6 + 1 = 4
    let roll = evaluate(6, 3, &vec![0, 5, 6, u32::MAX]);
    assert_eq!(roll, Ok(DiceRoll { total: 15, rolls: vec![1, 6, 1, 4] }));
}

#[test]
fn evaluate_adds_a_negative_modifier() {
    let roll = evaluate(20, -5, &vec![19]);
    assert_eq!(roll, Ok(DiceRoll { total: 15, rolls: vec![20] }));
}

#[test]
fn evaluate_on_a_one_sided_die_always_shows_one() {
    let roll = evaluate(1, 0, &vec![7, 8, 9]);
    assert_eq!(roll, Ok(DiceRoll { total: 3, rolls: vec![1, 1, 1] }));
}

#[test]
fn evaluate_refuses_no_dice_and_no_sides() {
    assert_eq!(evaluate(6, 0, &vec![]), Err(DiceError::NotPositive));
    assert_eq!(evaluate(0, 0, &vec![1]), Err(DiceError::NotPositive));
    assert_eq!(evaluate(-6, 0, &vec![1]), Err(DiceError::NotPositive));
}

#[test]
fn evaluate_reports_a_total_that_does_not_fit() {
    // the face is 2147483647, and one more does not fit
    let draw = (i32::MAX as u32) - 1;
    assert_eq!(evaluate(i32::MAX, 1, &vec![draw]), Err(DiceError::TotalOutOfRange));
    assert_eq!(
        evaluate(i32::MAX, 0, &vec![draw]),
        Ok(DiceRoll { total: i32::MAX, rolls: vec![i32::MAX] })
    );
    assert_eq!(evaluate(i32::MAX, 0, &vec![draw, draw]), Err(DiceError::TotalOutOfRange));
}

#[test]
fn evaluate_reaches_the_lowest_total() {
    assert_eq!(
        evaluate(6, i32::MIN, &vec![0]),
        Ok(DiceRoll { total: i32::MIN + 1, rolls: vec![1] })
    );
}

fn check_roll(count: i32, sides: i32, modifier: i32) {
    let expression = format!("{}d{}+{}", count, sides, modifier);
    for _ in 0..50 {
        let roll = roll_dice(&expression).unwrap();
        assert_eq!(roll.rolls.len(), count as usize);
        for face in &roll.rolls {
            assert!(1 <= *face && *face <= sides, "face {} of d{}", face, sides);
        }
        let sum: i64 = roll.rolls.iter().map(|r| *r as i64).sum();
        assert_eq!(roll.total as i64, sum + modifier as i64);
    }
}

#[test]
fn a_roll_has_count_dice_in_range_and_the_right_total() {
    check_roll(1, 1, 0);
    check_roll(1, 20, 0);
    check_roll(2, 6, 3);
    check_roll(8, 4, -10);
    check_roll(100, 100, 1000);
    check_roll(3, 2, -2147483000);
}

#[test]
fn a_roll_without_modifier_is_the_sum_of_its_dice() {
    for _ in 0..50 {
        let roll = roll_dice("4d6").unwrap();
        assert_eq!(roll.rolls.len(), 4);
        assert_eq!(roll.total, roll.rolls.iter().sum::<i32>());
    }
}

#[test]
fn rolls_vary() {
    // 40 d1000000 that all agree would mean the generator is not consulted
    let first = roll_dice("1d1000000").unwrap();
    let mut differs = false;
    for _ in 0..40 {
        if roll_dice("1d1000000").unwrap() != first {
            differs = true;
        }
    }
    assert!(differs);
}

#[test]
fn a_roll_that_cannot_fit_is_an_error_and_not_a_wrong_total() {
    assert_eq!(roll_dice("1d1+2147483647"), Err("Dice total out of range".to_string()));
    assert_eq!(
        roll_dice("1d1+2147483646"),
        Ok(DiceRoll { total: i32::MAX, rolls: vec![1] })
    );
}
