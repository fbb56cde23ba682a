use guess_the_angle::calendar::{seed, CalendarDate};
use guess_the_angle::controller::{CommitError, RoundController};
use guess_the_angle::guess::parse_guess;
use guess_the_angle::ratio::Ratio;
use guess_the_angle::round::{drawing_plan, generate, Paint, Round, Shape};
use guess_the_angle::scoring::{category_of, score, Category};
use guess_the_angle::verdict::{compose, verdict_of, Verdict};

fn pct(num: u64, den: u64) -> Ratio {
    Ratio { num, den }
}

fn value(r: Ratio) -> f64 {
    r.num as f64 / r.den as f64
}

#[test]
fn seed_is_product_of_date_plus_round() {
    let date = CalendarDate::new(2024, 5, 17).unwrap();
    assert_eq!(seed(&date, 0), 172040);
    assert_eq!(seed(&date, 2), 172042);
}

#[test]
fn seed_of_largest_date_does_not_wrap() {
    let date = CalendarDate::new(u32::MAX, 12, 31).unwrap();
    assert_eq!(seed(&date, 1), u32::MAX as u64 * 372 + 1);
}

#[test]
fn calendar_date_rejects_bad_month_and_day() {
    assert!(CalendarDate::new(2024, 0, 1).is_none());
    assert!(CalendarDate::new(2024, 13, 1).is_none());
    assert!(CalendarDate::new(2024, 1, 0).is_none());
    assert!(CalendarDate::new(2024, 1, 32).is_none());
    assert!(CalendarDate::new(2024, 12, 31).is_some());
}

#[test]
fn exact_guess_is_perfect() {
    for truth in [0u32, 42, 359] {
        let e = score(truth, truth);
        assert_eq!(e.error, 0);
        assert_eq!(value(e.percentage), 100.0);
        assert_eq!(e.category, Category::Perfect);
        assert_eq!(e.points, pct(36000, 1080));
    }
}

#[test]
fn half_turn_miss_is_fifty_percent_error() {
    let e = score(270, 90);
    assert_eq!(e.error, 180);
    assert_eq!(e.percentage, pct(18000, 360));
    assert_eq!(value(e.percentage), 50.0);
    assert_eq!(e.category, Category::Error);
    let e = score(0, 180);
    assert_eq!(e.category, Category::Error);
}

#[test]
fn error_percentage_is_symmetric() {
    for (a, b) in [(10u32, 300u32), (0, 359), (123, 45), (200, 200)] {
        assert_eq!(score(a, b).percentage, score(b, a).percentage);
        assert_eq!(score(a, b).category, score(b, a).category);
    }
}

#[test]
fn error_is_not_taken_around_the_circle() {
    let e = score(359, 1);
    assert_eq!(e.error, 358);
    assert_eq!(e.percentage, pct(200, 360));
    assert_eq!(e.category, Category::Failure);
}

#[test]
fn guess_of_full_turn_is_accepted() {
    let e = score(360, 0);
    assert_eq!(e.error, 360);
    assert_eq!(e.percentage.num, 0);
    assert_eq!(e.category, Category::Failure);
    assert_eq!(e.points.num, 0);
}

#[test]
fn category_band_edges() {
    assert_eq!(category_of(&pct(3333, 100)), Category::Failure);
    assert_eq!(category_of(&pct(3334, 100)), Category::Error);
    assert_eq!(category_of(&pct(6666, 100)), Category::Error);
    assert_eq!(category_of(&pct(6667, 100)), Category::Almost);
    assert_eq!(category_of(&pct(90, 1)), Category::Almost);
    assert_eq!(category_of(&pct(9499, 100)), Category::Failure);
    assert_eq!(category_of(&pct(95, 1)), Category::Good);
    assert_eq!(category_of(&pct(9999, 100)), Category::Good);
    assert_eq!(category_of(&pct(100, 1)), Category::Perfect);
    assert_eq!(category_of(&pct(0, 1)), Category::Failure);
}

#[test]
fn scored_categories_from_guesses() {
    // error 18 gives 95 percent exactly
    assert_eq!(score(18, 0).category, Category::Good);
    // error 19 gives about 94.72 percent: the gap band
    assert_eq!(score(19, 0).category, Category::Failure);
    // error 36 gives 90 percent exactly
    assert_eq!(score(36, 0).category, Category::Almost);
    // error 120 gives 66.67 percent
    assert_eq!(score(120, 0).category, Category::Almost);
    // error 240 gives 33.34 percent
    assert_eq!(score(240, 0).category, Category::Error);
    assert_eq!(score(241, 0).category, Category::Failure);
}

#[test]
fn points_are_a_third_of_the_percentage() {
    let e = score(100, 10);
    assert_eq!(e.percentage, pct(27000, 360));
    assert_eq!(e.points, pct(27000, 1080));
    assert_eq!(e.points.hundredths(), 2500);
    assert_eq!(score(0, 0).points.hundredths(), 3333);
    assert_eq!(score(1, 0).points.hundredths(), 3324);
}

#[test]
fn hundredths_round_halves_up() {
    assert_eq!(pct(1, 200).hundredths(), 1);
    assert_eq!(pct(1, 201).hundredths(), 0);
    assert_eq!(pct(3, 1).hundredths(), 300);
}

#[test]
fn same_seed_gives_same_round() {
    for s in [0u64, 1, 172040, u64::MAX] {
        let a = generate(s, 1);
        let b = generate(s, 1);
        assert_eq!(a, b);
        assert_eq!(a.index, 1);
        assert!(a.true_angle < 360);
        assert!(a.offset < 360);
    }
}

#[test]
fn same_date_gives_same_game() {
    let date = CalendarDate::new(2025, 3, 9).unwrap();
    let a = RoundController::new(&date);
    let b = RoundController::new(&date);
    for i in 0..3 {
        assert_eq!(a.round(i), b.round(i));
        assert_eq!(a.round(i).index as usize, i);
        assert_eq!(a.round(i), generate(seed(&date, i as u32), i as u32));
    }
}

#[test]
fn drawing_plan_below_half_turn_clips_the_wedge() {
    let plan = drawing_plan(90);
    assert_eq!(
        plan,
        vec![
            Shape::Disc { radius: 50, paint: Paint::Plain },
            Shape::ClippedDisc { radius: 25, paint: Paint::Red },
            Shape::Disc { radius: 24, paint: Paint::Black },
            Shape::Ray { second: false },
            Shape::Ray { second: true },
        ]
    );
}

#[test]
fn drawing_plan_from_half_turn_paints_the_triangle_over() {
    for angle in [180u32, 359] {
        let plan = drawing_plan(angle);
        assert_eq!(
            plan,
            vec![
                Shape::Disc { radius: 50, paint: Paint::Plain },
                Shape::Disc { radius: 25, paint: Paint::Red },
                Shape::Disc { radius: 24, paint: Paint::Black },
                Shape::Triangle { paint: Paint::Black },
                Shape::Ray { second: false },
                Shape::Ray { second: true },
            ]
        );
    }
}

#[test]
fn parse_guess_accepts_digits_up_to_full_turn() {
    assert_eq!(parse_guess("0"), Some(0));
    assert_eq!(parse_guess("90"), Some(90));
    assert_eq!(parse_guess("007"), Some(7));
    assert_eq!(parse_guess("360"), Some(360));
    assert_eq!(parse_guess("361"), None);
    assert_eq!(parse_guess("99999999999999999999"), None);
    assert_eq!(parse_guess(""), None);
    assert_eq!(parse_guess("abc"), None);
    assert_eq!(parse_guess("4a"), None);
    assert_eq!(parse_guess("-5"), None);
    assert_eq!(parse_guess("1.5"), None);
}

fn fixed_rounds(truths: [u32; 3]) -> Vec<Round> {
    (0..3)
        .map(|i| Round { index: i as u32, true_angle: truths[i], offset: 10 * i as u32 })
        .collect()
}

#[test]
fn start_checks_its_rounds() {
    assert!(RoundController::start(fixed_rounds([1, 2, 3])).is_some());
    let mut bad = fixed_rounds([1, 2, 3]);
    bad[1].true_angle = 360;
    assert!(RoundController::start(bad).is_none());
    let mut swapped = fixed_rounds([1, 2, 3]);
    swapped.swap(0, 1);
    assert!(RoundController::start(swapped).is_none());
    let mut short = fixed_rounds([1, 2, 3]);
    short.pop();
    assert!(RoundController::start(short).is_none());
}

#[test]
fn commit_out_of_order_changes_nothing() {
    let mut c = RoundController::start(fixed_rounds([10, 20, 30])).unwrap();
    assert_eq!(c.commit(1, "20"), Err(CommitError::OutOfSequenceCommit));
    assert_eq!(c.commit(2, "30"), Err(CommitError::OutOfSequenceCommit));
    assert_eq!(c.active(), 0);
    assert!(c.score_of(0).is_none());
    assert!(c.score_of(1).is_none());
    assert!(c.result().is_none());
}

#[test]
fn malformed_guess_leaves_round_open() {
    let mut c = RoundController::start(fixed_rounds([10, 20, 30])).unwrap();
    assert_eq!(c.commit(0, "abc"), Err(CommitError::InvalidGuessFormat));
    assert_eq!(c.commit(0, "361"), Err(CommitError::InvalidGuessFormat));
    assert_eq!(c.commit(0, ""), Err(CommitError::InvalidGuessFormat));
    assert_eq!(c.active(), 0);
    assert_eq!(c.commit(0, "12"), Ok(score(12, 10)));
    assert_eq!(c.active(), 1);
    assert_eq!(c.commit(1, "x"), Err(CommitError::InvalidGuessFormat));
    assert_eq!(c.score_of(0), Some(score(12, 10)));
    assert_eq!(c.active(), 1);
}

#[test]
fn confirmed_round_ignores_second_commit() {
    let mut c = RoundController::start(fixed_rounds([10, 20, 30])).unwrap();
    assert!(c.commit(0, "10").is_ok());
    assert_eq!(c.commit(0, "11"), Err(CommitError::OutOfSequenceCommit));
    assert_eq!(c.score_of(0), Some(score(10, 10)));
}

#[test]
fn full_game_on_date() {
    let date = CalendarDate::new(2024, 5, 17).unwrap();
    let mut c = RoundController::new(&date);
    let guesses = ["90", "180", "45"];
    let values = [90u32, 180, 45];
    for i in 0..3 {
        assert!(!c.is_finished());
        assert!(c.result().is_none());
        let truth = c.round(i).true_angle;
        let entry = c.commit(i, guesses[i]).unwrap();
        assert_eq!(entry, score(values[i], truth));
    }
    assert!(c.is_finished());
    assert_eq!(c.commit(2, "45"), Err(CommitError::OutOfSequenceCommit));
    let entries: Vec<_> = (0..3).map(|i| c.score_of(i).unwrap()).collect();
    let result = c.result().unwrap();
    assert_eq!(result, compose(&entries));
    assert_eq!(
        result.total.num,
        entries[0].points.num + entries[1].points.num + entries[2].points.num
    );
    assert_eq!(result.total.den, 1080);
    assert_eq!(result.verdict, verdict_of(&result.total));
    let t = result.total.num as f64 / 1080.0;
    match result.verdict {
        Verdict::Cheating => assert_eq!(result.total.num, 108000),
        Verdict::Band { decile } => {
            assert!(10.0 * decile as f64 <= t && t <= 10.0 * decile as f64 + 10.0);
            assert!(decile == 0 || t > 10.0 * decile as f64);
        }
        Verdict::Lost => panic!("a total of three rounds is at most 100"),
    }
}

#[test]
fn full_marks_is_cheating() {
    let mut c = RoundController::start(fixed_rounds([5, 250, 359])).unwrap();
    c.commit(0, "5").unwrap();
    c.commit(1, "250").unwrap();
    c.commit(2, "359").unwrap();
    let result = c.result().unwrap();
    assert_eq!(result.total, pct(108000, 1080));
    assert_eq!(result.verdict, Verdict::Cheating);
    assert_eq!(result.verdict.title(), "Wow, cheating in a game like that? Really?");
}

#[test]
fn nearly_full_marks_is_top_band() {
    let entries = vec![score(5, 5), score(250, 250), score(358, 359)];
    let result = compose(&entries);
    assert_eq!(result.total.num, 36000 + 36000 + 35900);
    assert_eq!(result.verdict, Verdict::Band { decile: 9 });
    assert_eq!(result.verdict.title(), "Not bad for a blind person");
}

#[test]
fn verdict_bands_first_match_wins() {
    assert_eq!(verdict_of(&pct(0, 1)), Verdict::Band { decile: 0 });
    assert_eq!(verdict_of(&pct(10, 1)), Verdict::Band { decile: 0 });
    assert_eq!(verdict_of(&pct(1001, 100)), Verdict::Band { decile: 1 });
    assert_eq!(verdict_of(&pct(45, 1)), Verdict::Band { decile: 4 });
    assert_eq!(verdict_of(&pct(90, 1)), Verdict::Band { decile: 8 });
    assert_eq!(verdict_of(&pct(9999, 100)), Verdict::Band { decile: 9 });
    assert_eq!(verdict_of(&pct(100, 1)), Verdict::Cheating);
    assert_eq!(verdict_of(&pct(10001, 100)), Verdict::Lost);
}

#[test]
fn verdict_titles() {
    assert_eq!(Verdict::Band { decile: 0 }.title(), "Do you have a humiliation kink?");
    assert_eq!(Verdict::Band { decile: 2 }.title(), "Nice, your score matches your IQ");
    assert_eq!(Verdict::Band { decile: 5 }.title(), "My dog plays better than you");
    assert_eq!(
        Verdict::Lost.title(),
        "I lost your score but it was probably bad anyway"
    );
}

#[test]
fn worst_game_is_lowest_band() {
    let entries = vec![score(360, 0), score(0, 359), score(1, 359)];
    let result = compose(&entries);
    assert_eq!(result.total.num, 0 + 100 + 200);
    assert_eq!(result.verdict, Verdict::Band { decile: 0 });
}

#[test]
fn category_labels() {
    assert_eq!(Category::Perfect.label(), "perfect");
    assert_eq!(Category::Good.label(), "good");
    assert_eq!(Category::Almost.label(), "almost");
    assert_eq!(Category::Error.label(), "error");
    assert_eq!(Category::Failure.label(), "failure");
}
