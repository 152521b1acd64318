use marsrover::scores::{Score, Scores};
use std::time::SystemTime;

fn board(entries: &[(&str, u16)]) -> Scores {
    Scores { scores: entries.iter().map(|(n, p)| Score::new(n.to_string(), *p)).collect() }
}

fn names(scores: &Scores) -> Vec<(String, u16)> {
    scores.scores.iter().map(|s| (s.name.clone(), s.points)).collect()
}

fn entry(name: &str, points: u16) -> (String, u16) {
    (name.to_string(), points)
}

#[test]
fn new_score_is_made_now() {
    let before = SystemTime::now();
    let score = Score::new("ada".to_string(), 120);
    let after = SystemTime::now();
    assert_eq!(score.name, "ada");
    assert_eq!(score.points, 120);
    assert!(before <= score.timestamp && score.timestamp <= after);
}

#[test]
fn rank_orders_from_the_highest() {
    let mut scores = board(&[("a", 10), ("b", 300), ("c", 4), ("d", 120)]);
    scores.rank(10);
    assert_eq!(names(&scores), vec![entry("b", 300), entry("d", 120), entry("a", 10), entry("c", 4)]);
}

#[test]
fn rank_puts_the_later_of_two_equals_first() {
    let mut scores = board(&[("a", 8), ("b", 8), ("c", 20), ("d", 8), ("e", 20)]);
    scores.rank(10);
    assert_eq!(
        names(&scores),
        vec![entry("e", 20), entry("c", 20), entry("d", 8), entry("b", 8), entry("a", 8)]
    );
}

#[test]
fn rank_agrees_with_a_stable_sort_reversed() {
    let entries: Vec<(String, u16)> =
        (0..40u16).map(|i| (format!("p{}", i), (i * 7919) % 13)).collect();
    let mut scores =
        Scores { scores: entries.iter().map(|(n, p)| Score::new(n.clone(), *p)).collect() };
    scores.rank(100);
    let mut expected = entries.clone();
    expected.sort_by_key(|e| e.1);
    expected.reverse();
    assert_eq!(names(&scores), expected);
}

#[test]
fn rank_keeps_the_best() {
    let mut scores = board(&[("a", 1), ("b", 5), ("c", 3), ("d", 4), ("e", 2)]);
    scores.rank(3);
    assert_eq!(names(&scores), vec![entry("b", 5), entry("d", 4), entry("c", 3)]);
    scores.rank(3);
    assert_eq!(names(&scores), vec![entry("b", 5), entry("d", 4), entry("c", 3)]);
    scores.rank(0);
    assert!(scores.scores.is_empty());
    scores.rank(10);
    assert!(scores.scores.is_empty());
}

#[test]
fn line_of_the_scoreboard() {
    let score = Score::new("ada".to_string(), 120);
    assert_eq!(score.line("28/10/2026 09:30:00"), "28/10/2026 09:30:00\tada:\t\t120 points");
    assert_eq!(Score::new(String::new(), 0).line(""), "\t:\t\t0 points");
    assert_eq!(Score::new("z".to_string(), u16::MAX).line("d"), "d\tz:\t\t65535 points");
    assert_eq!(Score::new("z".to_string(), 10).line("d"), "d\tz:\t\t10 points");
    assert_eq!(Score::new("z".to_string(), 9).line("d"), "d\tz:\t\t9 points");
}
