use bjj_lib::{Competitor, CompetitorNumber, CompetitorScore, Match, Points, Team, WinMethod};

fn pair() -> (Competitor, Competitor) {
    let team = Team::new("Analytical Engines");
    let other = Team::new("Compilers");
    (
        Competitor::new("Ada", "Lovelace", &team),
        Competitor::new("Grace", "Hopper", &other),
    )
}

#[test]
fn new_match_has_not_started() {
    let (one, two) = pair();
    let bout = Match::new(one, two);
    assert!(!bout.timer().is_running());
    assert_eq!(bout.timer().duration_seconds(), 300);
    assert_eq!(bout.timer().remaining(), 300_000);
    assert_eq!(bout.score().competitor_one, CompetitorScore::default());
    assert_eq!(bout.score().competitor_two, CompetitorScore::default());
    assert_eq!(bout.score().winner, None);
    assert!(!bout.is_complete());
    assert_eq!(bout.competitor_one().name(), "Ada Lovelace");
    assert_eq!(bout.competitor_two().name(), "Grace Hopper");
}

#[test]
fn match_starts_and_stops_its_timer() {
    let (one, two) = pair();
    let mut bout = Match::new(one, two);
    bout.start();
    assert!(bout.timer().is_running());
    assert!(!bout.is_complete());
    bout.stop();
    assert!(!bout.timer().is_running());
    bout.start();
    bout.stop_after(1_000);
    assert!(bout.timer().elapsed_milliseconds() >= 1_000);
    assert!(!bout.is_complete());
}

#[test]
fn match_is_complete_when_the_time_is_used_up() {
    let (one, two) = pair();
    let mut bout = Match::with_duration(one, two, 5);
    bout.start();
    assert!(!bout.is_complete_after(4_999));
    assert!(bout.is_complete_after(5_000));
    bout.stop_after(5_000);
    assert!(bout.is_complete());
    assert_eq!(bout.timer().remaining(), 0);
    assert!(!bout.score().is_winner());
}

#[test]
fn winner_completes_the_match_with_time_left() {
    let (one, two) = pair();
    let mut bout = Match::new(one, two);
    bout.set_winner(CompetitorNumber::One, WinMethod::Submission);
    assert!(bout.score().is_winner());
    assert!(bout.is_complete());
    assert!(bout.is_complete_after(0));
    assert_eq!(bout.timer().remaining(), 300_000);
    bout.clear_winner();
    assert!(!bout.score().is_winner());
    assert!(!bout.is_complete());
}

#[test]
fn match_scores_for_either_side() {
    let (one, two) = pair();
    let mut bout = Match::new(one, two);
    bout.add_score(Points::Points(2), CompetitorNumber::One);
    bout.add_score(Points::Points(2), CompetitorNumber::One);
    bout.add_score(Points::Advantages(1), CompetitorNumber::Two);
    assert_eq!(bout.score().competitor_one.points, 4);
    assert_eq!(bout.score().competitor_two.advantages, 1);
    bout.remove_score(Points::Points(3), CompetitorNumber::One);
    assert_eq!(bout.score().competitor_one.points, 1);
    bout.remove_score(Points::Points(5), CompetitorNumber::One);
    assert_eq!(bout.score().competitor_one.points, 0);
    assert_eq!(
        bout.score().competitor_two,
        CompetitorScore { points: 0, advantages: 1, penalties: 0, medical: 0 }
    );
}

#[test]
fn scoring_is_accepted_after_the_end() {
    let (one, two) = pair();
    let mut bout = Match::with_duration(one, two, 0);
    assert!(bout.is_complete());
    bout.add_score(Points::Penalties(1), CompetitorNumber::Two);
    assert_eq!(bout.score().competitor_two.penalties, 1);
    assert!(bout.is_complete());
}

#[test]
fn match_text_has_three_lines() {
    let (one, two) = pair();
    let mut bout = Match::new(one, two);
    assert_eq!(
        bout.to_text(),
        "Ada Lovelace: Pts: 0 - Adv: 0 - Pen: 0\nGrace Hopper: Pts: 0 - Adv: 0 - Pen: 0\n300000\n"
    );
    bout.add_score(Points::Points(2), CompetitorNumber::One);
    bout.add_score(Points::Penalties(1), CompetitorNumber::Two);
    bout.start();
    assert_eq!(
        bout.to_text_after(61_500),
        "Ada Lovelace: Pts: 2 - Adv: 0 - Pen: 0\nGrace Hopper: Pts: 0 - Adv: 0 - Pen: 1\n238500\n"
    );
}

#[test]
fn stopping_and_scoring_in_turn_never_ends_the_match() {
    let (one, two) = pair();
    let mut bout = Match::new(one, two);
    bout.start();
    let mut rounds = 0;
    while !bout.is_complete() && rounds < 200 {
        bout.stop();
        bout.add_score(Points::Points(2), CompetitorNumber::One);
        rounds += 1;
    }
    assert_eq!(rounds, 200);
    assert_eq!(bout.score().competitor_one.points, 255);
    assert!(!bout.timer().is_running());
}
