use race_notifier::announce::{
    build_announcement, days_phrase, flag_url, generate_google_maps_url, get_country_code, mention,
    reply_to_command, Announcement, CARD_COLOR,
};
use race_notifier::cycle::{evaluate_cycle, CycleOutcome};
use race_notifier::date::{days_until, is_leap, month_length, Date};
use race_notifier::race::{Circuit, Location, Race};
use race_notifier::schedule::{seconds_until_wake, should_notify};
use race_notifier::select::{select_next, select_next_dated};

fn race(name: &str, circuit: &str, country: &str, date: &str) -> Race {
    Race {
        season: "2024".to_string(),
        round: "1".to_string(),
        url: "https://example.org/race".to_string(),
        race_name: name.to_string(),
        circuit: Circuit {
            circuit_id: "id".to_string(),
            url: "https://example.org/circuit".to_string(),
            circuit_name: circuit.to_string(),
            location: Location {
                lat: "0.0".to_string(),
                long: "0.0".to_string(),
                locality: "Town".to_string(),
                country: country.to_string(),
            },
        },
        date: date.to_string(),
    }
}

fn ymd(y: i32, m: u32, d: u32) -> Date {
    Date::from_ymd(y, m, d).unwrap()
}

fn three_races() -> Vec<Race> {
    vec![
        race("Australian Grand Prix", "Albert Park", "Australia", "2024-03-10"),
        race("Japanese Grand Prix", "Suzuka Circuit", "Japan", "2024-03-24"),
        race("Brazilian Grand Prix", "Interlagos", "Brazil", "2024-04-07"),
    ]
}

#[test]
fn next_race_seven_days_ahead_is_announced() {
    let today = ymd(2024, 3, 17);
    let next = select_next(three_races(), &today).unwrap();
    assert_eq!(next.date, "2024-03-24");
    let days = days_until(&Date::parse(&next.date).unwrap(), &today);
    assert_eq!(days, 7);
    assert!(should_notify(days));
    match evaluate_cycle(three_races(), &today, 42) {
        CycleOutcome::Announce(a) => {
            assert_eq!(a.fields[0].value, "Japanese Grand Prix");
            assert_eq!(a.fields[1].value, "Suzuka Circuit");
            assert_eq!(a.fields[3].value, "7 dia(s)");
            assert_eq!(a.image.as_deref(), Some("https://flagcdn.com/h120/jp.png"));
        }
        other => panic!("expected an announcement, got {:?}", other),
    }
}

#[test]
fn later_race_still_ahead_then_none_past_all() {
    let today = ymd(2024, 3, 25);
    assert!(select_next(three_races(), &today).is_some());
    let late = ymd(2024, 4, 8);
    assert!(select_next(three_races(), &late).is_none());
    assert!(matches!(evaluate_cycle(three_races(), &late, 42), CycleOutcome::NoUpcomingRace));
}

#[test]
fn after_last_race_cycle_does_nothing() {
    let races = vec![
        race("A", "CA", "Spain", "2024-03-10"),
        race("B", "CB", "Spain", "2024-03-24"),
    ];
    let today = ymd(2024, 3, 25);
    assert!(matches!(evaluate_cycle(races, &today, 1), CycleOutcome::NoUpcomingRace));
}

#[test]
fn off_threshold_day_is_not_announced() {
    let today = ymd(2024, 3, 18);
    match evaluate_cycle(three_races(), &today, 42) {
        CycleOutcome::NotToday(n) => assert_eq!(n, 6),
        other => panic!("expected no announcement, got {:?}", other),
    }
}

#[test]
fn race_on_today_is_never_selected() {
    let today = ymd(2024, 3, 24);
    let next = select_next(three_races(), &today).unwrap();
    assert_eq!(next.date, "2024-04-07");
}

#[test]
fn unsorted_feed_picks_earliest_future() {
    let races = vec![
        race("C", "CC", "Italy", "2024-05-01"),
        race("A", "CA", "Italy", "2024-02-01"),
        race("B", "CB", "Italy", "2024-04-01"),
    ];
    let next = select_next(races, &ymd(2024, 3, 1)).unwrap();
    assert_eq!(next.race_name, "B");
}

#[test]
fn equal_dates_keep_input_order() {
    let races = vec![
        race("First", "C1", "Italy", "2024-05-01"),
        race("Second", "C2", "Italy", "2024-05-01"),
    ];
    let next = select_next(races, &ymd(2024, 3, 1)).unwrap();
    assert_eq!(next.race_name, "First");
}

#[test]
fn unreadable_dates_are_skipped() {
    let races = vec![
        race("Bad", "C1", "Italy", "not a date"),
        race("Impossible", "C2", "Italy", "2024-02-30"),
        race("Good", "C3", "Italy", "2024-06-01"),
    ];
    let next = select_next(races, &ymd(2024, 3, 1)).unwrap();
    assert_eq!(next.race_name, "Good");
    let only_bad = vec![race("Bad", "C1", "Italy", "soon")];
    assert!(select_next(only_bad, &ymd(2024, 3, 1)).is_none());
}

#[test]
fn empty_schedule_has_no_next_race() {
    assert!(select_next(Vec::new(), &ymd(2024, 3, 1)).is_none());
    assert_eq!(select_next_dated(&Vec::new(), &ymd(2024, 3, 1)), None);
}

#[test]
fn dated_selection_returns_index() {
    let dates = vec![Some(ymd(2024, 4, 7)), None, Some(ymd(2024, 3, 24)), Some(ymd(2024, 3, 10))];
    assert_eq!(select_next_dated(&dates, &ymd(2024, 3, 17)), Some(2));
    assert_eq!(select_next_dated(&dates, &ymd(2024, 4, 7)), None);
}

#[test]
fn days_until_same_day_is_zero_and_swaps_sign() {
    let a = ymd(2024, 3, 17);
    let b = ymd(2024, 3, 24);
    assert_eq!(days_until(&a, &a), 0);
    assert_eq!(days_until(&b, &a), 7);
    assert_eq!(days_until(&a, &b), -7);
}

#[test]
fn days_until_crosses_months_and_years() {
    assert_eq!(days_until(&ymd(2024, 3, 1), &ymd(2024, 2, 28)), 2);
    assert_eq!(days_until(&ymd(2023, 3, 1), &ymd(2023, 2, 28)), 1);
    assert_eq!(days_until(&ymd(2025, 1, 1), &ymd(2024, 1, 1)), 366);
    assert_eq!(days_until(&ymd(1970, 1, 1), &ymd(1, 1, 1)), 719_162);
}

#[test]
fn notify_only_on_threshold_days() {
    for n in [7i64, 5, 3, 1] {
        assert!(should_notify(n));
    }
    for n in [-7i64, -1, 0, 2, 4, 6, 8, 14, i64::MIN, i64::MAX] {
        assert!(!should_notify(n));
    }
}

#[test]
fn wake_at_target_hour_rolls_to_next_day() {
    assert_eq!(seconds_until_wake(14 * 3600, 14), 86_400);
    assert_eq!(seconds_until_wake(13 * 3600, 14), 3600);
    assert_eq!(seconds_until_wake(15 * 3600 + 1800, 14), 81_000);
    assert_eq!(seconds_until_wake(0, 0), 86_400);
    assert_eq!(seconds_until_wake(86_399, 0), 1);
}

#[test]
fn country_lookup_hits_and_misses() {
    assert_eq!(get_country_code("Brazil").as_deref(), Some("br"));
    assert_eq!(get_country_code("UK").as_deref(), Some("gb"));
    assert_eq!(get_country_code("United States").as_deref(), Some("us"));
    assert_eq!(get_country_code("Freedonia"), None);
    assert_eq!(get_country_code("brazil"), None);
}

#[test]
fn unmapped_country_builds_without_flag() {
    let r = race("Freedonian Grand Prix", "Freedonia Ring", "Freedonia", "2024-05-01");
    let a: Announcement = build_announcement(&r, 3, 7);
    assert_eq!(a.image, None);
    assert_eq!(a.fields.len(), 4);
    assert_eq!(a.fields[0].name, "Carrera");
    assert_eq!(a.fields[0].value, "Freedonian Grand Prix");
    assert_eq!(a.fields[2].name, "Nombre del circuito");
    assert!(!a.fields[2].inline);
    assert_eq!(a.fields[3].name, "D\u{ed}as restantes");
    assert_eq!(a.fields[3].value, "3 dia(s)");
    assert_eq!(a.color, CARD_COLOR);
    assert_eq!(a.title, "\u{1f3ce}\u{1f3c1} Proxima carrera F1 \u{1f3ce}\u{1f3c1}");
}

#[test]
fn known_country_builds_with_flag() {
    let r = race("Brazilian Grand Prix", "Interlagos", "Brazil", "2024-11-03");
    let a = build_announcement(&r, 5, 99);
    assert_eq!(a.image.as_deref(), Some("https://flagcdn.com/h120/br.png"));
    assert_eq!(
        a.content,
        "Oigan <@&99> pendejos, ahi les aviso, que viene el FIUUUMMMMM!!!"
    );
}

#[test]
fn text_pieces() {
    assert_eq!(flag_url("mc"), "https://flagcdn.com/h120/mc.png");
    assert_eq!(days_phrase(12), "12 dia(s)");
    assert_eq!(days_phrase(-3), "-3 dia(s)");
    assert_eq!(days_phrase(0), "0 dia(s)");
    assert_eq!(
        mention(18446744073709551615),
        "Oigan <@&18446744073709551615> pendejos, ahi les aviso, que viene el FIUUUMMMMM!!!"
    );
}

#[test]
fn ping_gets_pong() {
    assert_eq!(reply_to_command("!ping").as_deref(), Some("Pong!"));
    assert_eq!(reply_to_command("!pong"), None);
    assert_eq!(reply_to_command(""), None);
}

#[test]
fn dates_parse_and_validate() {
    assert_eq!(Date::parse("2024-03-17"), Some(ymd(2024, 3, 17)));
    assert_eq!(Date::parse("2024-02-30"), None);
    assert_eq!(Date::parse("17/03/2024"), None);
    assert!(Date::from_ymd(2024, 2, 29).is_some());
    assert!(Date::from_ymd(2023, 2, 29).is_none());
    assert!(Date::from_ymd(2024, 13, 1).is_none());
    assert!(Date::from_ymd(2024, 4, 31).is_none());
    assert!(Date::from_ymd(2024, 1, 0).is_none());
    assert!(Date::from_ymd(262_143, 1, 1).is_none());
    assert!(Date::from_ymd(262_142, 12, 31).is_some());
    assert!(ymd(2024, 3, 10).is_before(&ymd(2024, 3, 24)));
    assert!(!ymd(2024, 3, 24).is_before(&ymd(2024, 3, 24)));
}

#[test]
fn leap_years_and_month_lengths() {
    assert!(is_leap(2024));
    assert!(is_leap(2000));
    assert!(!is_leap(1900));
    assert!(is_leap(-4));
    assert_eq!(month_length(2023, 2), 28);
    assert_eq!(month_length(2024, 2), 29);
    assert_eq!(month_length(2024, 4), 30);
    assert_eq!(month_length(2024, 12), 31);
}

#[test]
fn maps_link_holds_coordinates() {
    assert_eq!(
        generate_google_maps_url("-23.7036", "-46.6997"),
        "https://www.google.com/maps/?q=-23.7036,-46.6997"
    );
}
