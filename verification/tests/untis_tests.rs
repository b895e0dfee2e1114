use theschedule::untis::types::{
    FormattedLesson, Holidays, Klasse, PeriodObject, Room, Subject, Substitution, Teacher,
    TimeUnit, TimegridUnits, TimetableParameter, FormattedFreeRoom,
};
use theschedule::untis::dates::day_of_week;
use theschedule::untis::format::format_lessons;
use theschedule::untis::sorting::sort_periods;
use theschedule::untis::calendar::{get_period_holidays, monday_of, friday_of, format_for_untis};
use theschedule::untis::client::{
    get_ids, class_id, select_class, parse_date, get_timetable, collect_lernbueros, lernbuero_dates,
    finish_lernbueros, room_plan, with_error_code, periods_fit, lessons_fit_grid, flatten_lessons,
    fetched_holidays,
};
use theschedule::untis::fetch::{
    fetch_step, lernbuero_step, FetchAction, FetchEvent, LernbueroAction, LernbueroEvent, LernbueroFetch, TimetableFetch,
};
use theschedule::untis::calendar::{get_this_monday, get_this_friday};
use theschedule::untis::lernbueros::{filter_lernbueros, manual_overwrite_lbs, merge_lernbueros, expand_lernbueros, manual_lernbueros};
use theschedule::untis::free_rooms::free_rooms;
use theschedule::models::lb::{ManualLB, ManualLBOverwrite, Room as SchoolRoom, Teacher as DbTeacher};
use theschedule::error::Error;
use theschedule::text::{parse_u32, IntErrorKind, replace_all, split_once};

fn subject(id: u16, name: &str) -> Subject {
    Subject { id, name: name.to_string(), longname: name.to_string() }
}

fn teacher(name: &str, orgname: Option<&str>) -> Teacher {
    Teacher { id: 1, name: name.to_string(), longname: name.to_string(), orgid: None, orgname: orgname.map(|s| s.to_string()) }
}

fn room(name: &str) -> Room {
    Room { id: 1, name: name.to_string(), longname: name.to_string(), orgid: None, orgname: None }
}

fn period(date: u32, start: u16, end: u16, su: Vec<Subject>, te: Vec<Teacher>, ro: Vec<Room>) -> PeriodObject {
    PeriodObject {
        id: 7,
        date,
        start_time: start,
        end_time: end,
        kl: vec![],
        te,
        su,
        ro,
        activity_type: Some("Unterricht".to_string()),
        subst_text: None,
        lstext: None,
        code: None,
        sg: None,
    }
}

fn grid() -> Vec<TimegridUnits> {
    (1..=7)
        .map(|d| TimegridUnits {
            day: d,
            time_units: vec![
                TimeUnit { name: "1".to_string(), start_time: 745, end_time: 830 },
                TimeUnit { name: "2".to_string(), start_time: 830, end_time: 915 },
                TimeUnit { name: "3".to_string(), start_time: 935, end_time: 1020 },
                TimeUnit { name: "4".to_string(), start_time: 1020, end_time: 1105 },
            ],
        })
        .collect()
}

fn lesson(teacher: &str, is_lb: bool, start: u8, length: u8, day: u8, subject: &str, room: &str, substitution: Option<Substitution>) -> FormattedLesson {
    FormattedLesson {
        teacher: teacher.to_string(),
        is_lb,
        start,
        length,
        day,
        subject: subject.to_string(),
        subject_short: subject.to_string(),
        room: room.to_string(),
        substitution,
    }
}

#[test]
fn day_of_week_follows_the_calendar() {
    assert_eq!(day_of_week(20240108), 0); // Monday
    assert_eq!(day_of_week(20240112), 4); // Friday
    assert_eq!(day_of_week(20240114), 6); // Sunday
    assert_eq!(day_of_week(20240229), 3); // leap day, a Thursday
    assert_eq!(day_of_week(20000101), 5); // Saturday
}

#[test]
fn parses_integers_like_std() {
    assert_eq!(parse_u32("20240108"), Ok(20240108));
    assert_eq!(parse_u32("+12"), Ok(12));
    assert_eq!(parse_u32(""), Err(IntErrorKind::Empty));
    assert_eq!(parse_u32("12a"), Err(IntErrorKind::InvalidDigit));
    assert_eq!(parse_u32("+"), Err(IntErrorKind::InvalidDigit));
    assert_eq!(parse_u32("4294967295"), Ok(u32::MAX));
    assert_eq!(parse_u32("4294967296"), Err(IntErrorKind::PosOverflow));
    for s in ["0", "17", "99999", "-1", "1 ", "00012"] {
        assert_eq!(parse_u32(s).ok(), s.parse::<u32>().ok(), "{s}");
    }
}

#[test]
fn replaces_and_splits_text() {
    assert_eq!(replace_all("a ${{X}} b ${{X}}", "${{X}}", "1"), "a 1 b 1");
    assert_eq!(replace_all("aaa", "aa", "b"), "ba");
    assert_eq!(replace_all("abc", "x", "y"), "abc");
    assert_eq!(split_once("users:abc:d", ':'), Some(("users".to_string(), "abc:d".to_string())));
    assert_eq!(split_once("nocolon", ':'), None);
}

#[test]
fn sorts_periods_stably() {
    let v = vec![
        period(20240109, 830, 915, vec![], vec![], vec![]),
        period(20240108, 935, 1020, vec![], vec![], vec![]),
        period(20240108, 745, 830, vec![], vec![], vec![]),
    ];
    let by_date = sort_periods(v, true);
    let keys: Vec<(u32, u16)> = by_date.iter().map(|p| (p.date, p.start_time)).collect();
    assert_eq!(keys, vec![(20240108, 935), (20240108, 745), (20240109, 830)]);
    let by_time = sort_periods(by_date, false);
    let keys: Vec<(u32, u16)> = by_time.iter().map(|p| (p.date, p.start_time)).collect();
    assert_eq!(keys, vec![(20240108, 745), (20240109, 830), (20240108, 935)]);
}

#[test]
fn formats_a_day_with_a_double_lesson_and_a_lernbuero() {
    let periods = vec![
        period(20240108, 935, 1020, vec![subject(20, "LB D")], vec![teacher("XYZ", Some("OLD"))], vec![room("B202")]),
        period(20240108, 830, 915, vec![subject(10, "M GK1")], vec![teacher("ABC", None)], vec![room("A101")]),
        period(20240108, 745, 830, vec![subject(10, "M GK1")], vec![teacher("ABC", None)], vec![room("A101")]),
    ];
    let out = format_lessons(periods, 20240108, &grid()).unwrap();
    assert_eq!(
        out,
        vec![
            FormattedLesson {
                teacher: "ABC".to_string(),
                is_lb: false,
                start: 1,
                length: 2,
                day: 0,
                subject: "M GK1".to_string(),
                subject_short: "M".to_string(),
                room: "A101".to_string(),
                substitution: None,
            },
            FormattedLesson {
                teacher: "OLD".to_string(),
                is_lb: true,
                start: 3,
                length: 1,
                day: 0,
                subject: "LB D".to_string(),
                subject_short: "LB".to_string(),
                room: "B202".to_string(),
                substitution: Some(Substitution {
                    teacher: Some("XYZ".to_string()),
                    room: None,
                    substitution_text: None,
                    cancelled: false,
                }),
            },
        ]
    );
}

#[test]
fn formats_exams_cancellations_and_texts() {
    let mut exam = period(20240109, 745, 830, vec![subject(30, "E LK")], vec![teacher("QQ", None)], vec![room("C1")]);
    exam.sg = Some("EXAM_E".to_string());
    let mut cancelled = period(20240109, 830, 915, vec![subject(31, "Ph GK")], vec![teacher("PP", None)], vec![room("C2")]);
    cancelled.code = Some("cancelled".to_string());
    let mut event = period(20240109, 935, 1020, vec![], vec![], vec![]);
    event.activity_type = None;
    event.lstext = Some("Tag der offenen Tür".to_string());
    let out = format_lessons(vec![exam, cancelled, event], 20240109, &grid()).unwrap();
    assert_eq!(out.len(), 3);
    assert_eq!(out[0].subject, "PrüfungE LK");
    assert!(!out[0].is_lb);
    assert_eq!(out[0].day, 1);
    assert_eq!(out[1].substitution, Some(Substitution { teacher: None, room: None, substitution_text: None, cancelled: true }));
    assert!(out[1].is_lb);
    assert_eq!(out[2].subject, "Tag der offenen Tür");
    assert_eq!(out[2].subject_short, "offenen Tür");
    assert_eq!(out[2].start, 3);
}

#[test]
fn holidays_of_a_week() {
    let holidays = vec![
        Holidays { id: 1, name: "WF".to_string(), longname: Some("Winterferien".to_string()), start_date: 20240101, end_date: 20240110 },
        Holidays { id: 2, name: "Later".to_string(), longname: None, start_date: 20240301, end_date: 20240305 },
    ];
    let out = get_period_holidays(&holidays, 20240108, 20240112).unwrap();
    let days: Vec<u32> = out.iter().map(|p| p.date).collect();
    assert_eq!(days, vec![20240108, 20240109, 20240110]);
    for p in &out {
        assert_eq!((p.start_time, p.end_time), (755, 1625));
        assert_eq!(p.lstext.as_deref(), Some("Winterferien"));
        assert!(p.su.is_empty());
    }
    let bad = get_period_holidays(&holidays, 20240100, 20240112);
    assert!(matches!(bad, Err(Error::UntisError(m)) if m.ends_with(" 187")));
}

#[test]
fn week_days_and_untis_dates() {
    // 2024-01-10 is a Wednesday; chrono counts it as day 738895 since the common era
    let wednesday = 738895;
    let monday = monday_of(wednesday, 2).unwrap();
    let friday = friday_of(wednesday, 2).unwrap();
    assert_eq!(friday - monday, 4);
    assert_eq!(format_for_untis(monday), Some("20240108".to_string()));
    assert_eq!(format_for_untis(friday), Some("20240112".to_string()));
    // on a Sunday the Friday before is meant
    assert_eq!(format_for_untis(friday_of(wednesday + 4, 6).unwrap()), Some("20240112".to_string()));
}

#[test]
fn class_ids_keep_the_last_class_of_a_name() {
    let klassen = vec![
        Klasse { id: 1, name: "EF".to_string(), longname: "EF".to_string() },
        Klasse { id: 2, name: "Q1".to_string(), longname: "Q1".to_string() },
        Klasse { id: 3, name: "EF".to_string(), longname: "EF neu".to_string() },
    ];
    let ids = get_ids(&klassen);
    assert_eq!(ids.len(), 2);
    assert_eq!(class_id(&ids, "EF"), Some(3));
    assert_eq!(class_id(&ids, "Q1"), Some(2));
    assert_eq!(class_id(&ids, "Q2"), None);
}

#[test]
fn timetable_requests() {
    let p = TimetableParameter::default(42, 5, "20240108".to_string(), "20240112".to_string());
    assert_eq!(p.options.element.id, 42);
    assert_eq!(p.options.element.element_type, 5);
    assert_eq!(p.options.element.key_type, "id");
    assert!(p.options.show_ls_text && !p.options.show_booking);
    assert_eq!(p.options.klasse_fields, vec!["id", "name", "longname"]);
    let ids = get_ids(&vec![Klasse { id: 9, name: "Q2".to_string(), longname: "Q2".to_string() }]);
    let q = select_class(p, &ids, Some("Q2".to_string())).unwrap();
    assert_eq!((q.options.element.id, q.options.element.element_type), (9, 1));
    assert_eq!(q.options.start_date, "20240108");
    let r = select_class(q, &ids, Some("Q3".to_string()));
    assert!(matches!(r, Err(Error::UntisError(m)) if m == "Could not find field Q3"));
}

#[test]
fn request_dates_and_error_codes() {
    assert_eq!(parse_date("20240108", "164"), Ok(20240108));
    assert_eq!(parse_date("2024-01-08", "164"), Err(Error::UntisError("invalid digit found in string 164".to_string())));
    assert_eq!(parse_date("", "165"), Err(Error::UntisError("cannot parse integer from empty string 165".to_string())));
    assert_eq!(
        with_error_code(Error::Reqwest("timeout".to_string()), "155"),
        Error::UntisError("timeout 155".to_string())
    );
}

#[test]
fn timetable_with_holidays() {
    let p = TimetableParameter::default(1, 5, "20240108".to_string(), "20240109".to_string());
    let periods = vec![period(20240109, 745, 830, vec![subject(10, "M GK1")], vec![teacher("ABC", None)], vec![room("A101")])];
    let holidays = vec![Holidays { id: 1, name: "Frei".to_string(), longname: None, start_date: 20240108, end_date: 20240108 }];
    let mut g = grid();
    for d in g.iter_mut() {
        d.time_units.push(TimeUnit { name: "H".to_string(), start_time: 755, end_time: 1625 });
    }
    let out = get_timetable(periods, &p, &holidays, &g).unwrap().unwrap();
    assert_eq!(out.len(), 2);
    assert_eq!((out[0].day, out[0].subject.as_str(), out[0].start), (0, "Frei", 5));
    assert_eq!((out[1].day, out[1].subject.as_str()), (1, "M GK1"));
    let bad = TimetableParameter::default(1, 5, "x".to_string(), "20240109".to_string());
    assert_eq!(get_timetable(vec![], &bad, &holidays, &g), Some(Err(Error::UntisError("invalid digit found in string 164".to_string()))));
    // a period on a day the time grid does not have cannot be formatted
    let short_grid = vec![grid().remove(0)];
    let tuesday = vec![period(20240109, 745, 830, vec![], vec![], vec![])];
    assert!(!periods_fit(&tuesday, &short_grid));
    assert_eq!(get_timetable(tuesday, &p, &vec![], &short_grid), None);
}

#[test]
fn lernbueros_are_filtered_overwritten_and_merged() {
    let timetables = vec![
        vec![
            lesson("A", true, 3, 1, 0, "D", "R1", None),
            lesson("B", true, 3, 1, 0, "S0", "R9", None),
            lesson("C", false, 1, 2, 0, "M", "R2", None),
        ],
        vec![lesson("B", true, 3, 1, 0, "D", "R2", None)],
    ];
    let lbs = collect_lernbueros(&timetables);
    assert_eq!(lbs.iter().map(|l| l.teacher.as_str()).collect::<Vec<_>>(), vec!["A", "B"]);
    let overwrites = vec![ManualLBOverwrite { id: "o".to_string(), teacher: "B".to_string(), start: 3, day: 0 }];
    let kept = manual_overwrite_lbs(lbs, overwrites);
    assert_eq!(kept.iter().map(|l| l.teacher.as_str()).collect::<Vec<_>>(), vec!["A"]);
    assert_eq!(filter_lernbueros(&vec![lesson("A", true, 1, 1, 0, "OS", "R", None)]).len(), 0);
}

#[test]
fn parallel_lernbueros_merge_into_one() {
    let cancelled = || Some(Substitution { teacher: None, room: None, substitution_text: None, cancelled: true });
    let moved = Some(Substitution { teacher: None, room: Some("R7".to_string()), substitution_text: None, cancelled: false });
    let lbs = vec![
        lesson("A", true, 3, 1, 0, "D", "R1", None),
        lesson("B", true, 3, 1, 0, "D", "R2", moved),
        lesson("A", true, 3, 1, 0, "D", "R1", None),
        lesson("X", true, 3, 1, 0, "D", "R3", cancelled()),
        lesson("C", true, 2, 1, 1, "E", "R4", cancelled()),
    ];
    let merged = merge_lernbueros(&lbs);
    assert_eq!(
        merged,
        vec![
            lesson("A, B", true, 3, 1, 0, "D", "R1, R7", None),
            lesson(
                "C",
                true,
                2,
                1,
                1,
                "E",
                "R4",
                Some(Substitution {
                    teacher: Some("---".to_string()),
                    room: None,
                    substitution_text: Some("Vtr. ohne Lehrer".to_string()),
                    cancelled: false,
                })
            ),
        ]
    );
}

#[test]
fn lernbueros_get_one_copy_per_subject_of_the_teacher() {
    let lbs = vec![lesson("A", true, 3, 1, 0, "D", "R1", None), lesson("Z", true, 4, 1, 0, "D", "R1", None)];
    let teachers = vec![
        Some(DbTeacher { id: "t".to_string(), shortname: "A".to_string(), longname: "Anna".to_string(), lessons: vec!["D".to_string(), "E".to_string()] }),
        None,
    ];
    let out = expand_lernbueros(&lbs, &teachers);
    assert_eq!(out.iter().map(|l| (l.subject.as_str(), l.start)).collect::<Vec<_>>(), vec![("D", 3), ("E", 3)]);
    let manual = vec![ManualLB { id: "m".to_string(), teacher: "A".to_string(), room: "R5".to_string(), start: 6, day: 2 }];
    let m = manual_lernbueros(&manual, &vec![teachers[0].as_ref().map(|t| DbTeacher { id: t.id.clone(), shortname: t.shortname.clone(), longname: t.longname.clone(), lessons: t.lessons.clone() })]);
    assert_eq!(m.len(), 2);
    assert_eq!((m[0].room.as_str(), m[0].day, m[0].start, m[0].is_lb), ("R5", 2, 6, true));
}

#[test]
fn lernbuero_week_with_holidays() {
    let p = TimetableParameter::default(1, 5, "20240108".to_string(), "20240112".to_string());
    assert_eq!(lernbuero_dates(&p), Ok((20240108, 20240112)));
    let bad = TimetableParameter::default(1, 5, "20240108".to_string(), "".to_string());
    assert_eq!(lernbuero_dates(&bad), Err(Error::UntisError("cannot parse integer from empty string 530".to_string())));
    let lbs = vec![lesson("A", true, 3, 1, 0, "D", "R1", None)];
    let out = finish_lernbueros(&lbs, vec![], 20240108, &grid()).unwrap().unwrap();
    assert_eq!(out.len(), 1);
}

#[test]
fn free_rooms_of_a_week() {
    let rooms = vec![
        SchoolRoom { id: "1".to_string(), name: "R1".to_string() },
        SchoolRoom { id: "2".to_string(), name: "R2".to_string() },
    ];
    let lessons = vec![lesson("A", false, 1, 2, 0, "M", "R1", None)];
    let free = free_rooms(&lessons, &rooms);
    assert_eq!(free.len(), 47 * 2 - 2);
    assert_eq!(free[0], FormattedFreeRoom { room: "R2".to_string(), day: 0, start: 1, length: 1 });
    assert_eq!(free[1], FormattedFreeRoom { room: "R2".to_string(), day: 0, start: 2, length: 1 });
    assert_eq!(free[2], FormattedFreeRoom { room: "R1".to_string(), day: 0, start: 3, length: 1 });
    assert!(free.iter().all(|r| !(r.day == 1 && r.start >= 8)));
    let tts = vec![lessons, vec![lesson("B", true, 3, 1, 4, "D", "R2", None)]];
    assert_eq!(flatten_lessons(&tts).len(), 2);
    let plan = room_plan(&tts, &rooms).unwrap();
    assert_eq!(plan.len(), 47 * 2 - 3);
    assert!(!lessons_fit_grid(&vec![lesson("A", false, 10, 2, 0, "M", "R1", None)]));
    assert_eq!(room_plan(&vec![vec![lesson("A", false, 1, 1, 5, "M", "R1", None)]], &rooms), None);
}

#[test]
fn failed_holiday_requests_carry_both_codes() {
    let h = Holidays { id: 1, name: "Ferien".to_string(), longname: None, start_date: 20240701, end_date: 20240810 };
    match fetched_holidays(Ok(vec![h]), "533") {
        Ok(got) => assert_eq!((got.len(), got[0].start_date), (1, 20240701)),
        Err(e) => panic!("{e:?}"),
    }
    match fetched_holidays(Err(Error::Reqwest("timeout".to_string())), "533") {
        Err(e) => assert_eq!(e, Error::UntisError("timeout 172 533".to_string())),
        Ok(_) => panic!("the error is passed on"),
    }
    match fetched_holidays(Err(Error::UntisError("bad".to_string())), "168") {
        Err(e) => assert_eq!(e, Error::UntisError("bad 172 168".to_string())),
        Ok(_) => panic!("the error is passed on"),
    }
}

#[test]
fn formats_periods_at_the_ends_of_the_clock() {
    let periods = vec![period(20240108, 0, 65535, vec![subject(10, "M GK1")], vec![teacher("ABC", None)], vec![room("A101")])];
    let out = format_lessons(periods, 20240108, &grid()).unwrap();
    assert_eq!(out.len(), 1);
    assert_eq!(out[0].start, 1);
    assert_eq!(out[0].length, 10);
    // a period ending at 65535 continues one starting at 4, as the clock wraps
    let periods = vec![
        period(20240108, 65000, 65535, vec![subject(10, "M GK1")], vec![], vec![]),
        period(20240108, 4, 40, vec![subject(10, "M GK1")], vec![], vec![]),
    ];
    assert!(periods_fit(&periods, &grid()));
    let out = format_lessons(periods, 20240108, &grid()).unwrap();
    assert_eq!(out.len(), 2);
    assert_eq!(out[0].length, 1);
    assert_eq!(out[1].length, 2);
}

#[test]
fn day_of_week_counts_days_of_the_gregorian_calendar() {
    fn days_in_month(y: u32, m: u32) -> u32 {
        match m {
            2 => if y % 4 == 0 && (y % 100 != 0 || y % 400 == 0) { 29 } else { 28 },
            4 | 6 | 9 | 11 => 30,
            _ => 31,
        }
    }
    // 1 January 1600 was a Saturday.
    let mut weekday = 5;
    for y in 1600..2401 {
        for m in 1..=12 {
            for d in 1..=days_in_month(y, m) {
                assert_eq!(day_of_week(y * 10000 + m * 100 + d), weekday, "{y}-{m}-{d}");
                weekday = (weekday + 1) % 7;
            }
        }
    }
    assert_eq!(day_of_week(10101), 0);
}

#[test]
fn fetching_a_timetable_selects_the_class_before_asking() {
    let ids = get_ids(&vec![Klasse { id: 9, name: "Q2".to_string(), longname: "Q2".to_string() }]);
    let p = TimetableParameter::default(1, 5, "20240108".to_string(), "20240109".to_string());
    let (s, a) = fetch_step(TimetableFetch::Start(p, Some("Q3".to_string())), FetchEvent::Start, &ids);
    assert!(matches!(s, TimetableFetch::Finished));
    assert!(matches!(a, FetchAction::Answer(Err(Error::UntisError(m))) if m == "Could not find field Q3"));

    let p = TimetableParameter::default(1, 5, "20240108".to_string(), "20240109".to_string());
    let (s, a) = fetch_step(TimetableFetch::Start(p, Some("Q2".to_string())), FetchEvent::Start, &ids);
    assert!(matches!(a, FetchAction::RequestPeriods));
    match &s {
        TimetableFetch::Periods(q) => assert_eq!((q.options.element.id, q.options.element.element_type), (9, 1)),
        _ => panic!("the request is held"),
    }
    let periods = vec![period(20240109, 745, 830, vec![subject(10, "M GK1")], vec![teacher("ABC", None)], vec![room("A101")])];
    let (s, a) = fetch_step(s, FetchEvent::Periods(Ok(periods)), &ids);
    assert!(matches!(a, FetchAction::RequestHolidays));
    let (_, a) = fetch_step(s, FetchEvent::Holidays(Err(Error::Reqwest("down".to_string()))), &ids);
    assert!(matches!(a, FetchAction::Answer(Err(Error::UntisError(m))) if m == "down 172 168"));

    let p = TimetableParameter::default(1, 5, "20240108".to_string(), "20240109".to_string());
    let (s, _) = fetch_step(TimetableFetch::Start(p, None), FetchEvent::Start, &ids);
    let periods = vec![period(20240109, 745, 830, vec![subject(10, "M GK1")], vec![teacher("ABC", None)], vec![room("A101")])];
    let (s, _) = fetch_step(s, FetchEvent::Periods(Ok(periods)), &ids);
    let holidays = vec![Holidays { id: 1, name: "Frei".to_string(), longname: None, start_date: 20240108, end_date: 20240108 }];
    let (s, a) = fetch_step(s, FetchEvent::Holidays(Ok(holidays)), &ids);
    assert!(matches!(a, FetchAction::RequestTimegrid));
    let mut g = grid();
    for d in g.iter_mut() {
        d.time_units.push(TimeUnit { name: "H".to_string(), start_time: 755, end_time: 1625 });
    }
    let (_, a) = fetch_step(s, FetchEvent::Timegrid(Ok(g)), &ids);
    match a {
        FetchAction::Answer(Ok(out)) => {
            assert_eq!(out.len(), 2);
            assert_eq!((out[0].day, out[0].subject.as_str(), out[0].start), (0, "Frei", 5));
            assert_eq!((out[1].day, out[1].subject.as_str()), (1, "M GK1"));
        },
        _ => panic!("the timetable is formatted"),
    }

    let p = TimetableParameter::default(1, 5, "x".to_string(), "20240109".to_string());
    let (s, _) = fetch_step(TimetableFetch::Start(p, None), FetchEvent::Start, &ids);
    let (_, a) = fetch_step(s, FetchEvent::Periods(Ok(vec![])), &ids);
    assert!(matches!(a, FetchAction::Answer(Err(Error::UntisError(m))) if m == "invalid digit found in string 164"));
    let (_, a) = fetch_step(TimetableFetch::Timegrid(vec![], 20240108), FetchEvent::Timegrid(Err(Error::Reqwest("t".to_string()))), &ids);
    assert!(matches!(a, FetchAction::Answer(Err(Error::UntisError(m))) if m == "t 258"));
}

#[test]
fn this_weeks_monday_and_friday_are_week_days_0_and_4() {
    let m = get_this_monday().unwrap();
    let f = get_this_friday().unwrap();
    assert_eq!((m - 1).rem_euclid(7), 0);
    assert_eq!((f - 1).rem_euclid(7), 4);
    assert!(f == m + 4 || f == m - 3);
}

#[test]
fn fetching_lernbueros_runs_every_step_in_order() {
    let p = TimetableParameter::default(1, 5, "20240108".to_string(), "20240112".to_string());
    let (s, a) = lernbuero_step(LernbueroFetch::Start(p), LernbueroEvent::Start);
    assert!(matches!(a, LernbueroAction::RequestClasses));
    let timetables = vec![vec![lesson("A", true, 3, 1, 0, "D", "R1", None), lesson("C", false, 1, 2, 0, "M", "R2", None)]];
    let (s, a) = lernbuero_step(s, LernbueroEvent::Classes(Ok(timetables)));
    assert!(matches!(a, LernbueroAction::ReadOverwrites));
    let (s, a) = lernbuero_step(s, LernbueroEvent::Overwrites(vec![]));
    assert!(matches!(a, LernbueroAction::ReadTeachers));
    match &s {
        LernbueroFetch::Teachers(_, lbs) => assert_eq!(lbs.len(), 1),
        _ => panic!("the Lernbüros are held"),
    }
    let anna = DbTeacher { id: "t".to_string(), shortname: "A".to_string(), longname: "Anna".to_string(), lessons: vec!["D".to_string()] };
    let (s, a) = lernbuero_step(s, LernbueroEvent::Teachers(vec![Some(anna)]));
    assert!(matches!(a, LernbueroAction::ReadManual));
    let (s, a) = lernbuero_step(s, LernbueroEvent::Manual(Err(Error::Database("down".to_string()))));
    assert!(matches!(a, LernbueroAction::RequestHolidays));
    let (s, a) = lernbuero_step(s, LernbueroEvent::Holidays(Ok(vec![])));
    assert!(matches!(a, LernbueroAction::RequestTimegrid));
    let (_, a) = lernbuero_step(s, LernbueroEvent::Timegrid(Ok(grid())));
    match a {
        LernbueroAction::Answer(Ok(v)) => {
            assert_eq!(v.len(), 1);
            assert_eq!((v[0].teacher.as_str(), v[0].subject.as_str(), v[0].start), ("A", "D", 3));
        },
        _ => panic!("the Lernbüros are answered"),
    }
}

#[test]
fn failed_lernbuero_requests_carry_their_codes() {
    let p = TimetableParameter::default(1, 5, "20240108".to_string(), "20240112".to_string());
    let (_, a) = lernbuero_step(LernbueroFetch::Classes(p), LernbueroEvent::Classes(Err(Error::Reqwest("x".to_string()))));
    assert!(matches!(a, LernbueroAction::Answer(Err(Error::UntisError(m))) if m == "x 478"));
    let (_, a) = lernbuero_step(LernbueroFetch::Holidays(vec![], 20240108, 20240112), LernbueroEvent::Holidays(Err(Error::Reqwest("x".to_string()))));
    assert!(matches!(a, LernbueroAction::Answer(Err(Error::UntisError(m))) if m == "x 172 533"));
    let (_, a) = lernbuero_step(LernbueroFetch::Timegrid(vec![], vec![], 20240108), LernbueroEvent::Timegrid(Err(Error::Reqwest("x".to_string()))));
    assert!(matches!(a, LernbueroAction::Answer(Err(Error::UntisError(m))) if m == "x 258 631"));
    let bad = TimetableParameter::default(1, 5, "20240108".to_string(), "end".to_string());
    let (_, a) = lernbuero_step(LernbueroFetch::Manual(bad, vec![]), LernbueroEvent::Manual(Ok(vec![])));
    assert!(matches!(a, LernbueroAction::Answer(Err(Error::UntisError(m))) if m == "invalid digit found in string 530"));
}
