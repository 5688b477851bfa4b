use tdlist::app::App;
use tdlist::configuration::{Settings, SettingsBuilder};
use tdlist::repeat::{MonthlyAnchor, Repeat};
use tdlist::task::{RecordError, Task, TaskRecord};
use tdlist::task_form::TaskForm;
use tdlist::utils::{get_today, Timestamp};

fn settings() -> Settings {
    SettingsBuilder::default().build()
}

fn task(id: Option<usize>, name: &str) -> Task {
    Task {
        id,
        name: name.to_string(),
        date: Timestamp { year: 2024, month: 3, day: 1, hour: 23, minute: 59, second: 59, offset: 0 },
        repeats: Repeat::Never,
        group: None,
        description: None,
        url: None,
        complete: false,
    }
}

#[test]
fn empty_store_starts_at_zero() {
    let app = App::new(settings(), Vec::new());
    assert_eq!(app.current_id, 0);
    assert!(app.tasks.is_empty());
    assert!(app.get_task(1).is_none());
    assert_eq!(app.settings, settings());
}

#[test]
fn loaded_store_takes_highest_id() {
    let entries = vec![(3, task(Some(3), "c")), (9, task(Some(9), "i")), (5, task(Some(5), "e"))];
    let mut app = App::new(settings(), entries);
    assert_eq!(app.current_id, 9);
    assert_eq!(app.tasks.len(), 3);
    assert_eq!(app.get_task(5).unwrap().name, "e");
    assert_eq!(app.add_task(task(None, "j")), 10);
}

#[test]
fn of_two_entries_with_one_id_the_first_stays() {
    let entries = vec![(3, task(Some(3), "first")), (3, task(Some(3), "second"))];
    let app = App::new(settings(), entries);
    assert_eq!(app.tasks.len(), 1);
    assert_eq!(app.get_task(3).unwrap().name, "first");
    assert_eq!(app.current_id, 3);
}

#[test]
fn fresh_ids_are_distinct_and_increase() {
    let mut app = App::new(settings(), Vec::new());
    let a = app.add_task(task(None, "a"));
    let b = app.add_task(task(None, "b"));
    assert_eq!(a, 1);
    assert_eq!(b, 2);
    assert_eq!(app.current_id, 2);
    assert_eq!(app.get_task(a).unwrap().id, Some(1));
    assert_eq!(app.get_task(b).unwrap().id, Some(2));
    assert_eq!(app.get_task(b).unwrap().name, "b");
}

#[test]
fn watermark_survives_deleting_the_highest() {
    let mut app = App::new(settings(), Vec::new());
    app.add_task(task(None, "a"));
    let b = app.add_task(task(None, "b"));
    let removed = app.delete_task(b);
    assert_eq!(removed.unwrap().name, "b");
    assert_eq!(app.current_id, 2);
    assert!(app.get_task(b).is_none());
    assert_eq!(app.add_task(task(None, "c")), 3);
    assert!(app.delete_task(40).is_none());
    assert_eq!(app.current_id, 3);
}

#[test]
fn task_with_id_overwrites() {
    let mut app = App::new(settings(), Vec::new());
    let a = app.add_task(task(None, "a"));
    assert_eq!(app.add_task(task(Some(a), "a, edited")), a);
    assert_eq!(app.tasks.len(), 1);
    assert_eq!(app.get_task(a).unwrap().name, "a, edited");
    assert_eq!(app.current_id, 1);
    assert_eq!(app.add_task(task(Some(12), "far")), 12);
    assert_eq!(app.current_id, 1);
    assert_eq!(app.get_task(12).unwrap().id, Some(12));
}

#[test]
fn complete_flips_the_flag() {
    let mut app = App::new(settings(), Vec::new());
    let a = app.add_task(task(None, "a"));
    assert!(app.complete_task(a));
    assert!(app.get_task(a).unwrap().complete);
    assert_eq!(app.get_task(a).unwrap().name, "a");
    assert!(app.complete_task(a));
    assert!(!app.get_task(a).unwrap().complete);
    assert!(!app.complete_task(99));
    assert_eq!(app.tasks.len(), 1);
    assert_eq!(app.current_id, 1);
}

#[test]
fn add_then_list_scenario() {
    let s = settings();
    let mut app = App::new(s.clone(), Vec::new());
    let mut first = TaskForm {
        id: None,
        name: "Buy milk".to_string(),
        date: "2024-03-01".to_string(),
        repeats: "weekly".to_string(),
        group: String::new(),
        description: String::new(),
        url: String::new(),
    };
    let id = app.add_task(first.submit(&s).unwrap());
    assert_eq!(id, 1);
    let stored = app.get_task(1).unwrap();
    assert_eq!(stored.id, Some(1));
    assert_eq!(stored.repeats, Repeat::Weekly);
    assert_eq!(
        (stored.date.year, stored.date.month, stored.date.day),
        (2024, 3, 1)
    );
    assert_eq!((stored.date.hour, stored.date.minute, stored.date.second), (23, 59, 59));

    let before = get_today().unwrap();
    let mut second = TaskForm {
        id: None,
        name: "Water plants".to_string(),
        date: String::new(),
        repeats: String::new(),
        group: String::new(),
        description: String::new(),
        url: String::new(),
    };
    let id = app.add_task(second.submit(&s).unwrap());
    let after = get_today().unwrap();
    assert_eq!(id, 2);
    let stored = app.get_task(2).unwrap();
    assert_eq!(stored.repeats, Repeat::Never);
    assert!(stored.date == before || stored.date == after);
}

#[test]
fn record_round_trip_keeps_every_field() {
    let s = settings();
    let mut full = TaskForm {
        id: Some(3),
        name: "Pay rent".to_string(),
        date: "2024-03-01 09:30:00".to_string(),
        repeats: "monthly-weekday".to_string(),
        group: "home".to_string(),
        description: "standing order".to_string(),
        url: "https://bank.example".to_string(),
    }
    .submit(&s)
    .unwrap();
    full.complete = true;
    let bare = TaskForm {
        id: None,
        name: "Nap".to_string(),
        date: String::new(),
        repeats: String::new(),
        group: String::new(),
        description: String::new(),
        url: String::new(),
    }
    .submit(&s)
    .unwrap();
    let custom = Task { repeats: Repeat::Custom("every 3 days".to_string()), ..bare.clone() };
    for t in vec![full.clone(), bare, custom] {
        let record: TaskRecord = t.to_record().unwrap();
        assert_eq!(record.repeats, t.repeats.to_string());
        assert_eq!(record.into_task(), Ok(t));
    }
    let record = full.to_record().unwrap();
    assert_eq!(record.repeats, "monthly-weekday");
    assert_eq!(full.repeats, Repeat::Monthly(MonthlyAnchor::DayOfWeek));
    assert_eq!(record.id, Some(3));
    assert_eq!(record.group, Some("home".to_string()));
    assert!(record.complete);
}

#[test]
fn bad_records_are_refused() {
    assert_eq!(task(Some(1), "a").to_record().unwrap().date, "2024-03-01T23:59:59+00:00");
    let local = TaskForm {
        id: Some(1),
        name: "a".to_string(),
        date: "2024-03-01".to_string(),
        repeats: String::new(),
        group: String::new(),
        description: String::new(),
        url: String::new(),
    }
    .submit(&settings())
    .unwrap();
    let good = local.to_record().unwrap();
    assert!(good.date.starts_with("2024-03-01T23:59:59"));
    assert_eq!(good.clone().into_task(), Ok(local));
    let bad_date = TaskRecord { date: "soon".to_string(), ..good.clone() };
    assert_eq!(bad_date.into_task(), Err(RecordError::BadDate));
    let bad_repeat = TaskRecord { repeats: "Weekly".to_string(), ..good.clone() };
    assert_eq!(bad_repeat.into_task(), Err(RecordError::BadRepeat));
    let both = TaskRecord { date: "soon".to_string(), repeats: "Weekly".to_string(), ..good.clone() };
    assert_eq!(both.into_task(), Err(RecordError::BadDate));
    let d = Timestamp { year: 2024, month: 3, day: 1, hour: 8, minute: 0, second: 0, offset: 0 };
    assert_eq!(good.clone().into_task_dated(Some(d)).unwrap().date, d);
    assert_eq!(good.clone().into_task_dated(None), Err(RecordError::BadDate));
    assert_eq!(RecordError::BadDate.message(), "Unable to parse database file");
    let mut impossible = task(Some(1), "a");
    impossible.date.month = 13;
    assert_eq!(impossible.to_record(), None);
}

#[test]
fn stored_tasks_carry_their_number() {
    let mut app = App::new(settings(), Vec::new());
    app.add_task(task(None, "a"));
    app.add_task(task(Some(8), "b"));
    app.add_task(task(None, "c"));
    app.complete_task(2);
    app.delete_task(1);
    for (id, t) in app.tasks.iter() {
        assert_eq!(t.id, Some(*id));
    }
    assert_eq!(app.tasks.len(), 2);
}
