use tdlist::configuration::{Settings, SettingsBuilder};
use tdlist::repeat::{MonthlyAnchor, Repeat};
use tdlist::task::Task;
use tdlist::task_form::{optional_text, SubmitError, TaskForm};
use tdlist::utils::{get_today, DateError, Timestamp};

fn settings() -> Settings {
    SettingsBuilder::default().build()
}

fn form(name: &str, date: &str, repeats: &str) -> TaskForm {
    TaskForm {
        id: None,
        name: name.to_string(),
        date: date.to_string(),
        repeats: repeats.to_string(),
        group: String::new(),
        description: String::new(),
        url: String::new(),
    }
}

#[test]
fn submit_builds_the_task() {
    let mut f = form("Buy milk", "2024-03-01", "weekly");
    let t = f.submit(&settings()).unwrap();
    assert_eq!(t.id, None);
    assert_eq!(t.name, "Buy milk");
    assert_eq!(
        (t.date.year, t.date.month, t.date.day, t.date.hour, t.date.minute, t.date.second),
        (2024, 3, 1, 23, 59, 59)
    );
    assert_eq!(t.repeats, Repeat::Weekly);
    assert_eq!(t.group, None);
    assert_eq!(t.description, None);
    assert_eq!(t.url, None);
    assert!(!t.complete);
    assert_eq!(f.name, "Buy milk");
    assert_eq!(f.date, "2024-03-01");
}

#[test]
fn submit_copies_id_and_optional_fields() {
    let mut f = TaskForm {
        id: Some(7),
        name: "Call home".to_string(),
        date: "2024-03-01 18:00:00".to_string(),
        repeats: "monthly".to_string(),
        group: "family".to_string(),
        description: "ask about the weekend".to_string(),
        url: "https://example.org".to_string(),
    };
    let t = f.submit(&settings()).unwrap();
    assert_eq!(t.id, Some(7));
    assert_eq!(t.repeats, Repeat::Monthly(MonthlyAnchor::DayOfMonth));
    assert_eq!((t.date.hour, t.date.minute, t.date.second), (18, 0, 0));
    assert_eq!(t.group, Some("family".to_string()));
    assert_eq!(t.description, Some("ask about the weekend".to_string()));
    assert_eq!(t.url, Some("https://example.org".to_string()));
    assert!(!t.complete);
}

#[test]
fn submit_with_any_optional_fields_succeeds() {
    for mask in 0..8 {
        let mut f = form("x", "", "");
        if mask & 1 != 0 {
            f.group = "g".to_string();
        }
        if mask & 2 != 0 {
            f.description = "d".to_string();
        }
        if mask & 4 != 0 {
            f.url = "u".to_string();
        }
        f.id = if mask % 2 == 0 { None } else { Some(mask) };
        let t = f.submit(&settings()).unwrap();
        assert!(!t.complete);
        assert_eq!(t.id, f.id);
        assert_eq!(t.group.is_some(), mask & 1 != 0);
        assert_eq!(t.description.is_some(), mask & 2 != 0);
        assert_eq!(t.url.is_some(), mask & 4 != 0);
    }
}

#[test]
fn empty_name_is_refused() {
    let mut f = form("", "2024-03-01", "weekly");
    assert_eq!(f.submit(&settings()), Err(SubmitError::EmptyName));
    let mut g = form("", "", "sometimes");
    assert_eq!(g.submit(&settings()), Err(SubmitError::EmptyName));
    assert_eq!(SubmitError::EmptyName.message(), "Task name cannot be empty");
}

#[test]
fn unknown_repeat_is_refused() {
    let mut f = form("Buy milk", "2024-03-01", "sometimes");
    assert_eq!(f.submit(&settings()), Err(SubmitError::InvalidRepeat));
    assert_eq!(SubmitError::InvalidRepeat.message(), "Invalid repeat format");
}

#[test]
fn empty_date_means_today_end_of_day() {
    let before = get_today().unwrap();
    let mut f = form("Buy milk", "", "");
    let t = f.submit(&settings()).unwrap();
    let after = get_today().unwrap();
    assert!(t.date == before || t.date == after);
    assert_eq!((t.date.hour, t.date.minute, t.date.second), (23, 59, 59));
    assert_eq!(t.repeats, Repeat::Never);
}

#[test]
fn unreadable_date_falls_back_to_today() {
    let before = get_today().unwrap();
    let mut f = form("Buy milk", "whenever", "daily");
    let t = f.submit(&settings()).unwrap();
    let after = get_today().unwrap();
    assert!(t.date == before || t.date == after);
    assert_eq!(t.repeats, Repeat::Daily);
}

#[test]
fn assemble_decides_from_the_readings() {
    let today = Timestamp { year: 2024, month: 5, day: 6, hour: 23, minute: 59, second: 59, offset: 0 };
    let read = Timestamp { year: 2024, month: 3, day: 1, hour: 8, minute: 0, second: 0, offset: 0 };
    let f = form("Buy milk", "2024-03-01 08:00:00", "");
    assert_eq!(f.assemble(Ok(read), Some(today)).unwrap().date, read);
    assert_eq!(f.assemble(Ok(read), None).unwrap().date, read);
    assert_eq!(f.assemble(Err(DateError::Unparsable), Some(today)).unwrap().date, today);
    assert_eq!(f.assemble(Err(DateError::NoLocalTime), None), Err(SubmitError::NoLocalTime));
    let g = form("Buy milk", "", "");
    assert_eq!(g.assemble(Ok(read), Some(today)).unwrap().date, today);
    assert_eq!(g.assemble(Err(DateError::Unparsable), None), Err(SubmitError::NoLocalTime));
    assert_eq!(
        SubmitError::NoLocalTime.message(),
        "Unable to determine today's date"
    );
}

#[test]
fn optional_text_drops_empty() {
    assert_eq!(optional_text(&String::new()), None);
    assert_eq!(optional_text(&"a".to_string()), Some("a".to_string()));
}

#[test]
fn blank_task_and_setters() {
    let mut t = Task::default();
    assert_eq!(t.id, None);
    assert_eq!(t.name, "");
    assert_eq!(t.repeats, Repeat::Never);
    assert_eq!(t.group, None);
    assert_eq!(t.description, None);
    assert_eq!(t.url, None);
    assert!(!t.complete);
    let d = Timestamp { year: 2024, month: 3, day: 1, hour: 8, minute: 0, second: 0, offset: 0 };
    t.set_id(Some(4));
    t.set_name("n".to_string());
    t.set_date(d);
    t.set_repeats(Repeat::Yearly);
    t.set_group("g".to_string());
    t.set_description("d".to_string());
    t.set_url("u".to_string());
    t.set_complete(true);
    assert_eq!(
        t,
        Task {
            id: Some(4),
            name: "n".to_string(),
            date: d,
            repeats: Repeat::Yearly,
            group: Some("g".to_string()),
            description: Some("d".to_string()),
            url: Some("u".to_string()),
            complete: true,
        }
    );
}
