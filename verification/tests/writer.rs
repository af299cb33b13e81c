use gpui_ext::writer::{data_file_name, EditAction, Save, SaveSchedule, SAVE_DELAY_SECS};

#[derive(Debug, Clone, PartialEq)]
struct Plain {
    name: String,
}

impl Save for Plain {}

#[derive(Debug, Clone, PartialEq)]
struct Trimmed {
    name: String,
}

impl Save for Trimmed {
    fn pre_save(&mut self) {
        self.name = self.name.trim().to_string();
    }
}

#[test]
fn default_pre_save_leaves_value_alone() {
    let mut v = Plain { name: "  theme  ".to_string() };
    v.pre_save();
    assert_eq!(v, Plain { name: "  theme  ".to_string() });
}

#[test]
fn custom_pre_save_runs() {
    let mut v = Trimmed { name: "  theme  ".to_string() };
    v.pre_save();
    assert_eq!(v.name, "theme");
}

#[test]
fn file_name_adds_json_extension() {
    assert_eq!(data_file_name("Config"), "Config.json");
    assert_eq!(data_file_name("Data"), "Data.json");
    assert_eq!(data_file_name(""), ".json");
}

#[test]
fn new_schedule_has_nothing_pending() {
    let s = SaveSchedule::new();
    assert!(!s.is_pending());
}

#[test]
fn first_edit_schedules_a_delayed_write() {
    let mut s = SaveSchedule::new();
    assert_eq!(s.edit(), EditAction::ScheduleSave { delay_secs: 5 });
    assert_eq!(SAVE_DELAY_SECS, 5);
    assert!(s.is_pending());
}

#[test]
fn later_edits_share_the_scheduled_write() {
    let mut s = SaveSchedule::new();
    s.edit();
    assert_eq!(s.edit(), EditAction::AlreadyScheduled);
    assert_eq!(s.edit(), EditAction::AlreadyScheduled);
    assert!(s.is_pending());
}

#[test]
fn write_clears_the_schedule() {
    let mut s = SaveSchedule::new();
    s.edit();
    s.begin_write();
    assert!(!s.is_pending());
    assert_eq!(s.edit(), EditAction::ScheduleSave { delay_secs: SAVE_DELAY_SECS });
}

#[test]
fn forced_write_without_edit_schedules_nothing() {
    let mut s = SaveSchedule::new();
    s.begin_write();
    assert!(!s.is_pending());
    assert_eq!(s.edit(), EditAction::ScheduleSave { delay_secs: 5 });
}

#[test]
fn one_timer_per_write_on_a_run_of_events() {
    // edit, edit, write, edit, write, write, edit: three timers, three writes
    let mut s = SaveSchedule::new();
    let mut timers = 0;
    let mut writes = 0;
    for ev in ["e", "e", "w", "e", "w", "w", "e"] {
        if ev == "e" {
            if let EditAction::ScheduleSave { .. } = s.edit() {
                timers += 1;
            }
        } else {
            s.begin_write();
            writes += 1;
        }
        assert!(timers <= writes + 1);
    }
    assert_eq!(timers, 3);
    assert_eq!(writes, 3);
    assert!(s.is_pending());
}
