use vstd::prelude::*;

verus! {

/// Hook run on a copy of the value just before it is written to disk,
/// e.g. to strip whitespace from a string. By default it does nothing.
pub trait Save: Sized {
    fn pre_save(&mut self)
        default_ensures
            *final(self) == *old(self),
    {
    }
}

/// Seconds between the first edit of a value and the write that follows it.
pub const SAVE_DELAY_SECS: u64 = 5;

/// The name of the file that holds a value registered under `name`.
pub open spec fn spec_data_file_name(name: Seq<char>) -> Seq<char> {
    name + ".json"@
}

/// A stored value's file name is its name followed by the extension
/// `.json`, for names of every length: it keeps the whole name as its
/// prefix, ends in `.json`, is five characters longer, and different names
/// give different file names.
pub proof fn lemma_data_file_name_is_name_dot_json(name: Seq<char>, other: Seq<char>)
    ensures
        spec_data_file_name(name).len() == name.len() + 5,
        spec_data_file_name(name).subrange(0, name.len() as int) == name,
        spec_data_file_name(name).subrange(name.len() as int, name.len() + 5int) == seq!['.', 'j', 's', 'o', 'n'],
        name != other ==> spec_data_file_name(name) != spec_data_file_name(other),
{
    reveal_strlit(".json");
    let f = spec_data_file_name(name);
    assert(f.subrange(0, name.len() as int) =~= name);
    assert(f.subrange(name.len() as int, name.len() + 5int) =~= seq!['.', 'j', 's', 'o', 'n']);
    if name != other && f == spec_data_file_name(other) {
        let g = spec_data_file_name(other);
        assert(g.subrange(0, other.len() as int) =~= other);
        assert(name.len() == other.len());
        assert(name =~= other);
    }
}

/// `name` followed by `.json`.
pub fn data_file_name(name: &str) -> (file: String)
    ensures
        file@ == name@ + ".json"@,
        file@ == spec_data_file_name(name@),
{
    let mut file = String::from_str(name);
    file.append(".json");
    file
}


/// What has to follow an edit of the value.
#[derive(PartialEq, Eq, Debug, Clone, Copy)]
pub enum EditAction {
    /// Start a timer that writes the value to disk after `delay_secs` seconds.
    ScheduleSave { delay_secs: u64 },
    /// A write is already scheduled; it will carry this edit too.
    AlreadyScheduled,
}

/// Something that happens to a persisted value.
#[derive(PartialEq, Eq, Debug, Clone, Copy)]
pub enum ScheduleEvent {
    /// Mutable access was handed out.
    Edit,
    /// The value was written to disk (by the timer or forcibly).
    Write,
}

/// Whether a write is pending after `event`, when `pending` held before it.
pub open spec fn pending_after_event(pending: bool, event: ScheduleEvent) -> bool {
    match event {
        ScheduleEvent::Edit => true,
        ScheduleEvent::Write => false,
    }
}

/// Whether `event` starts a new timer, when `pending` held before it.
pub open spec fn event_schedules(pending: bool, event: ScheduleEvent) -> bool {
    event == ScheduleEvent::Edit && !pending
}

/// Whether a write is pending after `events`, starting from `pending`.
pub open spec fn pending_after(pending: bool, events: Seq<ScheduleEvent>) -> bool
    decreases events.len(),
{
    if events.len() == 0 {
        pending
    } else {
        pending_after_event(pending_after(pending, events.drop_last()), events.last())
    }
}

/// How many timers `events` start, starting from `pending`.
pub open spec fn timers_started(pending: bool, events: Seq<ScheduleEvent>) -> nat
    decreases events.len(),
{
    if events.len() == 0 {
        0
    } else {
        let before = pending_after(pending, events.drop_last());
        timers_started(pending, events.drop_last()) + if event_schedules(before, events.last()) {
            1nat
        } else {
            0nat
        }
    }
}

/// How many writes `events` hold.
pub open spec fn writes_in(events: Seq<ScheduleEvent>) -> nat
    decreases events.len(),
{
    if events.len() == 0 {
        0
    } else {
        writes_in(events.drop_last()) + if events.last() == ScheduleEvent::Write {
            1nat
        } else {
            0nat
        }
    }
}

/// Some edit in `events` has no write after it.
pub open spec fn has_unwritten_edit(events: Seq<ScheduleEvent>) -> bool {
    exists|i: int|
        0 <= i < events.len() && events[i] == ScheduleEvent::Edit && forall|j: int|
            i < j < events.len() ==> events[j] != ScheduleEvent::Write
}

/// Tracks whether a delayed write of the value is already scheduled, so
/// that a burst of edits leads to a single write.
pub struct SaveSchedule {
    pending: bool,
}

impl View for SaveSchedule {
    type V = bool;

    /// Whether a write is scheduled and has not happened yet.
    closed spec fn view(&self) -> bool {
        self.pending
    }
}

impl SaveSchedule {
    /// No write scheduled.
    pub fn new() -> (schedule: SaveSchedule)
        ensures
            !schedule@,
    {
        SaveSchedule { pending: false }
    }

    /// Whether a write is scheduled and has not happened yet.
    pub fn is_pending(&self) -> (pending: bool)
        ensures
            pending == self@,
    {
        self.pending
    }

    /// Mutable access to the value is being handed out: a write must follow.
    /// A timer is started only when none is running.
    pub fn edit(&mut self) -> (action: EditAction)
        ensures
            final(self)@,
            !old(self)@ ==> action == (EditAction::ScheduleSave { delay_secs: 5 }),
            old(self)@ ==> action == EditAction::AlreadyScheduled,
            final(self)@ == pending_after_event(old(self)@, ScheduleEvent::Edit),
            event_schedules(old(self)@, ScheduleEvent::Edit) ==> action == (EditAction::ScheduleSave {
                delay_secs: SAVE_DELAY_SECS,
            }),
            !event_schedules(old(self)@, ScheduleEvent::Edit) ==> action == EditAction::AlreadyScheduled,
    {
        if self.pending {
            EditAction::AlreadyScheduled
        } else {
            self.pending = true;
            EditAction::ScheduleSave { delay_secs: SAVE_DELAY_SECS }
        }
    }

    /// The value is being written to disk: whatever was scheduled is done.
    pub fn begin_write(&mut self)
        ensures
            !final(self)@,
            final(self)@ == pending_after_event(old(self)@, ScheduleEvent::Write),
    {
        self.pending = false;
    }
}

/// At most one timer runs at a time: starting with none scheduled, every
/// timer but the one running now was consumed by a write.
pub proof fn lemma_one_timer_per_write(events: Seq<ScheduleEvent>)
    ensures
        timers_started(false, events) <= writes_in(events) + 1,
        timers_started(false, events) + (if pending_after(false, events) { 0nat } else { 1nat })
            <= writes_in(events) + 1,
    decreases events.len(),
{
    if events.len() > 0 {
        lemma_one_timer_per_write(events.drop_last());
    }
}

/// Every edit is saved: starting with none scheduled, a write is pending
/// exactly when some edit has not been followed by a write.
pub proof fn lemma_pending_iff_unwritten_edit(events: Seq<ScheduleEvent>)
    ensures
        pending_after(false, events) == has_unwritten_edit(events),
    decreases events.len(),
{
    if events.len() > 0 {
        let prefix = events.drop_last();
        lemma_pending_iff_unwritten_edit(prefix);
        let n = events.len() - 1;
        if events.last() == ScheduleEvent::Edit {
            // the last edit has nothing after it
            assert(events[n] == ScheduleEvent::Edit);
        } else if has_unwritten_edit(events) {
            // an unwritten edit of `events` is one of `prefix`, and the last event is no write
            let i = choose|i: int|
                0 <= i < events.len() && events[i] == ScheduleEvent::Edit && forall|j: int|
                    i < j < events.len() ==> events[j] != ScheduleEvent::Write;
            assert(events[n] != ScheduleEvent::Write);
            assert(prefix[i] == ScheduleEvent::Edit);
            assert forall|j: int| i < j < prefix.len() implies prefix[j] != ScheduleEvent::Write by {
                assert(prefix[j] == events[j]);
            }
        }
    }
}

} // verus!
