use vstd::prelude::*;
use crate::decimal::u32_to_string;
use crate::observers::Observer;
use crate::pomodoro::PomodoroStates;
use crate::recordfile::RecordFile;

verus! {

/// Relies on chrono's `Utc::now` and its date formatting: yields the
/// current UTC date as `YYYY-MM-DD` text. The result depends on the clock,
/// so nothing is promised of it.
#[verifier::external_body]
fn current_date_string() -> String {
    chrono::Utc::now().format("%Y-%m-%d").to_string()
}

/// True exactly when the record store reported a last record and that
/// record carries the given date.
pub fn last_record_is_from(last: &Option<(String, usize)>, today: &String) -> (r: bool)
    ensures
        r <==> (last matches Some(p) && p.0@ == today@),
{
    match last {
        Some(pair) => pair.0 == *today,
        None => false,
    }
}

/// Where the new record goes, given what the record store reported: over
/// the existing line when the last record is from the given date, appended
/// as a new line otherwise.
pub fn record_position(last: &Option<(String, usize)>, today: &String) -> (r: Option<usize>)
    ensures
        (match last {
            Some(p) => r == (if p.0@ == today@ {
                Some(p.1)
            } else {
                None::<usize>
            }),
            None => r is None,
        }),
{
    match last {
        Some(pair) => if pair.0 == *today {
            Some(pair.1)
        } else {
            None
        },
        None => None,
    }
}

/// Whether a completion notification warrants writing the record: only a
/// positive count does, as a fresh engine has nothing worth recording yet.
pub fn should_record(finished_pomodoros: u32) -> (r: bool)
    ensures
        r <==> finished_pomodoros > 0,
{
    finished_pomodoros > 0
}

/// The persistence observer: keeps the completed-pomodoro count of the
/// current date in a record store, one record per date.
pub struct Record<F: RecordFile> {
    pub record_file: F,
    pub seen: Ghost<Seq<(PomodoroStates, u32)>>,
}

impl<F: RecordFile> Record<F> {
    pub fn new(record_file: F) -> (r: Record<F>)
        ensures
            r.record_file == record_file,
            r.seen@ == Seq::<(PomodoroStates, u32)>::empty(),
    {
        Record { record_file, seen: Ghost(Seq::empty()) }
    }

    /// Creates the record store with its column headers if it is missing.
    pub fn initialize(&self) {
        let headers = self.construct_content_vec(
            "Date".to_owned(),
            "Number of pomodoros".to_owned(),
        );
        self.record_file.open_or_create_with_headers(&headers);
    }

    /// The count persisted for the current date, if the store holds one:
    /// a count recorded under an earlier date does not carry over.
    pub fn no_of_finished_pomodoros_from_record(&self) -> Option<u32> {
        let today = current_date_string();
        let last = self.record_file.get_last_pomodoro_date_and_line_no();
        if last_record_is_from(&last, &today) {
            self.record_file.get_last_pomodoro_count()
        } else {
            None
        }
    }

    fn process(&self, _next_state: PomodoroStates, finished_pomodoros: u32) {
        match self.write_record(finished_pomodoros) {
            // the store reports its own failures; a failed write must not
            // abort the cycle
            Ok(()) => (),
            Err(()) => (),
        }
    }

    /// Persists the new count under the current date: overwrites today's
    /// record when one exists, appends a new one otherwise.
    fn write_record(&self, finished_pomodoros: u32) -> Result<(), ()> {
        let today = current_date_string();
        let number = u32_to_string(finished_pomodoros);
        let content_vec = self.construct_content_vec(today.clone(), number);
        let last = self.record_file.get_last_pomodoro_date_and_line_no();
        match record_position(&last, &today) {
            Some(line_pos) => self.record_file.overwrite_record_in_pos_with(
                line_pos,
                content_vec,
            ),
            None => self.record_file.write_record_to_new_line(content_vec),
        }
    }

    fn construct_content_vec(&self, first_str: String, sec_str: String) -> (v: Vec<String>)
        ensures
            v@ == seq![first_str, sec_str],
    {
        let mut v: Vec<String> = Vec::new();
        v.push(first_str);
        v.push(sec_str);
        proof {
            assert(v@ =~= seq![first_str, sec_str]);
        }
        v
    }
}

impl<F: RecordFile> Observer for Record<F> {
    open spec fn received(&self) -> Seq<(PomodoroStates, u32)> {
        self.seen@
    }

    /// Acts only when the count warrants a record.
    fn callback(&mut self, next_state: PomodoroStates, finished_pomodoros: u32) {
        self.seen = Ghost(self.seen@.push((next_state, finished_pomodoros)));
        if should_record(finished_pomodoros) {
            self.process(next_state, finished_pomodoros);
        }
    }
}

} // verus!
