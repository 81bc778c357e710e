use vstd::prelude::*;
use crate::recordfile::RecordFile;

verus! {

/// A record store that stores nothing: it accepts every write, and reports
/// a fixed date and count when told to report anything at all.
pub struct NullFile {
    pub trigger_success: bool,
    pub date: String,
}

impl NullFile {
    pub fn new(trigger_success: bool, date: String) -> (r: NullFile)
        ensures
            r.trigger_success == trigger_success,
            r.date == date,
    {
        NullFile { trigger_success, date }
    }
}

impl RecordFile for NullFile {
    fn open_or_create_with_headers(&self, _headers: &Vec<String>) {
    }

    fn write_headers(&self, _headers: &Vec<String>) -> Result<(), ()> {
        Ok(())
    }

    fn write_record_to_new_line(&self, _record: Vec<String>) -> Result<(), ()> {
        Ok(())
    }

    fn overwrite_record_in_pos_with(&self, _pos: usize, _record: Vec<String>) -> Result<(), ()> {
        Ok(())
    }

    fn get_last_pomodoro_count(&self) -> Option<u32> {
        if self.trigger_success {
            Some(10)
        } else {
            None
        }
    }

    fn get_last_pomodoro_date_and_line_no(&self) -> Option<(String, usize)> {
        if self.trigger_success {
            Some((self.date.clone(), 1))
        } else {
            None
        }
    }
}

} // verus!
