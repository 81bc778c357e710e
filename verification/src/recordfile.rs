use vstd::prelude::*;

verus! {

/// The record store the persistence observer writes through. Implementors
/// own the storage format and its input and output; the library only
/// decides what to write and where.
pub trait RecordFile {
    fn open_or_create_with_headers(&self, headers: &Vec<String>);

    fn write_headers(&self, headers: &Vec<String>) -> Result<(), ()>;

    fn write_record_to_new_line(&self, record: Vec<String>) -> Result<(), ()>;

    fn overwrite_record_in_pos_with(&self, pos: usize, record: Vec<String>) -> Result<(), ()>;

    fn get_last_pomodoro_count(&self) -> Option<u32>;

    fn get_last_pomodoro_date_and_line_no(&self) -> Option<(String, usize)>;
}

} // verus!
