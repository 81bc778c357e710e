use vstd::prelude::*;
use vstd::string::{StrSliceExecFns, StringExecFns};

verus! {

/// The first field of a CSV line: the text before the first comma, or the
/// whole line when it has none.
pub open spec fn first_field(line: Seq<char>) -> Seq<char>
    decreases line.len(),
{
    if line.len() == 0 {
        Seq::empty()
    } else if line[0] == ',' {
        Seq::empty()
    } else {
        seq![line[0]] + first_field(line.skip(1))
    }
}

/// The last field of a CSV line: the text after the last comma, or the
/// whole line when it has none.
pub open spec fn last_field(line: Seq<char>) -> Seq<char>
    decreases line.len(),
{
    if line.len() == 0 {
        Seq::empty()
    } else if line.last() == ',' {
        Seq::empty()
    } else {
        last_field(line.drop_last()).push(line.last())
    }
}

/// The first field of a CSV line: where the record store keeps the date.
pub fn first_csv_field(line: &str) -> (r: &str)
    ensures
        r@ == first_field(line@),
{
    let n = line.unicode_len();
    let mut i: usize = 0;
    proof {
        assert(line@.take(0) =~= Seq::<char>::empty());
        assert(line@.skip(0) =~= line@);
    }
    while i < n && line.get_char(i) != ','
        invariant
            0 <= i <= n,
            n == line@.len(),
            first_field(line@) == line@.take(i as int) + first_field(line@.skip(i as int)),
            i < n ==> line@[i as int] != ',' || first_field(line@.skip(i as int))
                == Seq::<char>::empty(),
        decreases n - i,
    {
        proof {
            let rest = line@.skip(i as int);
            assert(rest[0] == line@[i as int]);
            assert(rest.skip(1) =~= line@.skip(i as int + 1));
            assert(line@.take(i as int) + seq![line@[i as int]] =~= line@.take(i as int + 1));
            assert((line@.take(i as int) + seq![line@[i as int]]) + first_field(
                line@.skip(i as int + 1),
            ) =~= line@.take(i as int) + (seq![line@[i as int]] + first_field(
                line@.skip(i as int + 1),
            )));
        }
        i = i + 1;
    }
    proof {
        if i < n {
            assert(first_field(line@.skip(i as int)) =~= Seq::<char>::empty());
        } else {
            assert(line@.skip(i as int) =~= Seq::<char>::empty());
        }
        assert(first_field(line@) =~= line@.take(i as int));
        assert(line@.subrange(0, i as int) =~= line@.take(i as int));
    }
    line.substring_char(0, i)
}

/// The last field of a CSV line: where the record store keeps the
/// completed-pomodoro count.
pub fn last_csv_field(line: &str) -> (r: &str)
    ensures
        r@ == last_field(line@),
{
    let n = line.unicode_len();
    let mut i: usize = n;
    proof {
        assert(line@.take(n as int) =~= line@);
        assert(line@.skip(n as int) =~= Seq::<char>::empty());
        assert(last_field(line@) =~= last_field(line@.take(n as int)) + line@.skip(n as int));
    }
    while i > 0 && line.get_char(i - 1) != ','
        invariant
            0 <= i <= n,
            n == line@.len(),
            last_field(line@) == last_field(line@.take(i as int)) + line@.skip(i as int),
            i > 0 ==> line@[i as int - 1] != ',' || last_field(line@.take(i as int))
                == Seq::<char>::empty(),
        decreases i,
    {
        proof {
            let upto = line@.take(i as int);
            assert(upto.last() == line@[i as int - 1]);
            assert(upto.drop_last() =~= line@.take(i as int - 1));
            assert(last_field(upto) == last_field(line@.take(i as int - 1)).push(
                line@[i as int - 1],
            ));
            assert(last_field(line@.take(i as int - 1)).push(line@[i as int - 1]) + line@.skip(
                i as int,
            ) =~= last_field(line@.take(i as int - 1)) + line@.skip(i as int - 1));
        }
        i = i - 1;
    }
    proof {
        if i > 0 {
            assert(last_field(line@.take(i as int)) =~= Seq::<char>::empty());
        } else {
            assert(line@.take(0) =~= Seq::<char>::empty());
            assert(last_field(line@.take(0)) =~= Seq::<char>::empty());
        }
        assert(last_field(line@) =~= line@.skip(i as int));
        assert(line@.subrange(i as int, n as int) =~= line@.skip(i as int));
    }
    line.substring_char(i, n)
}

/// The fields of one record joined with commas into one CSV line.
pub open spec fn csv_line(fields: Seq<String>) -> Seq<char>
    decreases fields.len(),
{
    if fields.len() == 0 {
        Seq::empty()
    } else if fields.len() == 1 {
        fields[0]@
    } else {
        fields[0]@ + ","@ + csv_line(fields.skip(1))
    }
}

/// The place and line format of the CSV record store. The library builds
/// the path and the lines; the embedding moves them to and from disk.
pub struct CsvFile {
    pub filename: String,
}

impl CsvFile {
    /// The record store lives at `filepath/filename.csv`.
    pub fn new(filepath: String, filename: String) -> (r: CsvFile)
        ensures
            r.filename@ == filepath@ + "/"@ + filename@ + ".csv"@,
    {
        let mut full = filepath;
        full.append("/");
        full.append(filename.as_str());
        full.append(".csv");
        CsvFile { filename: full }
    }

    /// Joins the fields with commas into one CSV line.
    pub fn create_csv_line_from_vec(&self, vec: &Vec<String>) -> (r: String)
        ensures
            r@ == csv_line(vec@),
    {
        let mut write_string = String::new();
        let mut i: usize = 0;
        proof {
            assert(vec@.skip(0) =~= vec@);
            assert(csv_line(vec@) =~= write_string@ + csv_line(vec@.skip(0)));
        }
        while i < vec.len()
            invariant
                i <= vec@.len(),
                csv_line(vec@) == write_string@ + csv_line(vec@.skip(i as int)),
                i == 0 ==> write_string@.len() == 0,
            decreases vec@.len() - i,
        {
            let ghost rest = vec@.skip(i as int);
            proof {
                assert(rest[0] == vec@[i as int]);
                assert(rest.skip(1) =~= vec@.skip(i as int + 1));
            }
            write_string.append(vec[i].as_str());
            if i < vec.len() - 1 {
                write_string.append(",");
                proof {
                    assert(csv_line(vec@) =~= write_string@ + csv_line(vec@.skip(i as int + 1)));
                }
            } else {
                proof {
                    assert(rest.len() == 1);
                    assert(csv_line(vec@) =~= write_string@ + csv_line(vec@.skip(i as int + 1)));
                }
            }
            i = i + 1;
        }
        proof {
            assert(csv_line(vec@) =~= write_string@);
        }
        write_string
    }
}

} // verus!
