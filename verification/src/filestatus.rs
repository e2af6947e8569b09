//! The status snapshot a view surfaces to the chrome widgets, and its
//! textual indicators.

use vstd::prelude::*;
use crate::annotatedstring::sat_add_spec;
use crate::unicode::chars_to_string;

verus! {

pub open spec fn spec_digit(d: int) -> char {
    if d == 0 {
        '0'
    } else if d == 1 {
        '1'
    } else if d == 2 {
        '2'
    } else if d == 3 {
        '3'
    } else if d == 4 {
        '4'
    } else if d == 5 {
        '5'
    } else if d == 6 {
        '6'
    } else if d == 7 {
        '7'
    } else if d == 8 {
        '8'
    } else {
        '9'
    }
}

/// The decimal digits of `n`, most significant first.
pub open spec fn spec_digits(n: int) -> Seq<char>
    decreases n,
{
    if n < 10 {
        seq![spec_digit(n)]
    } else {
        spec_digits(n / 10).push(spec_digit(n % 10))
    }
}

fn digit_char(d: usize) -> (c: char)
    requires
        d < 10,
    ensures
        c == spec_digit(d as int),
{
    match d {
        0 => '0',
        1 => '1',
        2 => '2',
        3 => '3',
        4 => '4',
        5 => '5',
        6 => '6',
        7 => '7',
        8 => '8',
        _ => '9',
    }
}

/// Render a number in decimal.
pub fn usize_to_string(n: usize) -> (r: String)
    ensures
        r@ == spec_digits(n as int),
{
    let mut acc: Vec<char> = Vec::new();
    let mut m = n;
    proof {
        assert(spec_digits(n as int) =~= spec_digits(n as int) + acc@);
    }
    while m >= 10
        invariant
            spec_digits(n as int) == spec_digits(m as int) + acc@,
        decreases m,
    {
        let d = m % 10;
        let c = digit_char(d);
        let ghost prev = acc@;
        let ghost before = m as int;
        acc.insert(0, c);
        m = m / 10;
        proof {
            assert(acc@ =~= seq![spec_digit(before % 10)] + prev);
            assert(spec_digits(before) == spec_digits(m as int).push(spec_digit(before % 10)));
            assert(spec_digits(m as int) + acc@ =~= spec_digits(m as int).push(
                spec_digit(before % 10),
            ) + prev);
        }
    }
    let c = digit_char(m);
    let ghost prev = acc@;
    acc.insert(0, c);
    proof {
        assert(acc@ =~= seq![spec_digit(m as int)] + prev);
        assert(spec_digits(m as int) == seq![spec_digit(m as int)]);
        assert(acc@ =~= spec_digits(n as int));
    }
    chars_to_string(&acc)
}

/// Line count, current position, modified flag and file name, as the
/// status bar displays them.
pub struct FileStatus {
    pub lines_count: usize,
    pub current_line_index: usize,
    pub modified: bool,
    pub file_name: String,
}

impl FileStatus {
    /// Whether two snapshots display identically.
    pub fn same_as(&self, other: &FileStatus) -> (b: bool)
        ensures
            b == (self.lines_count == other.lines_count && self.current_line_index
                == other.current_line_index && self.modified == other.modified && self.file_name@
                == other.file_name@),
    {
        self.lines_count == other.lines_count && self.current_line_index
            == other.current_line_index && self.modified == other.modified && self.file_name.eq(
            &other.file_name,
        )
    }

    pub fn modified_indicator_to_string(&self) -> (r: String)
        ensures
            self.modified ==> r@ == "Modified"@,
            !self.modified ==> r@ == "Not modified"@,
    {
        if self.modified {
            "Modified".to_owned()
        } else {
            "Not modified".to_owned()
        }
    }

    pub fn lines_count_to_string(&self) -> (r: String)
        ensures
            self.lines_count != 1 ==> r@ == spec_digits(self.lines_count as int) + " lines"@,
            self.lines_count == 1 ==> r@ == "1 line"@,
    {
        if self.lines_count != 1 {
            let mut s = usize_to_string(self.lines_count);
            s.append(" lines");
            s
        } else {
            "1 line".to_owned()
        }
    }

    /// `current+1:total`, the one-based position indicator.
    pub fn position_indicator_to_string(&self) -> (r: String)
        ensures
            r@ == spec_digits(sat_add_spec(self.current_line_index as int, 1)) + ":"@
                + spec_digits(self.lines_count as int),
    {
        let line = if self.current_line_index < usize::MAX {
            self.current_line_index + 1
        } else {
            usize::MAX
        };
        let mut s = usize_to_string(line);
        s.append(":");
        let total = usize_to_string(self.lines_count);
        s.append(total.as_str());
        s
    }
}

} // verus!
