//! Activity records.  One record per observed unit of contributor activity
//! (a commit, an issue, a discussion, or repository metadata), with a
//! calendar date held as plain year, month and day, and a summary that is
//! written at most once.

use vstd::prelude::*;

verus! {

/// What kind of activity a record describes.
#[derive(Clone, Copy, Debug, PartialEq, Eq, Structural)]
pub enum MemoryType {
    Commit,
    Issue,
    Discussion,
    Meta,
}

/// A calendar date, no time of day.
#[derive(Clone, Copy, Debug, PartialEq, Eq, Structural)]
pub struct Date {
    pub year: u16,
    pub month: u8,
    pub day: u8,
}

impl Date {
    /// A plausible calendar date that the formatter can print.
    pub open spec fn well_formed(self) -> bool {
        1 <= self.month <= 12 && 1 <= self.day <= 31 && self.year <= 9999
    }

    /// The date as one orderable number.
    pub open spec fn ordinal(self) -> int {
        self.year * 10000 + self.month * 100 + self.day
    }

    /// This date falls strictly after the other.
    pub fn is_after(&self, other: &Date) -> (r: bool)
        requires
            self.well_formed(),
            other.well_formed(),
        ensures
            r == (self.ordinal() > other.ordinal()),
    {
        if self.year != other.year {
            self.year > other.year
        } else if self.month != other.month {
            self.month > other.month
        } else {
            self.day > other.day
        }
    }
}

/// The decimal digit character for `n`.
pub open spec fn digit_char(n: int) -> char {
    if n == 0 {
        '0'
    } else if n == 1 {
        '1'
    } else if n == 2 {
        '2'
    } else if n == 3 {
        '3'
    } else if n == 4 {
        '4'
    } else if n == 5 {
        '5'
    } else if n == 6 {
        '6'
    } else if n == 7 {
        '7'
    } else if n == 8 {
        '8'
    } else {
        '9'
    }
}

/// Executable counterpart of `digit_char`.
pub fn digit(n: u16) -> (r: char)
    requires
        n <= 9,
    ensures
        r == digit_char(n as int),
{
    if n == 0 {
        '0'
    } else if n == 1 {
        '1'
    } else if n == 2 {
        '2'
    } else if n == 3 {
        '3'
    } else if n == 4 {
        '4'
    } else if n == 5 {
        '5'
    } else if n == 6 {
        '6'
    } else if n == 7 {
        '7'
    } else if n == 8 {
        '8'
    } else {
        '9'
    }
}

/// Four decimal digits, zero padded.
pub open spec fn dec4(n: int) -> Seq<char> {
    seq![
        digit_char((n / 1000) % 10),
        digit_char((n / 100) % 10),
        digit_char((n / 10) % 10),
        digit_char(n % 10),
    ]
}

/// Two decimal digits, zero padded.
pub open spec fn dec2(n: int) -> Seq<char> {
    seq![digit_char((n / 10) % 10), digit_char(n % 10)]
}

/// A date formatted as `YYYY-MM-DD`.
pub open spec fn date_str_spec(d: Date) -> Seq<char> {
    dec4(d.year as int) + seq!['-'] + dec2(d.month as int) + seq!['-'] + dec2(d.day as int)
}

/// Formats a date as `YYYY-MM-DD`.
pub fn format_date(d: &Date) -> (r: String)
    ensures
        r@ == date_str_spec(*d),
{
    let mut out: Vec<char> = Vec::new();
    out.push(digit((d.year / 1000) % 10));
    out.push(digit((d.year / 100) % 10));
    out.push(digit((d.year / 10) % 10));
    out.push(digit(d.year % 10));
    out.push('-');
    out.push(digit(((d.month / 10) % 10) as u16));
    out.push(digit((d.month % 10) as u16));
    out.push('-');
    out.push(digit(((d.day / 10) % 10) as u16));
    out.push(digit((d.day % 10) as u16));
    proof {
        assert(out@ =~= date_str_spec(*d));
    }
    crate::text::chars_to_string(&out)
}

/// The decimal form of a number, no padding.
pub open spec fn dec_str(n: int) -> Seq<char>
    decreases n,
{
    if n < 10 {
        seq![digit_char(n % 10)]
    } else {
        dec_str(n / 10).push(digit_char(n % 10))
    }
}

/// Formats a number in decimal.
pub fn format_usize(n: usize) -> (r: String)
    ensures
        r@ == dec_str(n as int),
{
    let mut digits: Vec<char> = Vec::new();
    let mut m = n;
    let mut done = false;
    while !done
        invariant
            done ==> dec_str(n as int) == digits@,
            !done ==> dec_str(n as int) == (if m < 10 {
                seq![digit_char(m as int)] + digits@
            } else {
                dec_str(m as int) + digits@
            }),
        decreases m, (if done {
            0int
        } else {
            1int
        }),
    {
        let ghost pre = digits@;
        digits.insert(0, digit((m % 10) as u16));
        proof {
            assert(digits@ =~= seq![digit_char(m as int % 10)] + pre);
        }
        if m < 10 {
            done = true;
            proof {
                assert(seq![digit_char(m as int)] + pre =~= seq![digit_char(m as int % 10)] + pre);
            }
        } else {
            proof {
                assert(dec_str(m as int) == dec_str(m as int / 10).push(
                    digit_char(m as int % 10),
                ));
                assert(dec_str(m as int / 10).push(digit_char(m as int % 10)) + pre =~= dec_str(
                    m as int / 10,
                ) + (seq![digit_char(m as int % 10)] + pre));
            }
            m = m / 10;
        }
    }
    crate::text::chars_to_string(&digits)
}

/// One observed unit of contributor activity.
pub struct GitMemory {
    pub memory_type: MemoryType,
    /// Display name or login attributed to this record.
    pub name: String,
    /// Short title or tag line.
    pub tag_line: String,
    /// Canonical URL of the origin item; stable identifier.
    pub source_url: String,
    /// Narrative produced by the pipeline; empty until then, written once.
    pub payload: String,
    pub date: Date,
}

impl GitMemory {
    /// A fresh record with an empty summary.
    pub fn new(
        memory_type: MemoryType,
        name: String,
        tag_line: String,
        source_url: String,
        date: Date,
    ) -> (r: GitMemory)
        ensures
            r.memory_type == memory_type,
            r.name@ == name@,
            r.tag_line@ == tag_line@,
            r.source_url@ == source_url@,
            r.payload@ == Seq::<char>::empty(),
            r.date == date,
    {
        GitMemory { memory_type, name, tag_line, source_url, payload: String::new(), date }
    }

    /// Writes the record's summary, the single permitted mutation.
    pub fn set_summary(&mut self, summary: String)
        requires
            old(self).payload@.len() == 0,
        ensures
            final(self).payload@ == summary@,
            final(self).memory_type == old(self).memory_type,
            final(self).name@ == old(self).name@,
            final(self).tag_line@ == old(self).tag_line@,
            final(self).source_url@ == old(self).source_url@,
            final(self).date == old(self).date,
    {
        self.payload = summary;
    }
}

} // verus!
