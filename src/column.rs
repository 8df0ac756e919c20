use vstd::prelude::*;
use vstd::utf8::encode_utf8;

use std::cmp::Ordering;

use crate::band::text_of;
use crate::record::{Timestamp, QSL};
use crate::text::or_empty;

verus! {

/// The columns of the record table.
#[derive(PartialEq, Eq, Structural, Debug, Clone, Copy, Hash)]
pub enum UIColumn {
    Callsign,
    Mode,
    Datetime,
    Note,
}

impl UIColumn {
    pub open spec fn title(self) -> Seq<char> {
        match self {
            UIColumn::Callsign => "Callsign"@,
            UIColumn::Mode => "Mode"@,
            UIColumn::Datetime => "Datetime"@,
            UIColumn::Note => "Note"@,
        }
    }

    /// The column's title.
    pub fn as_str(&self) -> (r: &'static str)
        ensures
            r@ == self.title(),
    {
        match *self {
            UIColumn::Callsign => "Callsign",
            UIColumn::Mode => "Mode",
            UIColumn::Datetime => "Datetime",
            UIColumn::Note => "Note",
        }
    }
}

/// Byte strings in dictionary order, a proper prefix first.
pub open spec fn lex_order(a: Seq<u8>, b: Seq<u8>) -> Ordering
    decreases a.len(),
{
    if a.len() == 0 {
        if b.len() == 0 {
            Ordering::Equal
        } else {
            Ordering::Less
        }
    } else if b.len() == 0 {
        Ordering::Greater
    } else if a[0] < b[0] {
        Ordering::Less
    } else if a[0] > b[0] {
        Ordering::Greater
    } else {
        lex_order(a.drop_first(), b.drop_first())
    }
}

/// Texts in the order of their UTF-8 bytes, which is the order of their
/// characters.
pub open spec fn text_order(a: Seq<char>, b: Seq<char>) -> Ordering {
    lex_order(encode_utf8(a), encode_utf8(b))
}

pub open spec fn number_order(a: int, b: int) -> Ordering {
    if a < b {
        Ordering::Less
    } else if a > b {
        Ordering::Greater
    } else {
        Ordering::Equal
    }
}

/// Timestamps in time order.
pub open spec fn stamp_order(a: Timestamp, b: Timestamp) -> Ordering {
    if a.year != b.year {
        number_order(a.year as int, b.year as int)
    } else if a.month != b.month {
        number_order(a.month as int, b.month as int)
    } else if a.day != b.day {
        number_order(a.day as int, b.day as int)
    } else if a.hour != b.hour {
        number_order(a.hour as int, b.hour as int)
    } else {
        number_order(a.minute as int, b.minute as int)
    }
}

/// What a record shows in a column.
pub open spec fn column_text(q: QSL, column: UIColumn) -> Seq<char> {
    match column {
        UIColumn::Note => or_empty(text_of(&q.note)),
        UIColumn::Callsign => q.call_number@,
        UIColumn::Mode => q.mode.name_spec(),
        UIColumn::Datetime => q.datetime.full_text(),
    }
}

/// How two records sort by a column: by time for the date, else by the text shown.
pub open spec fn column_order(a: QSL, b: QSL, column: UIColumn) -> Ordering {
    match column {
        UIColumn::Datetime => stamp_order(a.datetime, b.datetime),
        _ => text_order(column_text(a, column), column_text(b, column)),
    }
}

fn compare_bytes(a: &[u8], b: &[u8]) -> (r: Ordering)
    ensures
        r == lex_order(a@, b@),
{
    let mut i: usize = 0;
    assert(a@.skip(0) =~= a@);
    assert(b@.skip(0) =~= b@);
    while i < a.len() && i < b.len() && a[i] == b[i]
        invariant
            i <= a@.len(),
            i <= b@.len(),
            lex_order(a@, b@) == lex_order(a@.skip(i as int), b@.skip(i as int)),
        decreases a@.len() - i,
    {
        proof {
            assert(a@.skip(i as int).drop_first() =~= a@.skip(i + 1));
            assert(b@.skip(i as int).drop_first() =~= b@.skip(i + 1));
        }
        i = i + 1;
    }
    if i == a.len() {
        if i == b.len() {
            Ordering::Equal
        } else {
            Ordering::Less
        }
    } else if i == b.len() {
        Ordering::Greater
    } else if a[i] < b[i] {
        Ordering::Less
    } else {
        Ordering::Greater
    }
}

/// Two texts in the order of their characters.
pub fn compare_text(a: &str, b: &str) -> (r: Ordering)
    ensures
        r == text_order(a@, b@),
{
    compare_bytes(a.as_bytes(), b.as_bytes())
}

fn compare_numbers(a: i64, b: i64) -> (r: Ordering)
    ensures
        r == number_order(a as int, b as int),
{
    if a < b {
        Ordering::Less
    } else if a > b {
        Ordering::Greater
    } else {
        Ordering::Equal
    }
}

/// Two timestamps in time order.
pub fn compare_stamps(a: &Timestamp, b: &Timestamp) -> (r: Ordering)
    ensures
        r == stamp_order(*a, *b),
{
    if a.year != b.year {
        compare_numbers(a.year as i64, b.year as i64)
    } else if a.month != b.month {
        compare_numbers(a.month as i64, b.month as i64)
    } else if a.day != b.day {
        compare_numbers(a.day as i64, b.day as i64)
    } else if a.hour != b.hour {
        compare_numbers(a.hour as i64, b.hour as i64)
    } else {
        compare_numbers(a.minute as i64, b.minute as i64)
    }
}

impl QSL {
    /// What the record shows in a column of the table.
    pub fn to_column(&self, column: UIColumn) -> (r: String)
        ensures
            r@ == column_text(*self, column),
    {
        match column {
            UIColumn::Note => match &self.note {
                Some(n) => n.clone(),
                None => String::new(),
            },
            UIColumn::Callsign => self.call_number.clone(),
            UIColumn::Mode => String::from_str(self.mode.name()),
            UIColumn::Datetime => self.datetime.full_text_string(),
        }
    }

    /// How this record sorts against another by a column.
    pub fn cmp(&self, other: &QSL, column: UIColumn) -> (r: Ordering)
        ensures
            r == column_order(*self, *other, column),
    {
        match column {
            UIColumn::Datetime => compare_stamps(&self.datetime, &other.datetime),
            _ => {
                let a = self.to_column(column);
                let b = other.to_column(column);
                compare_text(a.as_str(), b.as_str())
            },
        }
    }
}

} // verus!
