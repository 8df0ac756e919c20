use vstd::prelude::*;

use crate::adif::{adif_line, adif_opt_line, push_adif_line};
use crate::band::{classify_band, classify_spec, text_of, BandError};
use crate::text::{or_empty, zero_padded, zero_padded_string};

verus! {

/// What the program was asked to do.
#[derive(PartialEq, Eq, Structural, Debug, Clone, Copy)]
pub enum Usage {
    HTML,
    TYPST,
    ADIF,
    UI,
}

/// How a contact was made: in person (`EYEBALL`) or over the air.
#[derive(PartialEq, Eq, Structural, Debug, Clone, Copy)]
pub enum Mode {
    EYEBALL,
    FM,
    SSB,
    CW,
    FTB,
    OTHER,
}

impl Mode {
    pub open spec fn name_spec(self) -> Seq<char> {
        match self {
            Mode::EYEBALL => "EYEBALL"@,
            Mode::FM => "FM"@,
            Mode::SSB => "SSB"@,
            Mode::CW => "CW"@,
            Mode::FTB => "FTB"@,
            Mode::OTHER => "OTHER"@,
        }
    }

    /// The mode's name, as written in exports and shown in the table.
    pub fn name(&self) -> (r: &'static str)
        ensures
            r@ == self.name_spec(),
    {
        match self {
            Mode::EYEBALL => "EYEBALL",
            Mode::FM => "FM",
            Mode::SSB => "SSB",
            Mode::CW => "CW",
            Mode::FTB => "FTB",
            Mode::OTHER => "OTHER",
        }
    }

    pub open spec fn code_spec(self) -> i64 {
        match self {
            Mode::EYEBALL => 0,
            Mode::FM => 1,
            Mode::SSB => 2,
            Mode::CW => 3,
            Mode::FTB => 4,
            Mode::OTHER => 5,
        }
    }

    pub open spec fn from_code_spec(code: i64) -> Mode {
        if code == 0 {
            Mode::EYEBALL
        } else if code == 1 {
            Mode::FM
        } else if code == 2 {
            Mode::SSB
        } else if code == 3 {
            Mode::CW
        } else if code == 4 {
            Mode::FTB
        } else {
            Mode::OTHER
        }
    }

    /// The integer under which the mode is stored.
    pub fn code(&self) -> (r: i64)
        ensures
            r == self.code_spec(),
    {
        match self {
            Mode::EYEBALL => 0,
            Mode::FM => 1,
            Mode::SSB => 2,
            Mode::CW => 3,
            Mode::FTB => 4,
            Mode::OTHER => 5,
        }
    }

    /// The mode stored under `code`; an unknown code reads as `OTHER`.
    pub fn from_code(code: i64) -> (r: Mode)
        ensures
            r == Mode::from_code_spec(code),
    {
        if code == 0 {
            Mode::EYEBALL
        } else if code == 1 {
            Mode::FM
        } else if code == 2 {
            Mode::SSB
        } else if code == 3 {
            Mode::CW
        } else if code == 4 {
            Mode::FTB
        } else {
            Mode::OTHER
        }
    }

    /// Whether records of this mode are left out of ADIF exports.
    pub open spec fn skipped_by_adif(self) -> bool {
        self == Mode::EYEBALL || self == Mode::OTHER
    }
}

/// A mode survives storage: reading back the code it is stored under gives
/// the same mode.
pub proof fn lemma_mode_code_round_trip(m: Mode)
    ensures
        Mode::from_code_spec(m.code_spec()) == m,
{
}

/// The Gregorian rule, carried back past year 1 as calendars with a year 0 do.
pub open spec fn is_leap_year(year: int) -> bool {
    let a = if year < 0 {
        -year
    } else {
        year
    };
    (a % 4 == 0 && a % 100 != 0) || a % 400 == 0
}

pub open spec fn days_in_month(year: int, month: nat) -> nat {
    if month == 2 {
        if is_leap_year(year) {
            29
        } else {
            28
        }
    } else if month == 4 || month == 6 || month == 9 || month == 11 {
        30
    } else {
        31
    }
}

/// A year as calendars write it: four digits, with a sign outside 0 to 9999.
pub open spec fn year_text(year: int) -> Seq<char> {
    if 0 <= year <= 9999 {
        zero_padded(year as nat, 4)
    } else if year < 0 {
        "-"@ + zero_padded((-year) as nat, 4)
    } else {
        "+"@ + zero_padded(year as nat, 4)
    }
}

pub fn year_string(year: i32) -> (r: String)
    ensures
        r@ == year_text(year as int),
{
    if 0 <= year && year <= 9999 {
        zero_padded_string(year as u64, 4)
    } else if year < 0 {
        let magnitude: u64 = (0i64 - year as i64) as u64;
        let mut r = String::from_str("-");
        r.append(zero_padded_string(magnitude, 4).as_str());
        r
    } else {
        let mut r = String::from_str("+");
        r.append(zero_padded_string(year as u64, 4).as_str());
        r
    }
}

/// A local date and time to the minute, without time zone.
#[derive(PartialEq, Eq, Structural, Debug, Clone, Copy)]
pub struct Timestamp {
    pub year: i32,
    pub month: u32,
    pub day: u32,
    pub hour: u32,
    pub minute: u32,
}

impl Timestamp {
    /// The fields name a real day and a minute of it.
    pub open spec fn wf(self) -> bool {
        &&& 1 <= self.month <= 12
        &&& 1 <= self.day <= days_in_month(self.year as int, self.month as nat)
        &&& self.hour < 24
        &&& self.minute < 60
    }

    /// `YYYYMMDD`
    pub open spec fn date_compact(self) -> Seq<char> {
        year_text(self.year as int) + zero_padded(self.month as nat, 2) + zero_padded(
            self.day as nat,
            2,
        )
    }

    /// `HHMM`
    pub open spec fn time_compact(self) -> Seq<char> {
        zero_padded(self.hour as nat, 2) + zero_padded(self.minute as nat, 2)
    }

    /// `YYYY-MM-DD`
    pub open spec fn date_iso(self) -> Seq<char> {
        year_text(self.year as int) + "-"@ + zero_padded(self.month as nat, 2) + "-"@
            + zero_padded(self.day as nat, 2)
    }

    /// `HH:MM`
    pub open spec fn time_hm(self) -> Seq<char> {
        zero_padded(self.hour as nat, 2) + ":"@ + zero_padded(self.minute as nat, 2)
    }

    /// `YYYY-MM-DD HH:MM:00`, the form kept in storage and shown in the table.
    pub open spec fn full_text(self) -> Seq<char> {
        self.date_iso() + " "@ + self.time_hm() + ":00"@
    }

    /// The timestamp with these fields, when they name a real minute.
    pub fn new(year: i32, month: u32, day: u32, hour: u32, minute: u32) -> (r: Option<Timestamp>)
        ensures
            r matches Some(t) ==> t.wf() && t == (Timestamp { year, month, day, hour, minute }),
            r is None ==> !(Timestamp { year, month, day, hour, minute }).wf(),
    {
        if month < 1 || month > 12 || hour >= 24 || minute >= 60 || day < 1 {
            return None;
        }
        let a: u64 = if year < 0 {
            (0i64 - year as i64) as u64
        } else {
            year as u64
        };
        let leap = (a % 4 == 0 && a % 100 != 0) || a % 400 == 0;
        let days: u32 = if month == 2 {
            if leap {
                29
            } else {
                28
            }
        } else if month == 4 || month == 6 || month == 9 || month == 11 {
            30
        } else {
            31
        };
        if day > days {
            None
        } else {
            Some(Timestamp { year, month, day, hour, minute })
        }
    }

    pub fn date_compact_string(&self) -> (r: String)
        ensures
            r@ == self.date_compact(),
    {
        let mut r = year_string(self.year);
        r.append(zero_padded_string(self.month as u64, 2).as_str());
        r.append(zero_padded_string(self.day as u64, 2).as_str());
        r
    }

    pub fn time_compact_string(&self) -> (r: String)
        ensures
            r@ == self.time_compact(),
    {
        let mut r = zero_padded_string(self.hour as u64, 2);
        r.append(zero_padded_string(self.minute as u64, 2).as_str());
        r
    }

    pub fn date_iso_string(&self) -> (r: String)
        ensures
            r@ == self.date_iso(),
    {
        let mut r = year_string(self.year);
        r.append("-");
        r.append(zero_padded_string(self.month as u64, 2).as_str());
        r.append("-");
        r.append(zero_padded_string(self.day as u64, 2).as_str());
        assert(r@ =~= self.date_iso());
        r
    }

    pub fn time_hm_string(&self) -> (r: String)
        ensures
            r@ == self.time_hm(),
    {
        let mut r = zero_padded_string(self.hour as u64, 2);
        r.append(":");
        r.append(zero_padded_string(self.minute as u64, 2).as_str());
        r
    }

    pub fn full_text_string(&self) -> (r: String)
        ensures
            r@ == self.full_text(),
    {
        let mut r = self.date_iso_string();
        r.append(" ");
        r.append(self.time_hm_string().as_str());
        r.append(":00");
        assert(r@ =~= self.full_text());
        r
    }
}

/// One logged contact.
#[derive(Debug, Clone)]
pub struct QSL {
    /// Assigned by storage; ignored when a record is added.
    pub id: i32,
    pub call_number: String,
    pub mode: Mode,
    /// `MHz[/more]`: the frequency in MHz, then anything else.
    pub freq: Option<String>,
    pub datetime: Timestamp,
    /// ADIF RST_SENT, the report given to the other station.
    pub rst_me: Option<String>,
    pub qth_me: Option<String>,
    pub rig_me: Option<String>,
    /// Transmit power in watts, as a decimal number.
    pub watt_me: Option<String>,
    pub ant_me: Option<String>,
    /// ADIF RST_RCVD, the report received from the other station.
    pub rst_counterpart: Option<String>,
    pub qth_counterpart: Option<String>,
    pub rig_counterpart: Option<String>,
    /// The other station's power in watts, as a decimal number.
    pub watt_counterpart: Option<String>,
    pub ant_counterpart: Option<String>,
    pub note: Option<String>,
}

/// The BAND field: present only when the frequency can be classified.
pub open spec fn band_field(freq: Option<Seq<char>>) -> Seq<char> {
    match classify_spec(freq) {
        Ok(name) => adif_line("BAND"@, name),
        Err(_) => Seq::empty(),
    }
}

/// One line of a record literal for the typesetting data file.
pub open spec fn typst_field(name: Seq<char>, v: Seq<char>) -> Seq<char> {
    "  "@ + name + ": \""@ + v + "\",\n"@
}

impl QSL {
    /// The ADIF record: empty for modes that are not exported, else the
    /// fields in a fixed order, absent ones left out, then `<EOR>`.
    pub open spec fn adif_spec(&self) -> Seq<char> {
        if self.mode.skipped_by_adif() {
            Seq::empty()
        } else {
            adif_line("CALL"@, self.call_number@) + adif_line("MODE"@, self.mode.name_spec())
                + adif_line("QSO_DATE"@, self.datetime.date_compact()) + adif_line(
                "TIME_ON"@,
                self.datetime.time_compact(),
            ) + band_field(text_of(&self.freq)) + adif_opt_line("FREQ"@, text_of(&self.freq))
                + adif_opt_line("RST_SENT"@, text_of(&self.rst_me)) + adif_opt_line(
                "RST_RCVD"@,
                text_of(&self.rst_counterpart),
            ) + adif_opt_line("MY_QTH"@, text_of(&self.qth_me)) + adif_opt_line(
                "QTH"@,
                text_of(&self.qth_counterpart),
            ) + adif_opt_line("MY_RIG"@, text_of(&self.rig_me)) + adif_opt_line(
                "RIG"@,
                text_of(&self.rig_counterpart),
            ) + adif_opt_line("TX_PWR"@, text_of(&self.watt_me)) + adif_opt_line(
                "RX_PWR"@,
                text_of(&self.watt_counterpart),
            ) + adif_opt_line("MY_ANT"@, text_of(&self.ant_me)) + adif_opt_line(
                "ANT"@,
                text_of(&self.ant_counterpart),
            ) + adif_opt_line("NOTES"@, text_of(&self.note)) + "<EOR>\n"@
        }
    }

    /// The record literal for the typesetting data file, ending in a comma.
    pub open spec fn typst_spec(&self) -> Seq<char> {
        "(\n"@ + typst_field("call_number"@, self.call_number@) + typst_field(
            "mode"@,
            self.mode.name_spec(),
        ) + typst_field("freq"@, or_empty(text_of(&self.freq))) + typst_field(
            "date"@,
            self.datetime.date_iso(),
        ) + typst_field("time"@, self.datetime.time_hm()) + typst_field(
            "rst_me"@,
            or_empty(text_of(&self.rst_me)),
        ) + typst_field("qth_me"@, or_empty(text_of(&self.qth_me))) + typst_field(
            "rig_me"@,
            or_empty(text_of(&self.rig_me)),
        ) + typst_field("watt_me"@, or_empty(text_of(&self.watt_me))) + typst_field(
            "ant_me"@,
            or_empty(text_of(&self.ant_me)),
        ) + typst_field("rst_counterpart"@, or_empty(text_of(&self.rst_counterpart)))
            + typst_field("qth_counterpart"@, or_empty(text_of(&self.qth_counterpart)))
            + typst_field("rig_counterpart"@, or_empty(text_of(&self.rig_counterpart)))
            + typst_field("watt_counterpart"@, or_empty(text_of(&self.watt_counterpart)))
            + typst_field("ant_counterpart"@, or_empty(text_of(&self.ant_counterpart)))
            + typst_field("note"@, or_empty(text_of(&self.note))) + "),"@
    }

    /// The band of the record's frequency.
    pub fn get_band(&self) -> (r: Result<&'static str, BandError>)
        ensures
            crate::band::classified_as(text_of(&self.freq), r),
    {
        classify_band(&self.freq)
    }

    /// The record as one ADIF record; empty for `EYEBALL` and `OTHER` contacts.
    pub fn fmt_adif(&self) -> (r: String)
        ensures
            r@ == self.adif_spec(),
    {
        if self.mode == Mode::EYEBALL || self.mode == Mode::OTHER {
            return String::new();
        }
        let mut s = String::new();
        push_adif_line(&mut s, "CALL", self.call_number.as_str());
        push_adif_line(&mut s, "MODE", self.mode.name());
        push_adif_line(&mut s, "QSO_DATE", self.datetime.date_compact_string().as_str());
        push_adif_line(&mut s, "TIME_ON", self.datetime.time_compact_string().as_str());
        let ghost before_band = s@;
        match self.get_band() {
            Ok(band) => push_adif_line(&mut s, "BAND", band),
            Err(_) => {},
        }
        assert(s@ =~= before_band + band_field(text_of(&self.freq)));
        push_opt_line(&mut s, "FREQ", &self.freq);
        push_opt_line(&mut s, "RST_SENT", &self.rst_me);
        push_opt_line(&mut s, "RST_RCVD", &self.rst_counterpart);
        push_opt_line(&mut s, "MY_QTH", &self.qth_me);
        push_opt_line(&mut s, "QTH", &self.qth_counterpart);
        push_opt_line(&mut s, "MY_RIG", &self.rig_me);
        push_opt_line(&mut s, "RIG", &self.rig_counterpart);
        push_opt_line(&mut s, "TX_PWR", &self.watt_me);
        push_opt_line(&mut s, "RX_PWR", &self.watt_counterpart);
        push_opt_line(&mut s, "MY_ANT", &self.ant_me);
        push_opt_line(&mut s, "ANT", &self.ant_counterpart);
        push_opt_line(&mut s, "NOTES", &self.note);
        s.append("<EOR>\n");
        assert(s@ =~= self.adif_spec());
        s
    }

    /// The record as a literal of the typesetting data file, ending in a
    /// comma; absent values are written as empty strings.
    pub fn fmt_typst(&self) -> (r: String)
        ensures
            r@ == self.typst_spec(),
    {
        let mut s = String::from_str("(\n");
        push_typst_field(&mut s, "call_number", self.call_number.as_str());
        push_typst_field(&mut s, "mode", self.mode.name());
        push_typst_opt(&mut s, "freq", &self.freq);
        push_typst_field(&mut s, "date", self.datetime.date_iso_string().as_str());
        push_typst_field(&mut s, "time", self.datetime.time_hm_string().as_str());
        push_typst_opt(&mut s, "rst_me", &self.rst_me);
        push_typst_opt(&mut s, "qth_me", &self.qth_me);
        push_typst_opt(&mut s, "rig_me", &self.rig_me);
        push_typst_opt(&mut s, "watt_me", &self.watt_me);
        push_typst_opt(&mut s, "ant_me", &self.ant_me);
        push_typst_opt(&mut s, "rst_counterpart", &self.rst_counterpart);
        push_typst_opt(&mut s, "qth_counterpart", &self.qth_counterpart);
        push_typst_opt(&mut s, "rig_counterpart", &self.rig_counterpart);
        push_typst_opt(&mut s, "watt_counterpart", &self.watt_counterpart);
        push_typst_opt(&mut s, "ant_counterpart", &self.ant_counterpart);
        push_typst_opt(&mut s, "note", &self.note);
        s.append("),");
        assert(s@ =~= self.typst_spec());
        s
    }
}

/// An in-person contact, or one of an unlisted mode, gives no ADIF record at all.
pub proof fn lemma_skipped_modes_export_nothing(q: QSL)
    requires
        q.mode == Mode::EYEBALL || q.mode == Mode::OTHER,
    ensures
        q.adif_spec() == Seq::<char>::empty(),
{
}

fn push_opt_line(out: &mut String, k: &str, v: &Option<String>)
    ensures
        final(out)@ == old(out)@ + adif_opt_line(k@, text_of(v)),
{
    match v {
        Some(x) => push_adif_line(out, k, x.as_str()),
        None => {
            assert(out@ =~= old(out)@ + adif_opt_line(k@, text_of(v)));
        },
    }
}

fn push_typst_field(out: &mut String, name: &str, v: &str)
    ensures
        final(out)@ == old(out)@ + typst_field(name@, v@),
{
    out.append("  ");
    out.append(name);
    out.append(": \"");
    out.append(v);
    out.append("\",\n");
    assert(out@ =~= old(out)@ + typst_field(name@, v@));
}

fn push_typst_opt(out: &mut String, name: &str, v: &Option<String>)
    ensures
        final(out)@ == old(out)@ + typst_field(name@, or_empty(text_of(v))),
{
    match v {
        Some(x) => {
            push_typst_field(out, name, x.as_str());
            assert(or_empty(text_of(v)) == x@);
        },
        None => {
            push_typst_field(out, name, "");
            assert(or_empty(text_of(v)) =~= ""@) by {
                reveal_strlit("");
            }
        },
    }
}

/// A blank entry of the edit form means "no value".
pub fn string_parser(str: &String) -> (r: Option<String>)
    ensures
        str@.len() == 0 ==> r is None,
        str@.len() > 0 ==> (r matches Some(s) && s@ == str@),
{
    if str.as_str().unicode_len() == 0 {
        None
    } else {
        Some(str.clone())
    }
}

} // verus!
