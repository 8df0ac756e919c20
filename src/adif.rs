use vstd::prelude::*;

use crate::record::Timestamp;
use crate::text::{decimal, decimal_string, utf8_len};

verus! {

/// One ADIF field: `<NAME:length>value ` where the length counts the bytes
/// of the value.
pub open spec fn adif_line(k: Seq<char>, v: Seq<char>) -> Seq<char> {
    "<"@ + k + ":"@ + decimal(utf8_len(v)) + ">"@ + v + " "@
}

/// A field for a value that may be absent: nothing when it is.
pub open spec fn adif_opt_line(k: Seq<char>, v: Option<Seq<char>>) -> Seq<char> {
    match v {
        Some(s) => adif_line(k, s),
        None => Seq::empty(),
    }
}

/// The header block of an ADIF file made at the given local time.
pub open spec fn adif_header(t: Timestamp) -> Seq<char> {
    adif_line("ADIF_VER"@, "3.1.4"@) + "\n"@ + adif_line("PROGRAMID"@, "BenderBlo1g qsl_recorder"@)
        + "\n"@ + adif_line("PROGRAMVERSION"@, "Rolling-20240728"@) + "\n"@ + adif_line(
        "CREATED_TIMESTAMP"@,
        t.date_compact() + " "@ + t.time_compact() + "00"@,
    ) + "\n"@ + "<EOH>\n"@
}

/// Appends one ADIF field to `out`.
pub fn push_adif_line(out: &mut String, k: &str, v: &str)
    ensures
        final(out)@ == old(out)@ + adif_line(k@, v@),
{
    let len = decimal_string(v.as_bytes().len() as u64);
    out.append("<");
    out.append(k);
    out.append(":");
    out.append(len.as_str());
    out.append(">");
    out.append(v);
    out.append(" ");
    assert(out@ =~= old(out)@ + adif_line(k@, v@));
}

/// One ADIF field, `<k:length>v `.
pub fn adif_generate_line(k: &str, v: &str) -> (r: String)
    ensures
        r@ == adif_line(k@, v@),
{
    let mut r = String::new();
    push_adif_line(&mut r, k, v);
    assert(r@ =~= adif_line(k@, v@));
    r
}

/// The header block of an ADIF file made at the given local time: format
/// version, program name and version, creation time, then `<EOH>`.
pub fn adif_generate_header(datetime: &Timestamp) -> (r: String)
    ensures
        r@ == adif_header(*datetime),
{
    let mut stamp = datetime.date_compact_string();
    stamp.append(" ");
    stamp.append(datetime.time_compact_string().as_str());
    stamp.append("00");
    let mut r = String::new();
    push_adif_line(&mut r, "ADIF_VER", "3.1.4");
    r.append("\n");
    push_adif_line(&mut r, "PROGRAMID", "BenderBlo1g qsl_recorder");
    r.append("\n");
    push_adif_line(&mut r, "PROGRAMVERSION", "Rolling-20240728");
    r.append("\n");
    push_adif_line(&mut r, "CREATED_TIMESTAMP", stamp.as_str());
    r.append("\n");
    r.append("<EOH>\n");
    assert(r@ =~= adif_header(*datetime));
    r
}

} // verus!
