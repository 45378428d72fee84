//! Label data and its rendering into a printer command document.

use vstd::prelude::*;
use crate::clock::{format_timestamp, timestamp_text, LocalTime};

verus! {

/// The fields of one label.
#[derive(Debug)]
pub struct LabelData {
    pub first_name: String,
    pub last_name: String,
    /// A date of birth as `DD/MM/YYYY`.
    pub dob: String,
    pub gender: String,
    /// When the label was made, as `DD/MM/YYYY,HH:MM`.
    pub current_datetime: String,
    pub barcode_enabled: bool,
    /// The barcode's content; `"0"` when no barcode is printed.
    pub barcode_value: String,
}

/// What `str::to_uppercase` makes of a string.
pub uninterp spec fn upper_of(s: Seq<char>) -> Seq<char>;

/// Relies on `str::to_uppercase`: the upper case of each character, a
/// function of the characters alone; the empty string stays empty.
#[verifier::external_body]
fn uppercase(s: &str) -> (r: String)
    ensures
        r@ == upper_of(s@),
        s@.len() == 0 ==> r@.len() == 0,
{
    s.to_uppercase()
}

pub open spec fn start_piece() -> Seq<char> {
    "^XA\n    ^FO40,30^A0N,25,25^FD"@
}

pub open spec fn comma_piece() -> Seq<char> {
    ", "@
}

pub open spec fn dob_piece() -> Seq<char> {
    "^FS\n    ^FO40,55^A0N,25,25^FDDOB: "@
}

pub open spec fn date_piece() -> Seq<char> {
    "^FS\n    ^FO40,80^A0N,25,25^FDDate: "@
}

pub open spec fn field_end_piece() -> Seq<char> {
    "^FS\n"@
}

pub open spec fn barcode_piece() -> Seq<char> {
    "    ^FO40,105^BY3^BCN,70,Y,N,N,A^FD"@
}

pub open spec fn end_piece() -> Seq<char> {
    "    ^XZ"@
}

/// The document up to and including the date field: the name line, the
/// date of birth line and the time stamp line, each at its fixed position.
pub open spec fn text_fields(
    last: Seq<char>,
    first: Seq<char>,
    dob: Seq<char>,
    gender: Seq<char>,
    datetime: Seq<char>,
) -> Seq<char> {
    start_piece() + last + comma_piece() + first + dob_piece() + dob + comma_piece() + gender
        + date_piece() + datetime + field_end_piece()
}

/// The barcode field at its fixed position.
pub open spec fn barcode_field(code: Seq<char>) -> Seq<char> {
    barcode_piece() + code + field_end_piece()
}

/// A whole document: the text fields, the barcode field if there is one,
/// and the end marker.
pub open spec fn zpl_document(
    last: Seq<char>,
    first: Seq<char>,
    dob: Seq<char>,
    gender: Seq<char>,
    datetime: Seq<char>,
    barcode: Option<Seq<char>>,
) -> Seq<char> {
    text_fields(last, first, dob, gender, datetime) + match barcode {
        Some(code) => barcode_field(code),
        None => Seq::empty(),
    } + end_piece()
}

/// The document for a label: names and gender in upper case, the barcode
/// as typed and only when it is enabled.
pub open spec fn label_document(d: LabelData) -> Seq<char> {
    zpl_document(
        upper_of(d.last_name@),
        upper_of(d.first_name@),
        d.dob@,
        upper_of(d.gender@),
        d.current_datetime@,
        if d.barcode_enabled {
            Some(d.barcode_value@)
        } else {
            None
        },
    )
}

impl LabelData {
    /// No barcode content is kept when the barcode is off.
    pub open spec fn wf(&self) -> bool {
        !self.barcode_enabled ==> self.barcode_value@ == "0"@
    }

    /// A label made at `stamp`, with a barcode exactly when one is given.
    pub fn new(
        first_name: String,
        last_name: String,
        dob: String,
        gender: String,
        barcode: Option<String>,
        stamp: &LocalTime,
    ) -> (r: LabelData)
        requires
            stamp.wf(),
        ensures
            r.wf(),
            r.first_name@ == first_name@,
            r.last_name@ == last_name@,
            r.dob@ == dob@,
            r.gender@ == gender@,
            r.current_datetime@ == timestamp_text(*stamp),
            r.barcode_enabled == barcode is Some,
            barcode is Some ==> r.barcode_value@ == barcode->0@,
    {
        let current_datetime = format_timestamp(stamp);
        let (barcode_enabled, barcode_value) = match barcode {
            Some(b) => (true, b),
            None => (false, String::from_str("0")),
        };
        LabelData {
            first_name,
            last_name,
            dob,
            gender,
            current_datetime,
            barcode_enabled,
            barcode_value,
        }
    }

    /// A label made now: as `new`, stamped with the local time at this call.
    pub fn new_now(
        first_name: String,
        last_name: String,
        dob: String,
        gender: String,
        barcode: Option<String>,
    ) -> (r: LabelData)
        ensures
            r.wf(),
            r.first_name@ == first_name@,
            r.last_name@ == last_name@,
            r.dob@ == dob@,
            r.gender@ == gender@,
            exists|t: LocalTime| t.wf() && r.current_datetime@ == timestamp_text(t),
            r.barcode_enabled == barcode is Some,
            barcode is Some ==> r.barcode_value@ == barcode->0@,
    {
        let stamp = LocalTime::now();
        LabelData::new(first_name, last_name, dob, gender, barcode, &stamp)
    }
}

/// Lays out a document from field texts already in their printed case.
pub fn render_zpl(
    last: &str,
    first: &str,
    dob: &str,
    gender: &str,
    datetime: &str,
    barcode: Option<&str>,
) -> (r: String)
    ensures
        r@ == zpl_document(
            last@,
            first@,
            dob@,
            gender@,
            datetime@,
            match barcode {
                Some(code) => Some(code@),
                None => None,
            },
        ),
{
    let mut s = String::new();
    s.append("^XA\n    ^FO40,30^A0N,25,25^FD");
    s.append(last);
    s.append(", ");
    s.append(first);
    s.append("^FS\n    ^FO40,55^A0N,25,25^FDDOB: ");
    s.append(dob);
    s.append(", ");
    s.append(gender);
    s.append("^FS\n    ^FO40,80^A0N,25,25^FDDate: ");
    s.append(datetime);
    s.append("^FS\n");
    match barcode {
        Some(code) => {
            s.append("    ^FO40,105^BY3^BCN,70,Y,N,N,A^FD");
            s.append(code);
            s.append("^FS\n");
        },
        None => {},
    }
    s.append("    ^XZ");
    assert(s@ =~= zpl_document(
        last@,
        first@,
        dob@,
        gender@,
        datetime@,
        match barcode {
            Some(code) => Some(code@),
            None => None,
        },
    ));
    s
}

/// Renders a label into its printer command document.
pub fn generate_zpl(data: &LabelData) -> (r: String)
    ensures
        r@ == label_document(*data),
{
    let last = uppercase(data.last_name.as_str());
    let first = uppercase(data.first_name.as_str());
    let gender = uppercase(data.gender.as_str());
    let barcode = if data.barcode_enabled {
        Some(data.barcode_value.as_str())
    } else {
        None
    };
    render_zpl(
        last.as_str(),
        first.as_str(),
        data.dob.as_str(),
        gender.as_str(),
        data.current_datetime.as_str(),
        barcode,
    )
}

/// An answer that turns the barcode on: `y` or `yes` in any case.
pub open spec fn is_barcode_yes(s: Seq<char>) -> bool {
    ||| s.len() == 1 && (s[0] == 'y' || s[0] == 'Y')
    ||| s.len() == 3 && (s[0] == 'y' || s[0] == 'Y') && (s[1] == 'e' || s[1] == 'E') && (s[2] == 's'
        || s[2] == 'S')
}

/// Whether the operator's answer turns the barcode on (`y` or `yes`, in any
/// case).
pub fn is_barcode_answer(answer: &str) -> (r: bool)
    ensures
        r == is_barcode_yes(answer@),
{
    let n = answer.unicode_len();
    if n == 1 {
        let c = answer.get_char(0);
        c == 'y' || c == 'Y'
    } else if n == 3 {
        let c0 = answer.get_char(0);
        let c1 = answer.get_char(1);
        let c2 = answer.get_char(2);
        (c0 == 'y' || c0 == 'Y') && (c1 == 'e' || c1 == 'E') && (c2 == 's' || c2 == 'S')
    } else {
        false
    }
}

/// Rendering is a function of the label's field texts: labels that agree
/// on them give the same document.
pub proof fn lemma_render_deterministic(a: LabelData, b: LabelData)
    requires
        a.first_name@ == b.first_name@,
        a.last_name@ == b.last_name@,
        a.dob@ == b.dob@,
        a.gender@ == b.gender@,
        a.current_datetime@ == b.current_datetime@,
        a.barcode_enabled == b.barcode_enabled,
        a.barcode_enabled ==> a.barcode_value@ == b.barcode_value@,
    ensures
        label_document(a) == label_document(b),
{
}

/// Turning the barcode on inserts exactly one field, the barcode field,
/// between the unchanged text fields and the end marker.
pub proof fn lemma_barcode_adds_one_field(
    last: Seq<char>,
    first: Seq<char>,
    dob: Seq<char>,
    gender: Seq<char>,
    datetime: Seq<char>,
    code: Seq<char>,
)
    ensures
        zpl_document(last, first, dob, gender, datetime, None) == text_fields(
            last,
            first,
            dob,
            gender,
            datetime,
        ) + end_piece(),
        zpl_document(last, first, dob, gender, datetime, Some(code)) == text_fields(
            last,
            first,
            dob,
            gender,
            datetime,
        ) + barcode_field(code) + end_piece(),
{
    assert(text_fields(last, first, dob, gender, datetime) + Seq::<char>::empty()
        =~= text_fields(last, first, dob, gender, datetime));
}

} // verus!
