//! Renders a date and time for the user's language.
use vstd::prelude::*;
use vstd::utf8::*;
use vstd::string::StringSliceAdditionalSpecFns;
use std::str::FromStr;
use icu::calendar::DateTime;
use icu::datetime::DateTimeFormatter;
use icu::datetime::options::components::{Bag, Day, Month, Numeric, Year};
use icu::datetime::options::preferences::{self, HourCycle};
use icu::locid::Locale;
use crate::clock::{DateTimeSample, YEAR_BOUND};

verus! {

/// The byte `.`, which starts the encoding part of a `LANG` value.
pub const DOT: u8 = 0x2e;

/// Index of the first `.` in `b` at or after `i`, or the length of `b`.
pub open spec fn dot_from(b: Seq<u8>, i: int) -> int
    decreases b.len() - i,
{
    if i < 0 || i >= b.len() {
        b.len() as int
    } else if b[i] == DOT {
        i
    } else {
        dot_from(b, i + 1)
    }
}

/// The language tag of a `LANG` value (its UTF-8 bytes): what stands before
/// the first `.`, so that `en_US.UTF-8` gives `en_US`.
pub open spec fn language_tag(lang: Seq<u8>) -> Seq<u8> {
    lang.subrange(0, dot_from(lang, 0))
}

/// What the ICU date-time formatter writes for a language tag (UTF-8 bytes),
/// a date and time, and the hour cycle (24-hour when `military`), with the
/// year, the long month name, the day of the month, the hour and the minute;
/// `None` where the tag is no locale or the formatter cannot be built.
pub uninterp spec fn icu_date_text(tag: Seq<u8>, t: DateTimeSample, military: bool) -> Option<Seq<char>>;

/// The samples that are rendered: real dates and times whose year lies
/// within `YEAR_BOUND` of year 0.
pub open spec fn renderable(t: DateTimeSample) -> bool {
    t.wf() && -YEAR_BOUND <= t.year <= YEAR_BOUND
}

/// The text shown for a sample: empty without a language setting, for a
/// sample that is not renderable, or where the formatter gives nothing.
pub open spec fn date_text(lang: Option<Seq<char>>, t: DateTimeSample, military: bool) -> Seq<char> {
    match lang {
        Some(_) if !renderable(t) => Seq::empty(),
        Some(l) => match icu_date_text(language_tag(encode_utf8(l)), t, military) {
            Some(s) => s,
            None => Seq::empty(),
        },
        None => Seq::empty(),
    }
}

/// Relies on icu's `Locale::from_str`, `DateTimeFormatter::try_new_experimental`
/// (components year, long month, day of month, hour and minute, with the hour
/// cycle H23 or H12), `DateTime::try_new_iso_datetime` and
/// `DateTimeFormatter::format`: its text depends on the arguments alone.
#[verifier::external_body]
fn icu_format(tag: &str, t: &DateTimeSample, military: bool) -> (r: Option<String>)
    requires
        renderable(*t),
    ensures
        r.is_some() == icu_date_text(tag.spec_bytes(), *t, military).is_some(),
        r.is_some() ==> r.unwrap()@ == icu_date_text(tag.spec_bytes(), *t, military).unwrap(),
{
    let locale = Locale::from_str(tag).ok()?;
    let mut bag = Bag::empty();
    bag.year = Some(Year::Numeric);
    bag.day = Some(Day::NumericDayOfMonth);
    bag.month = Some(Month::Long);
    bag.hour = Some(Numeric::Numeric);
    bag.minute = Some(Numeric::Numeric);
    let cycle = if military { HourCycle::H23 } else { HourCycle::H12 };
    bag.preferences = Some(preferences::Bag::from_hour_cycle(cycle));
    let dtf = DateTimeFormatter::try_new_experimental(&locale.into(), bag.into()).ok()?;
    let dt = DateTime::try_new_iso_datetime(t.year, t.month, t.day, t.hour, t.minute, t.second);
    Some(dtf.format(&dt.ok()?.to_any()).ok()?.to_string())
}

/// The language tag of a `LANG` value: the part before the first `.`.
pub fn language_of(lang: &str) -> (r: &str)
    ensures
        r.spec_bytes() == language_tag(lang.spec_bytes()),
{
    let bytes = lang.as_bytes();
    let n = bytes.len();
    let mut i: usize = 0;
    while i < n && bytes[i] != DOT
        invariant
            n == bytes@.len(),
            bytes@ == lang.spec_bytes(),
            i <= n,
            dot_from(bytes@, 0) == dot_from(bytes@, i as int),
        decreases n - i,
    {
        i = i + 1;
    }
    proof {
        encode_utf8_valid_utf8(lang@);
        is_char_boundary_start_end_of_seq(bytes@);
        if i < n {
            is_char_boundary_iff_is_leading_byte(bytes@, i as int);
        }
    }
    let (head, _rest) = lang.split_at(i);
    head
}

/// Formats a date and time for the language setting `lang` (a `LANG` value
/// such as `en_US.UTF-8`), on a 24-hour clock when `military`. Without a
/// language setting, for a sample that is no real date and time or whose
/// year lies further than `YEAR_BOUND` from year 0, or where no formatter
/// can be had for it, the text is empty.
pub fn format_date(lang: &Option<String>, t: &DateTimeSample, military: bool) -> (r: String)
    ensures
        r@ == date_text(
            match lang {
                Some(l) => Some(l@),
                None => None,
            },
            *t,
            military,
        ),
{
    match lang {
        Some(l) => {
            if !t.is_valid_near() {
                return String::new();
            }
            let tag = language_of(l.as_str());
            match icu_format(tag, t, military) {
                Some(s) => s,
                None => String::new(),
            }
        },
        None => String::new(),
    }
}

} // verus!
