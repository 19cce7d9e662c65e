//! The first-day-of-week dropdown offers four choices (Friday, Saturday,
//! Sunday, Monday). The applet stores the choice as a weekday code, where
//! 0 is Monday and 6 is Sunday.
use vstd::prelude::*;

verus! {

/// Weekday code of Friday.
pub const FRIDAY: usize = 4;

/// Weekday code of Saturday.
pub const SATURDAY: usize = 5;

/// Weekday code of Sunday, the default.
pub const SUNDAY: usize = 6;

/// Weekday code of Monday.
pub const MONDAY: usize = 0;

/// Dropdown position of a stored weekday code. Every code that has no
/// position of its own falls into the Sunday position.
pub open spec fn index_of_code(code: usize) -> usize {
    if code == FRIDAY {
        0
    } else if code == SATURDAY {
        1
    } else if code == MONDAY {
        3
    } else {
        2
    }
}

/// Weekday code stored for a dropdown position. Every position other than
/// Friday, Saturday and Monday stores Sunday.
pub open spec fn code_of_index(index: usize) -> usize {
    if index == 0 {
        FRIDAY
    } else if index == 1 {
        SATURDAY
    } else if index == 3 {
        MONDAY
    } else {
        SUNDAY
    }
}

/// Decodes a stored first-day-of-week code into its dropdown position.
pub fn weekday_index(code: usize) -> (r: usize)
    ensures
        r == index_of_code(code),
        r < 4,
{
    match code {
        4 => 0,
        5 => 1,
        0 => 3,
        _ => 2,
    }
}

/// Encodes a dropdown position as the first-day-of-week code to store.
pub fn weekday_code(index: usize) -> (r: usize)
    ensures
        r == code_of_index(index),
{
    match index {
        0 => FRIDAY,
        1 => SATURDAY,
        3 => MONDAY,
        _ => SUNDAY,
    }
}

/// Decoding then encoding gives back Friday, Saturday and Monday, whose
/// positions are 0, 1 and 3. Every other code decodes to position 2, which
/// encodes as Sunday: the codec is many-to-one on decode.
pub proof fn lemma_weekday_round_trip(code: usize)
    ensures
        code == FRIDAY ==> index_of_code(code) == 0,
        code == SATURDAY ==> index_of_code(code) == 1,
        code == MONDAY ==> index_of_code(code) == 3,
        code == FRIDAY || code == SATURDAY || code == MONDAY ==> code_of_index(
            index_of_code(code),
        ) == code,
        !(code == FRIDAY || code == SATURDAY || code == MONDAY) ==> index_of_code(code) == 2,
        !(code == FRIDAY || code == SATURDAY || code == MONDAY) ==> code_of_index(
            index_of_code(code),
        ) == SUNDAY,
        code_of_index(2) == SUNDAY,
{
}

/// Encoding then decoding is the identity on the four dropdown positions.
pub proof fn lemma_position_round_trip(index: usize)
    requires
        index < 4,
    ensures
        index_of_code(code_of_index(index)) == index,
{
}

} // verus!
