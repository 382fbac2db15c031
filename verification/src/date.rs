//! SCID packed date fields.
//!
//! A date is packed into 20 bits as `(year << 9) | (month << 5) | day`
//! (day in bits 0-4, month in bits 5-8, year in bits 9-19).  An index
//! entry stores the game date in the low 20 bits of a 32-bit field and a
//! relative event date in the high 12 bits.

use vstd::prelude::*;

verus! {

/// Pack a year, month and day into SCID's date encoding.
pub fn date_make(year: u32, month: u32, day: u32) -> (r: u32)
    requires
        year < 0x800000,
    ensures
        r == (year << 9u32) | (month << 5u32) | day,
{
    (year << 9u32) | (month << 5u32) | day
}

/// Year component of a packed date (bits 9 and above).
pub fn date_get_year(date: u32) -> (r: u32)
    ensures
        r == date >> 9u32,
{
    date >> 9u32
}

/// Month component of a packed date (bits 5-8).
pub fn date_get_month(date: u32) -> (r: u32)
    ensures
        r == (date >> 5u32) & 15,
{
    (date >> 5u32) & 15
}

/// Day component of a packed date (bits 0-4).
pub fn date_get_day(date: u32) -> (r: u32)
    ensures
        r == date & 31,
{
    date & 31
}

/// Replace the low 20 bits of `u` with the low 20 bits of `x`.
pub fn u32_set_low_20(u: u32, x: u32) -> (r: u32)
    ensures
        r == (u & 0xFFF00000) | (x & 0x000FFFFF),
{
    (u & 0xFFF00000) | (x & 0x000FFFFF)
}

/// Replace the high 12 bits of `u` with the low 12 bits of `x`.
pub fn u32_set_high_12(u: u32, x: u32) -> (r: u32)
    ensures
        r == (u & 0x000FFFFF) | ((x & 0xFFF) << 20u32),
{
    (u & 0x000FFFFF) | ((x & 0xFFF) << 20u32)
}

/// Packed game-date value stored in the low 20 bits of a dates field.
pub open spec fn spec_game_date_field(year: u32, month: u32, day: u32) -> u32 {
    ((year << 9u32) | (month << 5u32) | day) & 0x000FFFFF
}

/// Store a game date in the low 20 bits of an existing dates field.
pub fn scid_set_date(existing_dates: u32, year: u32, month: u32, day: u32) -> (r: u32)
    requires
        year < 0x800000,
    ensures
        r == (existing_dates & 0xFFF00000) | spec_game_date_field(year, month, day),
{
    let date = date_make(year, month, day);
    u32_set_low_20(existing_dates, date)
}

/// The 12-bit relative event date that `scid_set_event_date` stores: the
/// event's month and day, plus the event year coded as an offset from the
/// game year (`year + 4 - game_year`, only when within three years).
pub open spec fn spec_event_coded_date(existing_dates: u32, edate: u32) -> u32 {
    let game_date = existing_dates & 0x000FFFFF;
    let eyear = edate >> 9u32;
    let dyear = game_date >> 9u32;
    if eyear + 3 < dyear || eyear > dyear + 3 || eyear == 0 {
        0u32
    } else {
        (((edate >> 5u32) & 15) << 5u32) | (edate & 31) | ((((eyear + 4 - dyear) as u32) & 7)
            << 9u32)
    }
}

/// Store a relative event date in the high 12 bits of a dates field.
/// The event year is kept only when it lies within three years of the
/// game year already stored in the low 20 bits; otherwise the coded
/// event date is zero (meaning "no event date").
pub fn scid_set_event_date(existing_dates: u32, edate: u32) -> (r: u32)
    requires
        (existing_dates & 0x000FFFFF) >> 9u32 >= 3,
    ensures
        r == (existing_dates & 0x000FFFFF) | ((spec_event_coded_date(existing_dates, edate) & 0xFFF)
            << 20u32),
{
    let game_date = existing_dates & 0x000FFFFF;

    let mut coded_date = date_get_month(edate) << 5u32;
    coded_date = coded_date | date_get_day(edate);
    let eyear = date_get_year(edate);
    let dyear = date_get_year(game_date);

    assert(dyear < 0x800) by (bit_vector)
        requires
            dyear == (existing_dates & 0x000FFFFF) >> 9u32,
    ;
    assert(eyear <= 0x7FFFFF) by (bit_vector)
        requires
            eyear == edate >> 9u32,
    ;

    let eyear: u32 = if eyear < dyear - 3 || eyear > dyear + 3 {
        0
    } else {
        eyear
    };

    if eyear == 0 {
        coded_date = 0;
    } else {
        coded_date = coded_date | (((eyear + 4 - dyear) & 7) << 9u32);
    }

    assert(coded_date == spec_event_coded_date(existing_dates, edate));
    u32_set_high_12(existing_dates, coded_date)
}

/// Event date recovered from a dates field, if one is coded.
pub open spec fn spec_get_event_date(dates_field: u32) -> Option<(u32, u32, u32)> {
    let dyear = (dates_field & 0x000FFFFF) >> 9u32;
    let edate = (dates_field >> 20u32) & 0xFFF;
    if edate == 0 {
        None
    } else {
        let year_offset = (edate >> 9u32) & 7;
        if year_offset == 0 {
            None
        } else {
            Some((((dyear + year_offset - 4) as u32), (edate >> 5u32) & 15, edate & 31))
        }
    }
}

/// Recover the event date from a dates field.  Returns `None` exactly
/// when no event date is coded (the 12-bit field or its year offset is
/// zero); otherwise the year is rebuilt from the game year and the
/// stored offset.
pub fn scid_get_event_date(dates_field: u32) -> (r: Option<(u32, u32, u32)>)
    requires
        (dates_field & 0x000FFFFF) >> 9u32 >= 3,
    ensures
        r == spec_get_event_date(dates_field),
{
    let game_date = dates_field & 0x000FFFFF;
    let dyear = date_get_year(game_date);
    let edate = (dates_field >> 20u32) & 0xFFF;

    if edate == 0 {
        return None;
    }

    let month = date_get_month(edate);
    let day = date_get_day(edate);
    let year_offset = date_get_year(edate) & 7;

    if year_offset == 0 {
        return None;
    }

    assert(dyear < 0x800 && year_offset <= 7) by (bit_vector)
        requires
            dyear == (dates_field & 0x000FFFFF) >> 9u32,
            year_offset == ((dates_field >> 20u32) & 0xFFF) >> 9u32 & 7,
    ;

    let year = dyear + year_offset - 4;
    Some((year, month, day))
}

/// Storing a game date and then reading its components gives the date
/// back, whenever the components are within their field widths.
pub proof fn lemma_date_round_trip(year: u32, month: u32, day: u32)
    requires
        year < 0x800,
        month < 0x10,
        day < 0x20,
    ensures
        ((year << 9u32) | (month << 5u32) | day) >> 9u32 == year,
        (((year << 9u32) | (month << 5u32) | day) >> 5u32) & 15 == month,
        ((year << 9u32) | (month << 5u32) | day) & 31 == day,
{
    assert(((year << 9u32) | (month << 5u32) | day) >> 9u32 == year
        && (((year << 9u32) | (month << 5u32) | day) >> 5u32) & 15 == month
        && ((year << 9u32) | (month << 5u32) | day) & 31 == day) by (bit_vector)
        requires
            year < 0x800,
            month < 0x10,
            day < 0x20,
    ;
}

} // verus!
