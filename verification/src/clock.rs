//! The world clock: a table of cities with their distance from UTC in whole
//! hours, and one line of text for each city that tells the time there.

use std::fmt::Write;
use vstd::prelude::*;
use crate::failure::Failure;
use crate::text::{is_line, join, joined, lines_of, lines_of_joined, same_text, texts};

verus! {

/// Whether `c` is a printable ASCII character, which fills one column.
pub open spec fn is_printable(c: char) -> bool {
    ' ' <= c && c <= '~'
}

/// Whether `s` holds printable ASCII characters only.
pub open spec fn is_plain(s: Seq<char>) -> bool {
    forall|i: int| 0 <= i < s.len() ==> is_printable(#[trigger] s[i])
}

/// Whether `zones` can be the content of a zone table: each city's name is
/// plain, each offset is less than a day, and no city is named twice.
pub open spec fn is_zone_table(zones: Seq<(Seq<char>, int)>) -> bool {
    &&& forall|i: int|
        0 <= i < zones.len() ==> is_plain((#[trigger] zones[i]).0) && -24 < zones[i].1 < 24
    &&& forall|i: int, j: int|
        0 <= i < j < zones.len() ==> (#[trigger] zones[i]).0 != (#[trigger] zones[j]).0
}

/// `zones` with `city` at `offset_hours`: in the city's place if the table
/// names it already, else behind the last entry.
pub open spec fn with_entry(
    zones: Seq<(Seq<char>, int)>,
    city: Seq<char>,
    offset_hours: int,
) -> Seq<(Seq<char>, int)> {
    if exists|i: int| 0 <= i < zones.len() && (#[trigger] zones[i]).0 == city {
        let i = choose|i: int| 0 <= i < zones.len() && (#[trigger] zones[i]).0 == city;
        zones.update(i, (city, offset_hours))
    } else {
        zones.push((city, offset_hours))
    }
}

/// The offset that `zones` gives for `city`; `None` where it does not name
/// the city.
pub open spec fn offset_in(zones: Seq<(Seq<char>, int)>, city: Seq<char>) -> Option<int> {
    if exists|i: int| 0 <= i < zones.len() && (#[trigger] zones[i]).0 == city {
        let i = choose|i: int| 0 <= i < zones.len() && (#[trigger] zones[i]).0 == city;
        Some(zones[i].1)
    } else {
        None
    }
}

/// The cities of the standard table with their offsets, in the table's order.
pub open spec fn standard_zones() -> Seq<(Seq<char>, int)> {
    seq![
        ("Otago"@, 12int),
        ("Tokyo"@, 9int),
        ("Shanghai"@, 8int),
        ("Bangkok"@, 7int),
        ("Vejle"@, 1int),
        ("Newyork"@, -4int),
        ("Chicago"@, -5int),
        ("Cupertino"@, -7int),
    ]
}

#[derive(Debug)]
struct Zone {
    city: String,
    offset_hours: i32,
}

/// A table from city to distance from UTC in whole hours, east positive. The
/// table keeps its entries in the order in which the cities were first put
/// in, and knows no daylight saving time.
#[derive(Debug)]
pub struct ZoneTable {
    zones: Vec<Zone>,
}

impl View for ZoneTable {
    type V = Seq<(Seq<char>, int)>;

    /// The entries in order, each a city's name and its offset in hours.
    closed spec fn view(&self) -> Seq<(Seq<char>, int)> {
        entries(self.zones@)
    }
}

spec fn entries(zones: Seq<Zone>) -> Seq<(Seq<char>, int)> {
    Seq::new(zones.len(), |i: int| (zones[i].city@, zones[i].offset_hours as int))
}

impl ZoneTable {
    #[verifier::type_invariant]
    closed spec fn sound(&self) -> bool {
        is_zone_table(self@)
    }

    /// A table without entries.
    pub fn new() -> (table: ZoneTable)
        ensures
            table@ == Seq::<(Seq<char>, int)>::empty(),
    {
        ZoneTable { zones: Vec::new() }
    }

    /// The number of cities in the table.
    pub fn len(&self) -> (n: usize)
        ensures
            n == self@.len(),
    {
        self.zones.len()
    }

    /// The table with `city` at `offset_hours`. A city that the table names
    /// already keeps its place and gets the new offset. A name that is not
    /// plain, and an offset of a day or more, are refused.
    pub fn with_zone(self, city: &str, offset_hours: i32) -> (r: Result<ZoneTable, Failure>)
        ensures
            match r {
                Ok(table) => is_plain(city@) && -24 < offset_hours < 24 && table@ == with_entry(
                    self@,
                    city@,
                    offset_hours as int,
                ) && is_zone_table(table@),
                Err(e) => if !is_plain(city@) {
                    e == Failure::BadCityName
                } else {
                    e == Failure::OffsetOutOfRange && !(-24 < offset_hours < 24)
                },
            },
    {
        proof {
            use_type_invariant(&self);
        }
        if !check_plain(city) {
            return Err(Failure::BadCityName);
        }
        if offset_hours <= -24 || offset_hours >= 24 {
            return Err(Failure::OffsetOutOfRange);
        }
        let ghost before = self@;
        let mut zones = self.zones;
        let mut i: usize = 0;
        while i < zones.len()
            invariant
                i <= zones.len(),
                before == self@,
                before == entries(zones@),
                is_zone_table(before),
                is_plain(city@),
                -24 < offset_hours < 24,
                forall|j: int| 0 <= j < i ==> (#[trigger] before[j]).0 != city@,
            decreases zones.len() - i,
        {
            if same_text(zones[i].city.as_str(), city) {
                zones.set(i, Zone { city: city.to_owned(), offset_hours });
                proof {
                    let after = before.update(i as int, (city@, offset_hours as int));
                    assert(before[i as int].0 == city@);
                    assert(entries(zones@) =~= after);
                    assert(after == with_entry(before, city@, offset_hours as int));
                    assert(is_zone_table(after));
                }
                return Ok(ZoneTable { zones });
            }
            i = i + 1;
        }
        zones.push(Zone { city: city.to_owned(), offset_hours });
        proof {
            let after = before.push((city@, offset_hours as int));
            assert(entries(zones@) =~= after);
            assert(is_zone_table(after));
        }
        Ok(ZoneTable { zones })
    }

    /// The standard table: eight cities, from the far east to the far west.
    pub fn standard() -> (table: ZoneTable)
        ensures
            table@ == standard_zones(),
    {
        let mut zones: Vec<Zone> = Vec::new();
        zones.push(Zone { city: "Otago".to_owned(), offset_hours: 12 });
        zones.push(Zone { city: "Tokyo".to_owned(), offset_hours: 9 });
        zones.push(Zone { city: "Shanghai".to_owned(), offset_hours: 8 });
        zones.push(Zone { city: "Bangkok".to_owned(), offset_hours: 7 });
        zones.push(Zone { city: "Vejle".to_owned(), offset_hours: 1 });
        zones.push(Zone { city: "Newyork".to_owned(), offset_hours: -4 });
        zones.push(Zone { city: "Chicago".to_owned(), offset_hours: -5 });
        zones.push(Zone { city: "Cupertino".to_owned(), offset_hours: -7 });
        proof {
            standard_zones_are_sound();
        }
        ZoneTable { zones }
    }

    /// The offset of `city` in hours; `None` where the table does not name it.
    pub fn offset_of(&self, city: &str) -> (r: Option<i32>)
        ensures
            match r {
                Some(h) => offset_in(self@, city@) == Some(h as int),
                None => offset_in(self@, city@) is None,
            },
    {
        proof {
            use_type_invariant(self);
        }
        let mut i: usize = 0;
        while i < self.zones.len()
            invariant
                i <= self.zones.len(),
                is_zone_table(self@),
                forall|j: int| 0 <= j < i ==> (#[trigger] self@[j]).0 != city@,
            decreases self.zones.len() - i,
        {
            if same_text(self.zones[i].city.as_str(), city) {
                assert(self@[i as int].0 == city@);
                return Some(self.zones[i].offset_hours);
            }
            i = i + 1;
        }
        None
    }
}

/// Tells whether `text` holds printable ASCII characters only.
pub fn check_plain(text: &str) -> (r: bool)
    ensures
        r == is_plain(text@),
{
    let n: usize = text.unicode_len();
    let mut i: usize = 0;
    while i < n
        invariant
            i <= n,
            n == text@.len(),
            forall|j: int| 0 <= j < i ==> is_printable(#[trigger] text@[j]),
        decreases n - i,
    {
        let c = text.get_char(i);
        if !(' ' <= c && c <= '~') {
            return false;
        }
        i = i + 1;
    }
    true
}

/// `text` in exactly `width` columns: cut after `width` characters where it
/// is longer, filled up with spaces on the right where it is shorter.
pub open spec fn fitted(text: Seq<char>, width: nat) -> Seq<char> {
    if text.len() >= width {
        text.take(width as int)
    } else {
        text + Seq::new((width - text.len()) as nat, |i: int| ' ')
    }
}

/// `pad::PadStr::with_exact_width` counts the columns that `text` fills and
/// cuts it, or fills it up with spaces on the right, to `width` columns. A
/// printable ASCII character fills one column, so for plain text the columns
/// are the characters. (For other text the count is another, and the cut may
/// fall inside a character, which stops the program.)
#[verifier::external_body]
fn with_exact_width(text: &str, width: usize) -> (r: String)
    requires
        is_plain(text@),
    ensures
        r@ == fitted(text@, width as nat),
{
    pad::PadStr::with_exact_width(text, width)
}

/// One line of the world clock: the city in ten columns, a bar, the stamp.
pub open spec fn line_of(city: Seq<char>, stamp: Seq<char>) -> Seq<char> {
    fitted(city, 10) + " | "@ + stamp
}

/// Writes one line of the world clock for `city`, whose time stamp is
/// `stamp`. A city whose name is not plain is refused.
pub fn clock_line(city: &str, stamp: &str) -> (r: Result<String, Failure>)
    ensures
        match r {
            Ok(line) => is_plain(city@) && line@ == line_of(city@, stamp@),
            Err(e) => !is_plain(city@) && e == Failure::BadCityName,
        },
{
    if !check_plain(city) {
        return Err(Failure::BadCityName);
    }
    let mut line = with_exact_width(city, 10);
    line.append(" | ");
    line.append(stamp);
    Ok(line)
}

/// What `chrono` writes for the moment `seconds` seconds after the start of
/// 1970 (UTC), seen `offset_seconds` seconds east of UTC, in the strftime
/// pattern `pattern`; `None` where the moment or the offset is out of
/// `chrono`'s range, or the pattern is not one.
pub uninterp spec fn formatted_time(
    seconds: int,
    offset_seconds: int,
    pattern: Seq<char>,
) -> Option<Seq<char>>;

/// Makes the moment with `chrono::DateTime::from_timestamp`, the zone with
/// `chrono::FixedOffset::east_opt`, moves the moment into the zone with
/// `chrono::DateTime::with_timezone` and writes it with
/// `chrono::DateTime::format`. It is taken on trust that the text depends on
/// the three arguments alone.
#[verifier::external_body]
fn format_time(seconds: i64, offset_seconds: i32, pattern: &str) -> (r: Option<String>)
    ensures
        r matches Some(s) ==> formatted_time(seconds as int, offset_seconds as int, pattern@)
            == Some(s@),
        r is None ==> formatted_time(seconds as int, offset_seconds as int, pattern@) is None,
{
    let utc = chrono::DateTime::from_timestamp(seconds, 0)?;
    let zone = chrono::FixedOffset::east_opt(offset_seconds)?;
    let mut out = String::new();
    write!(out, "{}", utc.with_timezone(&zone).format(pattern)).ok()?;
    Some(out)
}

/// The pattern of a time stamp: month, day of the month, day of the week in
/// brackets, hour and minute, AM or PM, and the zone's offset.
pub open spec fn clock_pattern() -> Seq<char> {
    "%b %d (%a) %H:%M %p %z"@
}

/// Whether `c` is a letter of the English alphabet.
pub open spec fn is_letter(c: char) -> bool {
    ('A' <= c && c <= 'Z') || ('a' <= c && c <= 'z')
}

/// Whether `c` is a decimal digit.
pub open spec fn is_digit(c: char) -> bool {
    '0' <= c && c <= '9'
}

/// Whether `c` can stand at place `i` of a time stamp, which is laid out as
/// `Mon DD (Dow) HH:MM xM +ZZZZ`: letters for the month and the day of the
/// week, digits for the day, the hour, the minute and the offset, `A` or `P`
/// for `x`, and either sign.
pub open spec fn fits_stamp(i: int, c: char) -> bool {
    if i == 3 || i == 6 || i == 12 || i == 18 || i == 21 {
        c == ' '
    } else if i == 7 {
        c == '('
    } else if i == 11 {
        c == ')'
    } else if i == 15 {
        c == ':'
    } else if i == 19 {
        c == 'A' || c == 'P'
    } else if i == 20 {
        c == 'M'
    } else if i == 22 {
        c == '+' || c == '-'
    } else if i < 3 || (8 <= i && i < 11) {
        is_letter(c)
    } else {
        is_digit(c)
    }
}

/// Whether `s` is laid out as a time stamp.
pub open spec fn is_stamp(s: Seq<char>) -> bool {
    s.len() == 27 && forall|i: int| 0 <= i < 27 ==> fits_stamp(i, #[trigger] s[i])
}

fn fits(i: usize, c: char) -> (r: bool)
    ensures
        r == fits_stamp(i as int, c),
{
    if i == 3 || i == 6 || i == 12 || i == 18 || i == 21 {
        c == ' '
    } else if i == 7 {
        c == '('
    } else if i == 11 {
        c == ')'
    } else if i == 15 {
        c == ':'
    } else if i == 19 {
        c == 'A' || c == 'P'
    } else if i == 20 {
        c == 'M'
    } else if i == 22 {
        c == '+' || c == '-'
    } else if i < 3 || (8 <= i && i < 11) {
        ('A' <= c && c <= 'Z') || ('a' <= c && c <= 'z')
    } else {
        '0' <= c && c <= '9'
    }
}

/// Tells whether `text` is laid out as a time stamp.
pub fn check_stamp(text: &str) -> (r: bool)
    ensures
        r == is_stamp(text@),
{
    if text.unicode_len() != 27 {
        return false;
    }
    let mut i: usize = 0;
    while i < 27
        invariant
            i <= 27,
            text@.len() == 27,
            forall|j: int| 0 <= j < i ==> fits_stamp(j, #[trigger] text@[j]),
        decreases 27 - i,
    {
        if !fits(i, text.get_char(i)) {
            return false;
        }
        i = i + 1;
    }
    true
}

/// The time stamp for the moment `now`, in seconds since the start of 1970,
/// at `offset_hours` hours east of UTC: what the calendar writes in the clock
/// pattern, if it is laid out as a time stamp.
pub open spec fn stamp_of(now: int, offset_hours: int) -> Option<Seq<char>> {
    match formatted_time(now, offset_hours * 3600, clock_pattern()) {
        Some(stamp) => if is_stamp(stamp) {
            Some(stamp)
        } else {
            None
        },
        None => None,
    }
}

/// The result of asking for a time stamp at `offset_hours`: the zone's stamp,
/// or the reason why there is none.
pub open spec fn stamp_answer(now: int, offset_hours: int) -> Result<Seq<char>, Failure> {
    if !(-24 < offset_hours < 24) {
        Err(Failure::OffsetOutOfRange)
    } else {
        match stamp_of(now, offset_hours) {
            Some(stamp) => Ok(stamp),
            None => Err(Failure::NoTimeStamp),
        }
    }
}

/// The time stamp for the moment `now`, given in seconds since the start of
/// 1970 (UTC), as a clock shows it `offset_hours` hours east of UTC. An offset
/// of a day or more is refused, and so is whatever the calendar writes that
/// is not laid out as a time stamp.
pub fn time_stamp(now: i64, offset_hours: i32) -> (r: Result<String, Failure>)
    ensures
        match stamp_answer(now as int, offset_hours as int) {
            Ok(stamp) => r matches Ok(s) && s@ == stamp,
            Err(e) => r == Err::<String, Failure>(e),
        },
        r matches Ok(s) ==> is_stamp(s@),
{
    if offset_hours <= -24 || offset_hours >= 24 {
        return Err(Failure::OffsetOutOfRange);
    }
    match format_time(now, offset_hours * 3600, "%b %d (%a) %H:%M %p %z") {
        Some(stamp) => if check_stamp(stamp.as_str()) {
            Ok(stamp)
        } else {
            Err(Failure::NoTimeStamp)
        },
        None => Err(Failure::NoTimeStamp),
    }
}

/// The lines of the world clock for `zones` at the moment `now`, one for each
/// city, in the table's order; `None` where one of the stamps cannot be had.
pub open spec fn clock_lines(zones: Seq<(Seq<char>, int)>, now: int) -> Option<Seq<Seq<char>>> {
    if forall|i: int| 0 <= i < zones.len() ==> stamp_of(now, (#[trigger] zones[i]).1) is Some {
        Some(
            Seq::new(
                zones.len(),
                |i: int| line_of(zones[i].0, stamp_of(now, zones[i].1).unwrap()),
            ),
        )
    } else {
        None
    }
}

/// The lines of the world clock at the moment `now`, given in seconds since
/// the start of 1970 (UTC): one line for each city of `table`, in the table's
/// order.
pub fn world_clock_lines(table: &ZoneTable, now: i64) -> (r: Result<Vec<String>, Failure>)
    ensures
        match clock_lines(table@, now as int) {
            Some(lines) => r matches Ok(v) && texts(v@) == lines,
            None => r == Err::<Vec<String>, Failure>(Failure::NoTimeStamp),
        },
{
    proof {
        use_type_invariant(table);
    }
    let mut lines: Vec<String> = Vec::new();
    let mut i: usize = 0;
    while i < table.zones.len()
        invariant
            i <= table.zones.len(),
            table@ == entries(table.zones@),
            is_zone_table(table@),
            lines@.len() == i,
            forall|j: int| 0 <= j < i ==> stamp_of(now as int, (#[trigger] table@[j]).1) is Some,
            forall|j: int|
                0 <= j < i ==> (#[trigger] lines@[j])@ == line_of(
                    table@[j].0,
                    stamp_of(now as int, table@[j].1).unwrap(),
                ),
        decreases table.zones.len() - i,
    {
        let zone = &table.zones[i];
        assert(is_plain(table@[i as int].0) && -24 < table@[i as int].1 < 24);
        let stamp = match time_stamp(now, zone.offset_hours) {
            Ok(stamp) => stamp,
            Err(e) => {
                return Err(e);
            },
        };
        let line = match clock_line(zone.city.as_str(), stamp.as_str()) {
            Ok(line) => line,
            Err(e) => {
                return Err(e);
            },
        };
        lines.push(line);
        i = i + 1;
    }
    Ok(lines)
}

/// The world clock for `zones` at the moment `now` as one text: the lines of
/// the cities with a line feed between each two.
pub open spec fn clock_text(zones: Seq<(Seq<char>, int)>, now: int) -> Option<Seq<char>> {
    match clock_lines(zones, now) {
        Some(lines) => Some(joined(lines, "\n"@)),
        None => None,
    }
}

/// Whether `r` is the answer of the world clock for `zones` at the moment
/// `now`: the text of the clock, or the failure where a stamp cannot be had.
pub open spec fn is_world_clock(
    zones: Seq<(Seq<char>, int)>,
    now: int,
    r: Result<String, Failure>,
) -> bool {
    match clock_text(zones, now) {
        Some(text) => r matches Ok(s) && s@ == text,
        None => r == Err::<String, Failure>(Failure::NoTimeStamp),
    }
}

/// The world clock at the moment `now` as one text, a line to each city.
pub fn world_clock(table: &ZoneTable, now: i64) -> (r: Result<String, Failure>)
    ensures
        is_world_clock(table@, now as int, r),
{
    match world_clock_lines(table, now) {
        Ok(lines) => Ok(join(&lines, "\n")),
        Err(e) => Err(e),
    }
}

/// The standard table is a zone table of eight cities.
pub proof fn standard_zones_are_sound()
    ensures
        standard_zones().len() == 8,
        is_zone_table(standard_zones()),
{
    reveal_strlit("Otago");
    reveal_strlit("Tokyo");
    reveal_strlit("Shanghai");
    reveal_strlit("Bangkok");
    reveal_strlit("Vejle");
    reveal_strlit("Newyork");
    reveal_strlit("Chicago");
    reveal_strlit("Cupertino");
    let z = standard_zones();
    assert(z[0].0[0] == 'O' && z[1].0[0] == 'T' && z[2].0[0] == 'S' && z[3].0[0] == 'B' && z[4].0[0]
        == 'V' && z[5].0[0] == 'N' && z[6].0[0] == 'C' && z[7].0[0] == 'C');
    assert(z[6].0[1] == 'h' && z[7].0[1] == 'u');
}

/// Whether `line` is laid out as the line of `city`: the city in ten
/// columns, a bar between two spaces, and a time stamp, forty columns in all
/// and no line feed among them.
pub open spec fn is_clock_line(line: Seq<char>, city: Seq<char>) -> bool {
    &&& line.len() == 40
    &&& line.take(10) == fitted(city, 10)
    &&& line.subrange(10, 13) == seq![' ', '|', ' ']
    &&& is_stamp(line.skip(13))
    &&& is_line(line)
}

/// The line of a city with a plain name and a time stamp is laid out as a
/// line of the clock.
pub proof fn line_is_laid_out(city: Seq<char>, stamp: Seq<char>)
    requires
        is_plain(city),
        is_stamp(stamp),
    ensures
        is_clock_line(line_of(city, stamp), city),
{
    reveal_strlit(" | ");
    let line = line_of(city, stamp);
    let name = fitted(city, 10);
    assert(line.take(10) == name);
    assert(line.subrange(10, 13) == seq![' ', '|', ' ']);
    assert forall|j: int| 0 <= j < line.len() implies #[trigger] line[j] != '\n' by {
        if j < 10 && j < city.len() {
            assert(is_printable(city[j]));
        } else if j >= 13 {
            assert(fits_stamp(j - 13, stamp[j - 13]));
        }
    }
}

/// The world clock has one line for each city of the table, in the table's
/// order, and each line is laid out as the line of its city. Where the table
/// is not empty, these are the lines of the text.
pub proof fn clock_has_a_line_for_each_city(zones: Seq<(Seq<char>, int)>, now: int)
    requires
        is_zone_table(zones),
    ensures
        clock_lines(zones, now) matches Some(lines) ==> {
            &&& lines.len() == zones.len()
            &&& forall|i: int|
                0 <= i < zones.len() ==> is_clock_line(#[trigger] lines[i], zones[i].0)
            &&& zones.len() > 0 ==> lines_of(clock_text(zones, now).unwrap()) == lines
        },
{
    if let Some(lines) = clock_lines(zones, now) {
        assert forall|i: int| 0 <= i < zones.len() implies is_clock_line(
            #[trigger] lines[i],
            zones[i].0,
        ) by {
            line_is_laid_out(zones[i].0, stamp_of(now, zones[i].1).unwrap());
        }
        if zones.len() > 0 {
            reveal_strlit("\n");
            assert("\n"@ == seq!['\n']);
            lines_of_joined(lines);
        }
    }
}

/// The world clock of the standard table is a text of eight lines, one for
/// each of its cities in the table's order. Each line holds the city's name,
/// spaces up to the tenth column, a bar between two spaces, and the city's
/// time stamp.
pub proof fn standard_clock_has_eight_lines(now: int)
    ensures
        clock_text(standard_zones(), now) matches Some(text) ==> {
            &&& lines_of(text).len() == 8
            &&& forall|i: int|
                0 <= i < 8 ==> #[trigger] lines_of(text)[i] == standard_zones()[i].0 + Seq::new(
                    (10 - standard_zones()[i].0.len()) as nat,
                    |k: int| ' ',
                ) + " | "@ + stamp_of(now, standard_zones()[i].1).unwrap()
            &&& forall|i: int|
                0 <= i < 8 ==> is_stamp(stamp_of(now, (#[trigger] standard_zones()[i]).1).unwrap())
        },
{
    standard_zones_are_sound();
    clock_has_a_line_for_each_city(standard_zones(), now);
    reveal_strlit("Otago");
    reveal_strlit("Tokyo");
    reveal_strlit("Shanghai");
    reveal_strlit("Bangkok");
    reveal_strlit("Vejle");
    reveal_strlit("Newyork");
    reveal_strlit("Chicago");
    reveal_strlit("Cupertino");
}

/// The world clock is a function of the table and the moment: two answers
/// for the same table and the same moment are the same text, or the same
/// failure.
pub proof fn world_clock_is_deterministic(
    zones: Seq<(Seq<char>, int)>,
    now: int,
    first: Result<String, Failure>,
    second: Result<String, Failure>,
)
    requires
        is_world_clock(zones, now, first),
        is_world_clock(zones, now, second),
    ensures
        match (first, second) {
            (Ok(a), Ok(b)) => a@ == b@,
            (Err(a), Err(b)) => a == b,
            _ => false,
        },
{
}

} // verus!
