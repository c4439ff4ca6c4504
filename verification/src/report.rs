//! Reports: anything that can describe itself in text, a collector that
//! gathers the descriptions of several such things, and the layout of the
//! reports on devices, rooms and homes.
//!
//! A reading reaches the layout as text: how a number is written out is
//! the caller's business.

use vstd::prelude::*;

verus! {

/// Something that can describe its present state in text.
pub trait Report {
    /// The description. It may differ from call to call: a device reports
    /// what it reads at the moment it is asked.
    fn report(&self) -> String;
}

/// One thing to be reported on.
struct Source<'a> {
    item: &'a dyn Report,
}

impl<'a> Source<'a> {
    /// The source that stands for `item`.
    fn of(item: &'a dyn Report) -> (source: Source<'a>)
        ensures
            source == (Source { item }),
    {
        Source { item }
    }
}

/// A list of things to report on, in the order in which they were added.
pub struct Reporter<'a> {
    reporters: Vec<Source<'a>>,
}

impl<'a> Reporter<'a> {
    /// How many things are to be reported on.
    pub closed spec fn count(&self) -> nat {
        self.reporters@.len()
    }

    /// A reporter with nothing to report on.
    pub fn new() -> (reporter: Self)
        ensures
            reporter.count() == 0,
    {
        Reporter { reporters: Vec::new() }
    }

    /// This reporter with `reporter` added after what it holds already.
    pub fn add_for_report(self, reporter: &'a dyn Report) -> (extended: Self)
        ensures
            extended.count() == self.count() + 1,
    {
        let mut reporters = self.reporters;
        let source = Source::of(reporter);
        reporters.push(source);
        Reporter { reporters }
    }

    /// Asks each thing for its description, in the order in which they were
    /// added, and returns the descriptions in that order.
    pub fn report(self) -> (lines: Vec<String>)
        ensures
            lines@.len() == self.count(),
    {
        let mut lines: Vec<String> = Vec::new();
        let mut i: usize = 0;
        while i < self.reporters.len()
            invariant
                i <= self.reporters@.len(),
                lines@.len() == i,
            decreases self.reporters@.len() - i,
        {
            lines.push(self.reporters[i].item.report());
            i += 1;
        }
        lines
    }
}

impl Default for Reporter<'_> {
    fn default() -> (reporter: Self)
        ensures
            reporter.count() == 0,
    {
        Reporter::new()
    }
}

/// The width that a device's name is filled up to in the report on a room.
pub const NAME_WIDTH: usize = 20;

/// `count` spaces.
pub open spec fn spaces(count: nat) -> Seq<char> {
    Seq::new(count, |i: int| ' ')
}

/// `name`, followed by as many spaces as it lacks characters to `NAME_WIDTH`.
pub open spec fn padded(name: Seq<char>) -> Seq<char> {
    if name.len() >= NAME_WIDTH {
        name
    } else {
        name + spaces((NAME_WIDTH - name.len()) as nat)
    }
}

/// How `flag` is written out.
pub open spec fn flag_text(flag: bool) -> Seq<char> {
    if flag {
        "true"@
    } else {
        "false"@
    }
}

/// The report on a thermometer whose reading is written `reading`.
pub open spec fn thermometer_text(reading: Seq<char>) -> Seq<char> {
    "Temperature: "@ + reading
}

/// The report on a socket that is on or off as `is_on` says and whose power
/// is written `power`.
pub open spec fn socket_text(is_on: bool, power: Seq<char>) -> Seq<char> {
    "On: "@ + flag_text(is_on) + "\t Power: "@ + power
}

/// The line of a room's report for the device called `name` that reports
/// `report`.
pub open spec fn device_line(name: Seq<char>, report: Seq<char>) -> Seq<char> {
    "- "@ + padded(name) + ": "@ + report + "\n"@
}

/// The report on a room, given the name and the report of each of its
/// devices: a heading, then one line for each device, in order.
pub open spec fn room_text(devices: Seq<(String, String)>) -> Seq<char>
    decreases devices.len(),
{
    if devices.len() == 0 {
        "Room"@
    } else {
        room_text(devices.drop_last()) + device_line(devices.last().0@, devices.last().1@)
    }
}

/// The part of a home's report for the room called `name` that reports
/// `report`.
pub open spec fn room_block(name: Seq<char>, report: Seq<char>) -> Seq<char> {
    "***********\n"@ + "Room: "@ + name + "\n"@ + report
}

/// The report on the home called `name`, given the name and the report of
/// each of its rooms: a heading, then one block for each room, in order.
pub open spec fn home_text(name: Seq<char>, rooms: Seq<(String, String)>) -> Seq<char>
    decreases rooms.len(),
{
    if rooms.len() == 0 {
        "Home: "@ + name + "\n"@
    } else {
        home_text(name, rooms.drop_last()) + room_block(rooms.last().0@, rooms.last().1@)
    }
}

/// The report on a thermometer whose reading is written `reading`.
pub fn thermometer_report(reading: &str) -> (report: String)
    ensures
        report@ == thermometer_text(reading@),
{
    let mut report = String::from_str("Temperature: ");
    report.append(reading);
    report
}

/// The report on a socket that is on or off as `is_on` says and whose power
/// is written `power`.
pub fn socket_report(is_on: bool, power: &str) -> (report: String)
    ensures
        report@ == socket_text(is_on, power@),
{
    let mut report = String::from_str("On: ");
    if is_on {
        report.append("true");
    } else {
        report.append("false");
    }
    report.append("\t Power: ");
    report.append(power);
    report
}

/// Appends to `text` the spaces that `name` lacks to `NAME_WIDTH` characters.
fn pad(text: &mut String, name: &str)
    ensures
        final(text)@ == old(text)@ + padded(name@).skip(name@.len() as int),
{
    let length = name.unicode_len();
    let mut written: usize = length;
    while written < NAME_WIDTH
        invariant
            length == name@.len(),
            length <= written,
            written <= NAME_WIDTH || written == length,
            text@ == old(text)@ + padded(name@).skip(length as int).take(written - length),
        decreases NAME_WIDTH - written,
    {
        proof {
            reveal_strlit(" ");
        }
        text.append(" ");
        written += 1;
    }
}

/// The line of a room's report for the device called `name` that reports
/// `report`.
pub fn device_report_line(name: &str, report: &str) -> (line: String)
    ensures
        line@ == device_line(name@, report@),
{
    let mut line = String::from_str("- ");
    line.append(name);
    pad(&mut line, name);
    assert(line@ =~= "- "@ + padded(name@));
    line.append(": ");
    line.append(report);
    line.append("\n");
    line
}

/// The report on a room, given the name and the report of each of its
/// devices.
pub fn room_report(devices: &Vec<(String, String)>) -> (report: String)
    ensures
        report@ == room_text(devices@),
{
    let mut report = String::from_str("Room");
    let mut i: usize = 0;
    while i < devices.len()
        invariant
            i <= devices@.len(),
            report@ == room_text(devices@.take(i as int)),
        decreases devices@.len() - i,
    {
        let line = device_report_line(devices[i].0.as_str(), devices[i].1.as_str());
        proof {
            assert(devices@.take(i + 1).drop_last() =~= devices@.take(i as int));
        }
        report.append(line.as_str());
        i += 1;
    }
    assert(devices@.take(i as int) =~= devices@);
    report
}

/// The report on the home called `name`, given the name and the report of
/// each of its rooms.
pub fn home_report(name: &str, rooms: &Vec<(String, String)>) -> (report: String)
    ensures
        report@ == home_text(name@, rooms@),
{
    let mut report = String::from_str("Home: ");
    report.append(name);
    report.append("\n");
    let mut i: usize = 0;
    while i < rooms.len()
        invariant
            i <= rooms@.len(),
            report@ == home_text(name@, rooms@.take(i as int)),
        decreases rooms@.len() - i,
    {
        proof {
            assert(rooms@.take(i + 1).drop_last() =~= rooms@.take(i as int));
        }
        report.append("***********\n");
        report.append("Room: ");
        report.append(rooms[i].0.as_str());
        report.append("\n");
        report.append(rooms[i].1.as_str());
        assert(report@ =~= home_text(name@, rooms@.take(i as int)) + room_block(
            rooms@[i as int].0@,
            rooms@[i as int].1@,
        ));
        i += 1;
    }
    assert(rooms@.take(i as int) =~= rooms@);
    report
}

} // verus!
