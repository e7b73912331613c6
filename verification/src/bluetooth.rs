//! Making sense of what the signal query tool printed.

use vstd::prelude::*;
use vstd::slice::slice_subrange;
use crate::number::{parse_i16, read_i16};
use crate::signal::{Reading, UNREACHABLE_RSSI};
use crate::text::{
    after_last, after_last_start, chars_of, contains, contains_pattern, find_in, first_index,
    strip_bounds, trim,
};

verus! {

/// How the run of the query tool ended.
#[derive(Clone, Copy, Debug, PartialEq, Eq, Structural)]
pub enum CommandStatus {
    /// The tool could not be run at all.
    NotRun,
    /// The tool ran and reported a failure: the device is not connected.
    Failed,
    /// The tool ran and reported success.
    Succeeded,
}

/// Why a query gave no signal strength. None of these is an error to
/// whoever asked: the device then has the strength [`UNREACHABLE_RSSI`].
#[derive(Clone, Copy, Debug, PartialEq, Eq, Structural)]
pub enum RssiError {
    /// The query tool could not be run.
    Command,
    /// The tool's output holds no signal strength that can be read.
    Parse,
}

/// The signal strength that a line of output states: what follows its
/// last colon, white space aside, read as an `i16`.
pub open spec fn rssi_in_line(line: Seq<char>) -> Option<i16> {
    parse_i16(trim(after_last(line, ':')))
}

/// The signal strength that the tool's output states: that of the first
/// line that holds the words `RSSI return value:`. If that line states
/// none, later lines are not looked at.
pub open spec fn rssi_in_output(text: Seq<char>) -> Option<i16>
    decreases text.len(),
{
    let end = first_index(text, '\n');
    let line = text.take(end as int);
    if contains(line, "RSSI return value:"@) {
        rssi_in_line(line)
    } else if end < text.len() {
        rssi_in_output(text.skip(end as int + 1))
    } else {
        None
    }
}

/// What went wrong in a query, if anything did: the tool could not be
/// run, or it reported success and printed no signal strength. A tool that
/// ran and reported a failure has answered: the device is not connected.
pub open spec fn failure_of_query(status: CommandStatus, stdout: Seq<char>) -> Option<RssiError> {
    match status {
        CommandStatus::NotRun => Some(RssiError::Command),
        CommandStatus::Failed => None,
        CommandStatus::Succeeded => match rssi_in_output(stdout) {
            Some(_) => None,
            None => Some(RssiError::Parse),
        },
    }
}

/// The raw signal strength that a query comes to: the one that the tool
/// printed after reporting success, and [`UNREACHABLE_RSSI`] in every
/// other case. A query that failed is a device that cannot be read, never
/// an error.
pub open spec fn rssi_of_query(status: CommandStatus, stdout: Seq<char>) -> i16 {
    match status {
        CommandStatus::NotRun | CommandStatus::Failed => UNREACHABLE_RSSI,
        CommandStatus::Succeeded => match rssi_in_output(stdout) {
            Some(rssi) => rssi,
            None => UNREACHABLE_RSSI,
        },
    }
}

/// The reading that a query comes to. A query that failed, for whatever
/// reason, is an absent reading.
pub open spec fn reading_of_query(status: CommandStatus, stdout: Seq<char>) -> Reading {
    Reading::of_raw(rssi_of_query(status, stdout))
}

/// Reads the signal strength that the tool's output states.
pub fn read_rssi(stdout: &str) -> (rssi: Option<i16>)
    ensures
        rssi == rssi_in_output(stdout@),
{
    let chars = chars_of(stdout);
    let words = chars_of("RSSI return value:");
    let mut pos: usize = 0;
    assert(chars@.skip(0) == chars@);
    loop
        invariant
            pos <= chars.len(),
            words@ == "RSSI return value:"@,
            rssi_in_output(stdout@) == rssi_in_output(chars@.skip(pos as int)),
        decreases chars.len() - pos,
    {
        let end = find_in(chars.as_slice(), pos, chars.len(), '\n');
        let line = slice_subrange(chars.as_slice(), pos, end);
        proof {
            let rest = chars@.skip(pos as int);
            assert(rest == chars@.subrange(pos as int, chars.len() as int));
            assert(rest.take(end - pos) == line@);
            if end < chars.len() {
                assert(rest.skip(end - pos + 1) == chars@.skip(end + 1));
            }
        }
        if contains_pattern(line, words.as_slice()) {
            let from = after_last_start(line, ':');
            let tail = slice_subrange(line, from, line.len());
            assert(tail@ == line@.skip(from as int));
            let (lo, hi) = strip_bounds(tail, None);
            return read_i16(slice_subrange(tail, lo, hi));
        }
        if end < chars.len() {
            pos = end + 1;
        } else {
            return None;
        }
    }
}

/// The source of signal readings.
#[derive(Clone, Copy, Debug)]
pub struct BluetoothManager {}

impl BluetoothManager {
    /// A signal source. It holds nothing: all it knows comes with each query.
    pub fn new() -> Self {
        BluetoothManager {  }
    }

    /// Makes a raw signal strength of a finished query: `status` tells how
    /// the run of the query tool ended, `stdout` is what it printed. It
    /// never fails: a tool that could not be run, that reported a failure,
    /// or that printed no signal strength gives [`UNREACHABLE_RSSI`].
    pub fn check_device_rssi(&self, status: CommandStatus, stdout: &str) -> (rssi: Result<
        i16,
        RssiError,
    >)
        ensures
            rssi == Ok::<i16, RssiError>(rssi_of_query(status, stdout@)),
    {
        match status {
            CommandStatus::NotRun | CommandStatus::Failed => Ok(UNREACHABLE_RSSI),
            CommandStatus::Succeeded => match read_rssi(stdout) {
                Some(rssi) => Ok(rssi),
                None => Ok(UNREACHABLE_RSSI),
            },
        }
    }

    /// Tells what went wrong in a finished query, for those who keep a
    /// record: nothing, where the tool answered.
    pub fn query_failure(&self, status: CommandStatus, stdout: &str) -> (failure: Option<RssiError>)
        ensures
            failure == failure_of_query(status, stdout@),
    {
        match status {
            CommandStatus::NotRun => Some(RssiError::Command),
            CommandStatus::Failed => None,
            CommandStatus::Succeeded => match read_rssi(stdout) {
                Some(_) => None,
                None => Some(RssiError::Parse),
            },
        }
    }

    /// Makes a reading of a finished query. No failure of a query is an
    /// error: each gives an absent reading.
    pub fn read_signal(&self, status: CommandStatus, stdout: &str) -> (reading: Reading)
        ensures
            reading == reading_of_query(status, stdout@),
    {
        match self.check_device_rssi(status, stdout) {
            Ok(rssi) => Reading::from_raw(rssi),
            Err(_) => Reading::Absent,
        }
    }
}

} // verus!
