//! Configuration of the lock daemon.

use vstd::prelude::*;
use vstd::slice::slice_subrange;
use crate::number::{parse_bool, parse_i16, parse_u64, read_bool, read_i16, read_u64};
use crate::text::{
    chars_of, find_in, first_index, lemma_subrange_of_subrange, spells, strip_bounds_in, strip_end,
    strip_end_in, trim, trim_matches,
};

verus! {

/// One configured peripheral.
#[derive(Clone, Debug)]
pub struct DeviceConfig {
    /// The address by which the signal source knows the device.
    pub mac_address: String,
    /// The name shown to the user.
    pub name: String,
    /// Whether the device takes part in the decision.
    pub enabled: bool,
}

/// A device as the contracts see it: its texts as sequences of characters.
pub struct DeviceSpec {
    /// The address by which the signal source knows the device.
    pub mac_address: Seq<char>,
    /// The name shown to the user.
    pub name: Seq<char>,
    /// Whether the device takes part in the decision.
    pub enabled: bool,
}

impl View for DeviceConfig {
    type V = DeviceSpec;

    open spec fn view(&self) -> DeviceSpec {
        DeviceSpec { mac_address: self.mac_address@, name: self.name@, enabled: self.enabled }
    }
}

/// Signal strengths that readings are compared against. Neither is checked
/// against the other: any pair is accepted.
#[derive(Clone, Copy, Debug, PartialEq, Eq, Structural)]
pub struct ThresholdsConfig {
    /// A connected device at or above this keeps the screen from locking.
    pub lock_threshold: i16,
    /// A connected device strictly above this may unlock the screen.
    pub unlock_threshold: i16,
}

/// Durations, all in seconds.
#[derive(Clone, Copy, Debug, PartialEq, Eq, Structural)]
pub struct TimingsConfig {
    /// How long all devices must stay weak before the screen locks.
    pub lock_hold_seconds: u64,
    /// How long a device must stay in range before the screen unlocks.
    pub unlock_hold_seconds: u64,
    /// Time between two polling cycles.
    pub poll_interval: u64,
}

/// Everything the daemon is configured with. Read once, never changed.
#[derive(Clone, Debug)]
pub struct Config {
    /// The configured devices, in the order of the configuration text.
    pub devices: Vec<DeviceConfig>,
    /// What readings are compared against.
    pub thresholds: ThresholdsConfig,
    /// How long conditions must hold, and how often they are looked at.
    pub timings: TimingsConfig,
}

/// A configuration as the contracts see it.
pub struct ConfigSpec {
    /// The configured devices, in the order of the configuration text.
    pub devices: Seq<DeviceSpec>,
    /// What readings are compared against.
    pub thresholds: ThresholdsConfig,
    /// How long conditions must hold, and how often they are looked at.
    pub timings: TimingsConfig,
}

impl View for Config {
    type V = ConfigSpec;

    open spec fn view(&self) -> ConfigSpec {
        ConfigSpec {
            devices: self.devices@.map_values(|d: DeviceConfig| d@),
            thresholds: self.thresholds,
            timings: self.timings,
        }
    }
}

impl ConfigSpec {
    /// The index of the first enabled device at or after `from`, or the
    /// number of devices if there is none.
    pub open spec fn next_enabled(self, from: int) -> int
        decreases self.devices.len() - from,
    {
        if from < 0 || from >= self.devices.len() {
            self.devices.len() as int
        } else if self.devices[from].enabled {
            from
        } else {
            self.next_enabled(from + 1)
        }
    }

    /// The indices of the enabled devices at or after `from`, in order.
    pub open spec fn enabled_from(self, from: int) -> Seq<int>
        decreases self.devices.len() - from,
    {
        if from < 0 || from >= self.devices.len() {
            Seq::empty()
        } else if self.devices[from].enabled {
            seq![from] + self.enabled_from(from + 1)
        } else {
            self.enabled_from(from + 1)
        }
    }

    /// `next_enabled` finds the least enabled index that is not below `from`.
    pub proof fn lemma_next_enabled(self, from: int)
        requires
            0 <= from,
        ensures
            from <= self.next_enabled(from) || self.next_enabled(from) == self.devices.len(),
            self.next_enabled(from) <= self.devices.len(),
            self.next_enabled(from) < self.devices.len() ==> self.devices[self.next_enabled(
                from,
            )].enabled,
            forall|j: int| from <= j < self.next_enabled(from) ==> !(#[trigger] self.devices[j]).enabled,
        decreases self.devices.len() - from,
    {
        if from < self.devices.len() && !self.devices[from].enabled {
            self.lemma_next_enabled(from + 1);
        }
    }
}

impl Config {
    /// The index of the first enabled device at or after `from`, or the
    /// number of devices if there is none.
    pub fn next_enabled(&self, from: usize) -> (index: usize)
        ensures
            index == self@.next_enabled(from as int),
            index <= self.devices.len(),
    {
        let mut i = from;
        while i < self.devices.len() && !self.devices[i].enabled
            invariant
                from <= i,
                self@.next_enabled(i as int) == self@.next_enabled(from as int),
            decreases self.devices.len() - i,
        {
            i += 1;
        }
        if i < self.devices.len() {
            i
        } else {
            self.devices.len()
        }
    }
}

/// The block of the configuration text that a line stands in.
#[derive(Clone, Copy, Debug, PartialEq, Eq, Structural)]
pub enum Section {
    /// A `device { .. }` block.
    Device,
    /// The `thresholds { .. }` block.
    Thresholds,
    /// The `timings { .. }` block.
    Timings,
    /// Outside the three, or inside a block of another name.
    Other,
}

impl Section {
    /// The block that `name` opens.
    pub open spec fn named(name: Seq<char>) -> Section {
        if name == "device"@ {
            Section::Device
        } else if name == "thresholds"@ {
            Section::Thresholds
        } else if name == "timings"@ {
            Section::Timings
        } else {
            Section::Other
        }
    }

    fn of_name(name: &[char]) -> (section: Section)
        ensures
            section == Section::named(name@),
    {
        if spells(name, "device") {
            Section::Device
        } else if spells(name, "thresholds") {
            Section::Thresholds
        } else if spells(name, "timings") {
            Section::Timings
        } else {
            Section::Other
        }
    }
}

impl DeviceSpec {
    /// A device of which nothing has been said yet: no address, no name,
    /// enabled.
    pub open spec fn blank() -> DeviceSpec {
        DeviceSpec { mac_address: Seq::empty(), name: Seq::empty(), enabled: true }
    }

    /// The device after the entry `key = value`. A key that a device does
    /// not have changes nothing; an `enabled` that is neither `true` nor
    /// `false` enables.
    pub open spec fn assigned(self, key: Seq<char>, value: Seq<char>) -> DeviceSpec {
        if key == "mac_address"@ {
            DeviceSpec { mac_address: value, ..self }
        } else if key == "name"@ {
            DeviceSpec { name: value, ..self }
        } else if key == "enabled"@ {
            DeviceSpec {
                enabled: match parse_bool(value) {
                    Some(enabled) => enabled,
                    None => true,
                },
                ..self
            }
        } else {
            self
        }
    }
}

impl ThresholdsConfig {
    /// The thresholds of a configuration that names none.
    pub open spec fn defaults() -> ThresholdsConfig {
        ThresholdsConfig { lock_threshold: -20i16, unlock_threshold: -15i16 }
    }

    /// The thresholds after the entry `key = value`. A key that is not a
    /// threshold changes nothing; a value that is no `i16` sets the
    /// threshold back to its default.
    pub open spec fn assigned(self, key: Seq<char>, value: Seq<char>) -> ThresholdsConfig {
        if key == "lock_threshold"@ {
            ThresholdsConfig {
                lock_threshold: match parse_i16(value) {
                    Some(threshold) => threshold,
                    None => -20i16,
                },
                ..self
            }
        } else if key == "unlock_threshold"@ {
            ThresholdsConfig {
                unlock_threshold: match parse_i16(value) {
                    Some(threshold) => threshold,
                    None => -15i16,
                },
                ..self
            }
        } else {
            self
        }
    }

    fn new() -> (thresholds: ThresholdsConfig)
        ensures
            thresholds == ThresholdsConfig::defaults(),
    {
        ThresholdsConfig { lock_threshold: -20, unlock_threshold: -15 }
    }

    fn assign(&mut self, key: &[char], value: &[char])
        ensures
            *final(self) == old(self).assigned(key@, value@),
    {
        if spells(key, "lock_threshold") {
            self.lock_threshold = match read_i16(value) {
                Some(threshold) => threshold,
                None => -20,
            };
        } else if spells(key, "unlock_threshold") {
            self.unlock_threshold = match read_i16(value) {
                Some(threshold) => threshold,
                None => -15,
            };
        }
    }
}

impl TimingsConfig {
    /// The timings of a configuration that names none.
    pub open spec fn defaults() -> TimingsConfig {
        TimingsConfig { lock_hold_seconds: 3, unlock_hold_seconds: 3, poll_interval: 1 }
    }

    /// The timings after the entry `key = value`. A key that is not a
    /// timing changes nothing; a value that is no `u64` sets the timing
    /// back to its default.
    pub open spec fn assigned(self, key: Seq<char>, value: Seq<char>) -> TimingsConfig {
        if key == "lock_hold_seconds"@ {
            TimingsConfig {
                lock_hold_seconds: match parse_u64(value) {
                    Some(seconds) => seconds,
                    None => 3,
                },
                ..self
            }
        } else if key == "unlock_hold_seconds"@ {
            TimingsConfig {
                unlock_hold_seconds: match parse_u64(value) {
                    Some(seconds) => seconds,
                    None => 3,
                },
                ..self
            }
        } else if key == "poll_interval"@ {
            TimingsConfig {
                poll_interval: match parse_u64(value) {
                    Some(seconds) => seconds,
                    None => 1,
                },
                ..self
            }
        } else {
            self
        }
    }

    fn new() -> (timings: TimingsConfig)
        ensures
            timings == TimingsConfig::defaults(),
    {
        TimingsConfig { lock_hold_seconds: 3, unlock_hold_seconds: 3, poll_interval: 1 }
    }

    fn assign(&mut self, key: &[char], value: &[char])
        ensures
            *final(self) == old(self).assigned(key@, value@),
    {
        if spells(key, "lock_hold_seconds") {
            self.lock_hold_seconds = match read_u64(value) {
                Some(seconds) => seconds,
                None => 3,
            };
        } else if spells(key, "unlock_hold_seconds") {
            self.unlock_hold_seconds = match read_u64(value) {
                Some(seconds) => seconds,
                None => 3,
            };
        } else if spells(key, "poll_interval") {
            self.poll_interval = match read_u64(value) {
                Some(seconds) => seconds,
                None => 1,
            };
        }
    }
}

/// What the reader of a configuration text holds between two lines.
pub struct ReaderState {
    /// The devices whose blocks are closed.
    pub devices: Seq<DeviceSpec>,
    /// The thresholds as the entries read so far leave them.
    pub thresholds: ThresholdsConfig,
    /// The timings as the entries read so far leave them.
    pub timings: TimingsConfig,
    /// The block that the next line stands in.
    pub section: Section,
    /// The device whose block was opened last and is not closed yet.
    pub device: Option<DeviceSpec>,
}

impl ReaderState {
    /// Before the first line: no devices, default thresholds and timings,
    /// outside every block.
    pub open spec fn initial() -> ReaderState {
        ReaderState {
            devices: Seq::empty(),
            thresholds: ThresholdsConfig::defaults(),
            timings: TimingsConfig::defaults(),
            section: Section::Other,
            device: None,
        }
    }

    /// After a line that opens the block `name`. A device block starts a
    /// blank device, and a device left open before it is lost.
    pub open spec fn opened(self, name: Seq<char>) -> ReaderState {
        let section = Section::named(name);
        ReaderState {
            section,
            device: if section is Device {
                Some(DeviceSpec::blank())
            } else {
                self.device
            },
            ..self
        }
    }

    /// After a line that closes a block. Closing a device block adds the
    /// open device to the devices.
    pub open spec fn closed(self) -> ReaderState {
        if self.section is Device {
            ReaderState {
                devices: match self.device {
                    Some(device) => self.devices.push(device),
                    None => self.devices,
                },
                section: Section::Other,
                device: None,
                ..self
            }
        } else {
            ReaderState { section: Section::Other, ..self }
        }
    }

    /// After the entry `key = value`, which goes to the block that the line
    /// stands in.
    pub open spec fn assigned(self, key: Seq<char>, value: Seq<char>) -> ReaderState {
        match self.section {
            Section::Device => ReaderState {
                device: match self.device {
                    Some(device) => Some(device.assigned(key, value)),
                    None => None,
                },
                ..self
            },
            Section::Thresholds => ReaderState {
                thresholds: self.thresholds.assigned(key, value),
                ..self
            },
            Section::Timings => ReaderState { timings: self.timings.assigned(key, value), ..self },
            Section::Other => self,
        }
    }

    /// After one line. White space around the line counts for nothing. An
    /// empty line and one that starts with `#` are passed over. A line that
    /// ends in `{` opens the block named before the braces; the line `}`
    /// closes a block; any other line with a `=` in it is an entry, its key
    /// before the first `=`, its value after it, both without white space
    /// around them and the value without double quotes around it. Any other
    /// line is passed over.
    pub open spec fn read_line(self, raw: Seq<char>) -> ReaderState {
        let line = trim(raw);
        let at = first_index(line, '=');
        if line.len() == 0 || line[0] == '#' {
            self
        } else if line.last() == '{' {
            self.opened(trim(strip_end(line, Some('{'))))
        } else if line == seq!['}'] {
            self.closed()
        } else if at < line.len() {
            self.assigned(trim(line.take(at as int)), trim_matches(trim(line.skip(at as int + 1)), '"'))
        } else {
            self
        }
    }

    /// After all the lines of `text`, which a line feed ends.
    pub open spec fn read_text(self, text: Seq<char>) -> ReaderState
        decreases text.len(),
    {
        let end = first_index(text, '\n');
        let next = self.read_line(text.take(end as int));
        if end < text.len() {
            next.read_text(text.skip(end as int + 1))
        } else {
            next
        }
    }

    /// The configuration read. A device block that was never closed is
    /// not part of it.
    pub open spec fn finished(self) -> ConfigSpec {
        ConfigSpec { devices: self.devices, thresholds: self.thresholds, timings: self.timings }
    }
}

/// The configuration that a text stands for.
pub open spec fn parse_config(text: Seq<char>) -> ConfigSpec {
    ReaderState::initial().read_text(text).finished()
}

impl DeviceConfig {
    fn blank() -> (device: DeviceConfig)
        ensures
            device@ == DeviceSpec::blank(),
    {
        DeviceConfig { mac_address: String::new(), name: String::new(), enabled: true }
    }

    /// The entry whose key is `chars[key.0..key.1]` and whose value is
    /// `chars[value.0..value.1]`.
    fn assign(
        &mut self,
        content: &str,
        chars: &[char],
        key: (usize, usize),
        value: (usize, usize),
    )
        requires
            content@ == chars@,
            key.0 <= key.1 <= chars.len(),
            value.0 <= value.1 <= chars.len(),
        ensures
            final(self)@ == old(self)@.assigned(
                chars@.subrange(key.0 as int, key.1 as int),
                chars@.subrange(value.0 as int, value.1 as int),
            ),
    {
        let name = slice_subrange(chars, key.0, key.1);
        if spells(name, "mac_address") {
            self.mac_address = content.substring_char(value.0, value.1).to_owned();
        } else if spells(name, "name") {
            self.name = content.substring_char(value.0, value.1).to_owned();
        } else if spells(name, "enabled") {
            self.enabled = match read_bool(slice_subrange(chars, value.0, value.1)) {
                Some(enabled) => enabled,
                None => true,
            };
        }
    }
}

/// The reader of a configuration text, between two lines.
struct Reader {
    devices: Vec<DeviceConfig>,
    thresholds: ThresholdsConfig,
    timings: TimingsConfig,
    section: Section,
    device: Option<DeviceConfig>,
}

impl View for Reader {
    type V = ReaderState;

    closed spec fn view(&self) -> ReaderState {
        ReaderState {
            devices: self.devices@.map_values(|d: DeviceConfig| d@),
            thresholds: self.thresholds,
            timings: self.timings,
            section: self.section,
            device: match self.device {
                Some(device) => Some(device@),
                None => None,
            },
        }
    }
}

impl Reader {
    fn new() -> (reader: Reader)
        ensures
            reader@ == ReaderState::initial(),
    {
        let reader = Reader {
            devices: Vec::new(),
            thresholds: ThresholdsConfig::new(),
            timings: TimingsConfig::new(),
            section: Section::Other,
            device: None,
        };
        assert(reader@.devices == Seq::<DeviceSpec>::empty());
        reader
    }

    fn open(&mut self, name: &[char])
        ensures
            final(self)@ == old(self)@.opened(name@),
    {
        self.section = Section::of_name(name);
        if let Section::Device = self.section {
            self.device = Some(DeviceConfig::blank());
        }
    }

    fn close(&mut self)
        ensures
            final(self)@ == old(self)@.closed(),
    {
        if let Section::Device = self.section {
            let ghost before = self.devices@;
            match self.device.take() {
                Some(device) => {
                    self.devices.push(device);
                    assert(self.devices@.map_values(|d: DeviceConfig| d@) == before.map_values(
                        |d: DeviceConfig| d@,
                    ).push(device@));
                },
                None => {},
            }
        }
        self.section = Section::Other;
    }

    fn assign(&mut self, content: &str, chars: &[char], key: (usize, usize), value: (usize, usize))
        requires
            content@ == chars@,
            key.0 <= key.1 <= chars.len(),
            value.0 <= value.1 <= chars.len(),
        ensures
            final(self)@ == old(self)@.assigned(
                chars@.subrange(key.0 as int, key.1 as int),
                chars@.subrange(value.0 as int, value.1 as int),
            ),
    {
        match self.section {
            Section::Device => {
                match self.device.take() {
                    Some(device) => {
                        let mut device = device;
                        device.assign(content, chars, key, value);
                        self.device = Some(device);
                    },
                    None => {},
                }
            },
            Section::Thresholds => {
                self.thresholds.assign(
                    slice_subrange(chars, key.0, key.1),
                    slice_subrange(chars, value.0, value.1),
                );
            },
            Section::Timings => {
                self.timings.assign(
                    slice_subrange(chars, key.0, key.1),
                    slice_subrange(chars, value.0, value.1),
                );
            },
            Section::Other => {},
        }
    }

    /// Reads the line `chars[lo..hi]`.
    fn read_line(&mut self, content: &str, chars: &[char], lo: usize, hi: usize)
        requires
            content@ == chars@,
            lo <= hi <= chars.len(),
        ensures
            final(self)@ == old(self)@.read_line(chars@.subrange(lo as int, hi as int)),
    {
        let (start, end) = strip_bounds_in(chars, lo, hi, None);
        let ghost line = chars@.subrange(start as int, end as int);
        assert(line == trim(chars@.subrange(lo as int, hi as int)));
        if start == end || chars[start] == '#' {
            return ;
        }
        if chars[end - 1] == '{' {
            let name_end = strip_end_in(chars, start, end, Some('{'));
            let (from, to) = strip_bounds_in(chars, start, name_end, None);
            self.open(slice_subrange(chars, from, to));
            return ;
        }
        if end - start == 1 && chars[start] == '}' {
            assert(line == seq!['}']);
            self.close();
            return ;
        }
        assert(line != seq!['}']) by {
            if line == seq!['}'] {
                assert(line.len() == 1 && line[0] == '}');
            }
        }
        let at = find_in(chars, start, end, '=');
        if at < end {
            proof {
                lemma_subrange_of_subrange(chars@, start as int, end as int, 0, at - start);
                lemma_subrange_of_subrange(
                    chars@,
                    start as int,
                    end as int,
                    at - start + 1,
                    end - start,
                );
                assert(line.take(at - start) == line.subrange(0, at - start));
                assert(line.skip(at - start + 1) == line.subrange(at - start + 1, end - start));
            }
            let key = strip_bounds_in(chars, start, at, None);
            let quoted = strip_bounds_in(chars, at + 1, end, None);
            let value = strip_bounds_in(chars, quoted.0, quoted.1, Some('"'));
            self.assign(content, chars, key, value);
        }
    }

    fn finish(self) -> (config: Config)
        ensures
            config@ == self@.finished(),
    {
        Config { devices: self.devices, thresholds: self.thresholds, timings: self.timings }
    }
}

impl Config {
    /// Reads a configuration from the text of a configuration file. Every
    /// text is one: what it does not say stays at its default, and what
    /// cannot be made sense of is passed over.
    pub fn load(content: &str) -> (config: Config)
        ensures
            config@ == parse_config(content@),
    {
        let chars = chars_of(content);
        let mut reader = Reader::new();
        let mut pos: usize = 0;
        let mut done = false;
        assert(chars@.skip(0) == chars@);
        while !done
            invariant
                content@ == chars@,
                pos <= chars.len(),
                !done ==> ReaderState::initial().read_text(chars@) == reader@.read_text(
                    chars@.skip(pos as int),
                ),
                done ==> ReaderState::initial().read_text(chars@) == reader@,
            decreases chars.len() - pos + (if done { 0int } else { 1int }),
        {
            let end = find_in(chars.as_slice(), pos, chars.len(), '\n');
            proof {
                let rest = chars@.skip(pos as int);
                assert(rest == chars@.subrange(pos as int, chars.len() as int));
                assert(rest.take(end - pos) == chars@.subrange(pos as int, end as int));
                if end < chars.len() {
                    assert(rest.skip(end - pos + 1) == chars@.skip(end + 1));
                }
            }
            reader.read_line(content, chars.as_slice(), pos, end);
            if end < chars.len() {
                pos = end + 1;
            } else {
                done = true;
            }
        }
        reader.finish()
    }
}

} // verus!
