//! Watching the configuration file.

use vstd::prelude::*;

use crate::text::{decode_utf16_lossy, spells};

verus! {

/// The first of the awaited objects is signaled.
pub const WAIT_OBJECT_0: u32 = 0;

/// The second of the awaited objects is signaled.
pub const WAIT_OBJECT_1: u32 = 1;

pub const WAIT_TIMEOUT: u32 = 258;

/// What the watcher is doing.
#[derive(Debug, Clone, Copy, PartialEq, Eq, Structural)]
pub enum WatcherPhase {
    /// Asking the system to report changes.
    Arming,
    /// Waiting for a change or for the stop signal.
    Waiting,
    /// Taking over the reported changes.
    Completing,
    /// Waiting out a burst of changes, or for the stop signal.
    Debouncing,
    /// Withdrawing the request for reports.
    Canceling,
    Stopped,
}

impl WatcherPhase {
    /// Whether the system may still write into the watcher's buffer.
    pub open spec fn read_pending(self) -> bool {
        self == WatcherPhase::Waiting || self == WatcherPhase::Canceling
    }

    pub open spec fn after_arming(succeeded: bool) -> Self {
        if succeeded {
            WatcherPhase::Waiting
        } else {
            WatcherPhase::Stopped
        }
    }

    pub open spec fn after_wait(wait_result: u32) -> Self {
        if wait_result == WAIT_OBJECT_0 {
            WatcherPhase::Completing
        } else {
            WatcherPhase::Canceling
        }
    }

    pub open spec fn after_completion(succeeded: bool) -> Self {
        if succeeded {
            WatcherPhase::Debouncing
        } else {
            WatcherPhase::Stopped
        }
    }

    pub open spec fn after_debounce(wait_result: u32) -> Self {
        if wait_result == WAIT_TIMEOUT {
            WatcherPhase::Arming
        } else {
            WatcherPhase::Stopped
        }
    }
}

#[derive(Debug, Clone, Copy, PartialEq, Eq, Structural)]
pub enum WatcherError {
    NoParent,
    NoFileName,
    NotUnicode,
}

#[derive(Debug)]
pub struct ConfigWatcher {
    pub config_name: String,
    pub debounce_ms: u32,
    pub phase: WatcherPhase,
}

pub open spec fn u32_at(bytes: Seq<u8>, at: int) -> int {
    bytes[at] + bytes[at + 1] * 0x100 + bytes[at + 2] * 0x10000 + bytes[at + 3] * 0x1000000
}

pub open spec fn u16_at(bytes: Seq<u8>, at: int) -> u16 {
    (bytes[at] + bytes[at + 1] * 0x100) as u16
}

/// Where the file name of an entry starts: behind the distance to the next entry, the kind of
/// change and the length of the name.
pub const NAME_OFFSET: usize = 12;

/// The UTF-16 units of the file name in the entry at `at`.
pub open spec fn entry_name(bytes: Seq<u8>, at: int) -> Seq<u16> {
    Seq::new(
        (u32_at(bytes, at + 8) / 2) as nat,
        |i: int| u16_at(bytes, at + NAME_OFFSET + 2 * i),
    )
}

/// Whether the entry at `at` lies within the buffer.
pub open spec fn entry_fits(bytes: Seq<u8>, at: int) -> bool {
    &&& at + NAME_OFFSET <= bytes.len()
    &&& at + NAME_OFFSET + 2 * (u32_at(bytes, at + 8) / 2) <= bytes.len()
}

/// Whether one of the entries from `at` on names the file. Each entry says how far the next one is,
/// and zero marks the last.
pub open spec fn names_file(bytes: Seq<u8>, end: int, at: int, name: Seq<char>) -> bool
    decreases end - at,
{
    if at >= end || at < 0 || !entry_fits(bytes, at) {
        false
    } else if crate::text::code_points(entry_name(bytes, at)) == crate::text::scalar_values(name) {
        true
    } else if u32_at(bytes, at) <= 0 || at + u32_at(bytes, at) >= end {
        false
    } else {
        names_file(bytes, end, at + u32_at(bytes, at), name)
    }
}

fn read_u32(bytes: &[u8], at: usize) -> (value: u32)
    requires
        at + 4 <= bytes@.len(),
    ensures
        value == u32_at(bytes@, at as int),
{
    bytes[at] as u32 + bytes[at + 1] as u32 * 0x100 + bytes[at + 2] as u32 * 0x10000 + bytes[at
        + 3] as u32 * 0x1000000
}

fn read_name(bytes: &[u8], at: usize, count: usize) -> (units: Vec<u16>)
    requires
        at + 2 * count <= bytes@.len() <= usize::MAX,
    ensures
        units@ == Seq::new(count as nat, |i: int| u16_at(bytes@, at + 2 * i)),
{
    let mut units: Vec<u16> = Vec::new();
    for i in 0..count
        invariant
            at + 2 * count <= bytes@.len() <= usize::MAX,
            units@ == Seq::new(i as nat, |j: int| u16_at(bytes@, at + 2 * j)),
    {
        let low: u16 = bytes[at + 2 * i] as u16;
        let high: u16 = bytes[at + 2 * i + 1] as u16;
        units.push(low + high * 0x100);
        assert(units@ =~= Seq::new((i + 1) as nat, |j: int| u16_at(bytes@, at + 2 * j)));
    }
    units
}

/// How long a burst of changes is waited out: as long as asked for, as far as the system can wait.
pub open spec fn debounce_for(debounce_time: u64) -> u32 {
    if debounce_time > u32::MAX {
        u32::MAX
    } else {
        debounce_time as u32
    }
}

impl ConfigWatcher {
    /// A watcher for a file. `file_name` is the last part of its path: absent, no Unicode, or text.
    pub fn new(has_parent: bool, file_name: Option<Option<String>>, debounce_time: u64) -> (watcher:
        Result<Self, WatcherError>)
        ensures
            match watcher {
                Ok(watcher) => {
                    &&& has_parent
                    &&& file_name == Some(Some(watcher.config_name))
                    &&& watcher.debounce_ms == debounce_for(debounce_time)
                    &&& watcher.debounce_ms == (if debounce_time > u32::MAX {
                        u32::MAX as u64
                    } else {
                        debounce_time
                    })
                    &&& watcher.phase == WatcherPhase::Arming
                },
                Err(WatcherError::NoParent) => !has_parent,
                Err(WatcherError::NoFileName) => has_parent && file_name is None,
                Err(WatcherError::NotUnicode) => has_parent && file_name == Some(None::<String>),
            },
    {
        if !has_parent {
            return Err(WatcherError::NoParent);
        }
        match file_name {
            None => Err(WatcherError::NoFileName),
            Some(None) => Err(WatcherError::NotUnicode),
            Some(Some(config_name)) => {
                let debounce_ms: u32 = if debounce_time > u32::MAX as u64 {
                    u32::MAX
                } else {
                    debounce_time as u32
                };
                Ok(ConfigWatcher { config_name, debounce_ms, phase: WatcherPhase::Arming })
            },
        }
    }

    /// The system has taken the request for reports, or refused it.
    pub fn armed(&mut self, succeeded: bool)
        requires
            old(self).phase == WatcherPhase::Arming,
        ensures
            final(self).phase == WatcherPhase::after_arming(succeeded),
            *final(self) == (ConfigWatcher {
                phase: if succeeded {
                    WatcherPhase::Waiting
                } else {
                    WatcherPhase::Stopped
                },
                ..*old(self)
            }),
    {
        self.phase = if succeeded {
            WatcherPhase::Waiting
        } else {
            WatcherPhase::Stopped
        };
    }

    /// The wait for a change (first object) or the stop signal (second object) has ended.
    pub fn waited(&mut self, wait_result: u32)
        requires
            old(self).phase == WatcherPhase::Waiting,
        ensures
            *final(self) == (ConfigWatcher {
                phase: WatcherPhase::after_wait(wait_result),
                ..*old(self)
            }),
    {
        self.phase = if wait_result == WAIT_OBJECT_1 {
            WatcherPhase::Canceling
        } else if wait_result != WAIT_OBJECT_0 {
            WatcherPhase::Canceling
        } else {
            WatcherPhase::Completing
        };
    }

    /// The request for reports has been withdrawn and nothing more will be written.
    pub fn canceled(&mut self)
        requires
            old(self).phase == WatcherPhase::Canceling,
        ensures
            *final(self) == (ConfigWatcher { phase: WatcherPhase::Stopped, ..*old(self) }),
    {
        self.phase = WatcherPhase::Stopped;
    }

    /// The reported changes have been taken over, or could not be. `received` says how many bytes
    /// of the buffer they take up, where they were taken over. Says whether the watched file is to be
    /// read again.
    pub fn completed(&mut self, buffer: &[u8], received: Option<u32>) -> (notify: bool)
        requires
            old(self).phase == WatcherPhase::Completing,
        ensures
            *final(self) == (ConfigWatcher {
                phase: WatcherPhase::after_completion(received is Some),
                ..*old(self)
            }),
            notify == (match received {
                Some(count) => names_file(buffer@, count as int, 0, old(self).config_name@),
                None => false,
            }),
    {
        match received {
            Some(count) => {
                let notify = Self::process_dir_change_notifs(
                    buffer,
                    count,
                    self.config_name.as_str(),
                );
                self.phase = WatcherPhase::Debouncing;
                notify
            },
            None => {
                self.phase = WatcherPhase::Stopped;
                false
            },
        }
    }

    /// The wait for the stop signal has ended. Running into its timeout is the usual case.
    pub fn debounced(&mut self, wait_result: u32)
        requires
            old(self).phase == WatcherPhase::Debouncing,
        ensures
            *final(self) == (ConfigWatcher {
                phase: WatcherPhase::after_debounce(wait_result),
                ..*old(self)
            }),
    {
        self.phase = if wait_result == WAIT_OBJECT_0 {
            WatcherPhase::Stopped
        } else if wait_result != WAIT_TIMEOUT {
            WatcherPhase::Stopped
        } else {
            WatcherPhase::Arming
        };
    }

    /// Whether the reported changes concern the watched file. Where they do, it is to be read again
    /// once, however often they name it. Reports that run out of the buffer end there.
    pub fn process_dir_change_notifs(buffer: &[u8], bytes_returned: u32, config_name: &str) -> (
        notify: bool)
        ensures
            notify == names_file(buffer@, bytes_returned as int, 0, config_name@),
    {
        let end: usize = bytes_returned as usize;
        let len: usize = buffer.len();
        let mut offset: usize = 0;
        while offset < end
            invariant
                end == bytes_returned,
                len == buffer@.len(),
                names_file(buffer@, end as int, 0, config_name@) == names_file(
                    buffer@,
                    end as int,
                    offset as int,
                    config_name@,
                ),
            decreases end - offset,
        {
            if offset > len || len - offset < NAME_OFFSET {
                return false;
            }
            let next: usize = read_u32(buffer, offset) as usize;
            let count: usize = read_u32(buffer, offset + 8) as usize / 2;
            if count > (len - offset - NAME_OFFSET) / 2 {
                return false;
            }
            let name = read_name(buffer, offset + NAME_OFFSET, count);
            proof {
                assert(name@ =~= entry_name(buffer@, offset as int));
            }
            let points = decode_utf16_lossy(&name);
            if spells(&points, config_name) {
                return true;
            }
            if next == 0 {
                return false;
            }
            if next >= end - offset {
                return false;
            }
            offset += next;
        }
        false
    }
}

/// The watcher never stops while the system may still write into its buffer: the wait leads to a
/// completed read or to the withdrawal of the request, and no later phase has a pending read.
pub proof fn law_pending_read_is_withdrawn_before_stop(wait_result: u32, succeeded: bool)
    ensures
        WatcherPhase::after_wait(wait_result) != WatcherPhase::Stopped,
        WatcherPhase::after_wait(wait_result).read_pending() <==> WatcherPhase::after_wait(
            wait_result,
        ) == WatcherPhase::Canceling,
        !WatcherPhase::after_completion(succeeded).read_pending(),
        !WatcherPhase::after_debounce(wait_result).read_pending(),
{
}

/// The stop signal ends the watcher from either wait.
pub proof fn law_stop_signal_ends_watcher()
    ensures
        WatcherPhase::after_wait(WAIT_OBJECT_1) == WatcherPhase::Canceling,
        WatcherPhase::after_debounce(WAIT_OBJECT_0) == WatcherPhase::Stopped,
{
}

/// The watcher goes on to take over changes exactly where one was reported, goes on to wait out a
/// burst exactly where they were taken over, and starts anew exactly where nothing told it to stop
/// meanwhile.
pub proof fn law_watcher_goes_round_until_stopped(wait_result: u32, succeeded: bool)
    ensures
        WatcherPhase::after_wait(wait_result) == WatcherPhase::Completing <==> wait_result == 0,
        WatcherPhase::after_wait(wait_result) == WatcherPhase::Canceling <==> wait_result != 0,
        WatcherPhase::after_completion(succeeded) == WatcherPhase::Debouncing <==> succeeded,
        WatcherPhase::after_completion(succeeded) == WatcherPhase::Stopped <==> !succeeded,
        WatcherPhase::after_debounce(wait_result) == WatcherPhase::Arming <==> wait_result == 0x102,
        WatcherPhase::after_debounce(wait_result) == WatcherPhase::Stopped <==> wait_result
            != 0x102,
{
}

/// A number as four bytes, the lowest first.
pub open spec fn four_bytes(value: int) -> Seq<u8> {
    seq![
        (value % 0x100) as u8,
        (value / 0x100 % 0x100) as u8,
        (value / 0x10000 % 0x100) as u8,
        (value / 0x1000000 % 0x100) as u8,
    ]
}

/// UTF-16 units as bytes, the lower one of each first.
pub open spec fn unit_bytes(units: Seq<u16>) -> Seq<u8> {
    Seq::new(
        2 * units.len(),
        |i: int|
            if i % 2 == 0 {
                (units[i / 2] % 0x100) as u8
            } else {
                (units[i / 2] / 0x100) as u8
            },
    )
}

/// The report of one change: how far the next one is, the kind of change, and the name of the file
/// with its length before it.
#[verifier::opaque]
pub open spec fn report(next: int, kind: int, name: Seq<u16>) -> Seq<u8> {
    four_bytes(next) + four_bytes(kind) + four_bytes(2 * name.len() as int) + unit_bytes(name)
}

proof fn lemma_four_bytes(before: Seq<u8>, value: int, after: Seq<u8>)
    requires
        0 <= value < 0x1_0000_0000,
    ensures
        u32_at(before + four_bytes(value) + after, before.len() as int) == value,
{
    let bytes = before + four_bytes(value) + after;
    let at = before.len() as int;
    assert(bytes[at] == four_bytes(value)[0]);
    assert(bytes[at + 1] == four_bytes(value)[1]);
    assert(bytes[at + 2] == four_bytes(value)[2]);
    assert(bytes[at + 3] == four_bytes(value)[3]);
}

proof fn lemma_report(next: int, kind: int, name: Seq<u16>, after: Seq<u8>)
    requires
        0 <= next < 0x1_0000_0000,
        2 * name.len() < 0x1_0000_0000,
    ensures
        ({
            let bytes = report(next, kind, name) + after;
            &&& entry_fits(bytes, 0)
            &&& u32_at(bytes, 0) == next
            &&& entry_name(bytes, 0) == name
            &&& report(next, kind, name).len() == 12 + 2 * name.len()
        }),
{
    reveal(report);
    let bytes = report(next, kind, name) + after;
    let head = four_bytes(next) + four_bytes(kind);
    assert(bytes =~= Seq::<u8>::empty() + four_bytes(next) + (four_bytes(kind) + four_bytes(
        2 * name.len() as int,
    ) + unit_bytes(name) + after));
    lemma_four_bytes(
        Seq::empty(),
        next,
        four_bytes(kind) + four_bytes(2 * name.len() as int) + unit_bytes(name) + after,
    );
    assert(bytes =~= head + four_bytes(2 * name.len() as int) + (unit_bytes(name) + after));
    lemma_four_bytes(head, 2 * name.len() as int, unit_bytes(name) + after);
    assert(u32_at(bytes, 8) == 2 * name.len());
    assert forall|i: int| 0 <= i < name.len() implies u16_at(bytes, NAME_OFFSET + 2 * i)
        == #[trigger] name[i] by {
        assert(bytes[NAME_OFFSET + 2 * i] == unit_bytes(name)[2 * i]);
        assert(bytes[NAME_OFFSET + 2 * i + 1] == unit_bytes(name)[2 * i + 1]);
        assert((2 * i) % 2 == 0 && (2 * i) / 2 == i);
        assert((2 * i + 1) % 2 == 1 && (2 * i + 1) / 2 == i);
        let unit = name[i] as int;
        assert(unit % 0x100 + unit / 0x100 * 0x100 == unit);
    }
    assert(entry_name(bytes, 0) =~= name);
}

proof fn lemma_names_file_behind(before: Seq<u8>, bytes: Seq<u8>, end: int, at: int, name: Seq<char>)
    requires
        0 <= at,
    ensures
        names_file(before + bytes, before.len() + end, before.len() + at, name) == names_file(
            bytes,
            end,
            at,
            name,
        ),
    decreases end - at,
{
    let all = before + bytes;
    let start = before.len() as int;
    if at < end && at + NAME_OFFSET <= bytes.len() {
        assert(u32_at(all, start + at) == u32_at(bytes, at));
        assert(u32_at(all, start + at + 8) == u32_at(bytes, at + 8));
        if entry_fits(bytes, at) {
            assert(entry_name(all, start + at) =~= entry_name(bytes, at)) by {
                assert forall|i: int| 0 <= i < entry_name(bytes, at).len() implies #[trigger] entry_name(
                    all,
                    start + at,
                )[i] == entry_name(bytes, at)[i] by {
                    assert(all[start + at + NAME_OFFSET + 2 * i] == bytes[at + NAME_OFFSET + 2 * i]);
                    assert(all[start + at + NAME_OFFSET + 2 * i + 1] == bytes[at + NAME_OFFSET + 2
                        * i + 1]);
                }
            }
            if u32_at(bytes, at) > 0 && at + u32_at(bytes, at) < end {
                lemma_names_file_behind(before, bytes, end, at + u32_at(bytes, at), name);
            }
        }
    }
}

/// A single report concerns the watched file exactly if it names it. Of several reports in a row one
/// that names it suffices, wherever it stands.
pub proof fn law_every_report_is_looked_at(
    kind: int,
    units: Seq<u16>,
    others: Seq<u8>,
    name: Seq<char>,
)
    requires
        2 * units.len() + 12 < 0x1_0000_0000,
    ensures
        ({
            let named = crate::text::code_points(units) == crate::text::scalar_values(name);
            let last = report(0, kind, units);
            let first = report(12 + 2 * units.len() as int, kind, units);
            &&& names_file(last, last.len() as int, 0, name) <==> named
            &&& names_file(last + others, (last + others).len() as int, 0, name) <==> named
            &&& names_file(first + others, (first + others).len() as int, 0, name) <==> named
                || names_file(others, others.len() as int, 0, name)
        }),
{
    let last = report(0, kind, units);
    let first = report(12 + 2 * units.len() as int, kind, units);
    lemma_report(0, kind, units, Seq::empty());
    assert(last + Seq::<u8>::empty() =~= last);
    lemma_names_file_from(last, last.len() as int, 0, units, name);
    lemma_report(0, kind, units, others);
    lemma_names_file_from(last + others, (last + others).len() as int, 0, units, name);
    lemma_report(12 + 2 * units.len() as int, kind, units, others);
    lemma_names_file_from(
        first + others,
        (first + others).len() as int,
        first.len() as int,
        units,
        name,
    );
    lemma_names_file_behind(first, others, others.len() as int, 0, name);
}

proof fn lemma_names_file_from(
    bytes: Seq<u8>,
    end: int,
    next: int,
    units: Seq<u16>,
    name: Seq<char>,
)
    requires
        0 < end,
        entry_fits(bytes, 0),
        u32_at(bytes, 0) == next,
        entry_name(bytes, 0) == units,
    ensures
        names_file(bytes, end, 0, name) <==> crate::text::code_points(units)
            == crate::text::scalar_values(name) || (0 < next < end && names_file(
            bytes,
            end,
            next,
            name,
        )),
{
}

/// A report that runs out of the buffer, with its head or with its name, names no file; nor does one
/// that lies behind the end.
pub proof fn law_cut_reports_name_nothing(bytes: Seq<u8>, end: int, name: Seq<char>)
    ensures
        bytes.len() < 12 ==> !names_file(bytes, end, 0, name),
        end <= 0 ==> !names_file(bytes, end, 0, name),
        bytes.len() >= 12 && 12 + 2 * ((bytes[8] + bytes[9] * 0x100 + bytes[10] * 0x10000
            + bytes[11] * 0x1000000) / 2) > bytes.len() ==> !names_file(bytes, end, 0, name),
{
}

/// A report of a file name that is written in UTF-16 concerns the watched file exactly if the two
/// names are the same, character by character.
pub proof fn law_file_names_are_told_apart(kind: int, reported: Seq<char>, watched: Seq<char>)
    requires
        reported.len() < 0x1000_0000,
    ensures
        ({
            let points = Seq::new(reported.len(), |i: int| reported[i] as u32);
            let bytes = report(0, kind, crate::text::utf16_units(points));
            names_file(bytes, bytes.len() as int, 0, watched) <==> reported == watched
        }),
{
    let points = Seq::new(reported.len(), |i: int| reported[i] as u32);
    let units = crate::text::utf16_units(points);
    assert forall|i: int| 0 <= i < points.len() implies #[trigger] points[i] < 0xd800 || 0xe000
        <= points[i] < 0x110000 by {
        lemma_characters(reported[i], reported[i]);
    }
    crate::text::law_utf16_reads_back(points);
    lemma_units_are_few(points);
    law_every_report_is_looked_at(kind, units, Seq::empty(), watched);
    let values = crate::text::scalar_values(watched);
    if points == values {
        assert(reported.len() == watched.len());
        assert forall|i: int| 0 <= i < reported.len() implies reported[i] == watched[i] by {
            assert(points[i] == values[i]);
            lemma_characters(reported[i], watched[i]);
        }
        assert(reported =~= watched);
    } else if reported == watched {
        assert(points =~= values);
    }
}

proof fn lemma_characters(one: char, other: char)
    ensures
        (one as u32) < 0xd800 || 0xe000 <= (one as u32) < 0x110000,
        (one as u32) == (other as u32) ==> one == other,
{
}

proof fn lemma_units_are_few(points: Seq<u32>)
    ensures
        crate::text::utf16_units(points).len() <= 2 * points.len(),
    decreases points.len(),
{
    if points.len() > 0 {
        lemma_units_are_few(points.drop_first());
    }
}

} // verus!
