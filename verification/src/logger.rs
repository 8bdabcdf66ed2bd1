//! The in-application log: which targets it shows, the bounded buffer of
//! entries it keeps, and how an entry is written as a line.
use crate::text::{chars_of, chars_equal, starts_with_chars, text_starts_with};
use vstd::prelude::*;
use vstd::string::*;

verus! {

/// One logged event.
#[derive(Debug, Clone)]
pub struct LogEntry {
    /// Local time of day, `HH:MM:SS`.
    pub time: String,
    pub level: String,
    /// The target the event was logged under.
    pub group: String,
    pub message: String,
}

impl LogEntry {
    /// A copy of this entry.
    pub fn duplicate(&self) -> (r: LogEntry)
        ensures
            r == *self,
    {
        LogEntry {
            time: self.time.clone(),
            level: self.level.clone(),
            group: self.group.clone(),
            message: self.message.clone(),
        }
    }
}

/// The most entries the buffer keeps.
pub const MAX_LOG_ENTRIES: usize = 500;

/// The targets whose events the console shows.
pub open spec fn allowed_targets() -> Seq<Seq<char>> {
    seq![
        "App"@,
        "UI"@,
        "HID"@,
        "TabletManager"@,
        "Pipeline"@,
        "Config"@,
        "Startup"@,
        "Update"@,
        "Stats"@,
        "Tray"@,
        "Timer"@,
        "WebSocket"@,
        "Telemetry"@,
        "Driver"@,
        "Detect"@,
    ]
}

/// A target is shown when it is one of the allowed targets or a sub-target
/// of one (`Name::...`), or when it belongs to the driver's own crate.
pub open spec fn target_allowed(target: Seq<char>) -> bool {
    (exists|i: int|
        0 <= i < allowed_targets().len() && (target == #[trigger] allowed_targets()[i]
            || text_starts_with(target, allowed_targets()[i] + "::"@))) || text_starts_with(
        target,
        "NextTabletDriver"@,
    )
}

fn allowed_target_list() -> (v: Vec<&'static str>)
    ensures
        v@.len() == allowed_targets().len(),
        forall|i: int| 0 <= i < v@.len() ==> (#[trigger] v@[i])@ == allowed_targets()[i],
{
    let v: Vec<&'static str> = vec![
        "App",
        "UI",
        "HID",
        "TabletManager",
        "Pipeline",
        "Config",
        "Startup",
        "Update",
        "Stats",
        "Tray",
        "Timer",
        "WebSocket",
        "Telemetry",
        "Driver",
        "Detect",
    ];
    v
}

/// Whether events logged under `target` reach the console.
pub fn is_allowed_target(target: &str) -> (r: bool)
    ensures
        r == target_allowed(target@),
{
    let text = chars_of(target);
    let list = allowed_target_list();
    let mut i: usize = 0;
    while i < list.len()
        invariant
            i <= list@.len(),
            text@ == target@,
            list@.len() == allowed_targets().len(),
            forall|j: int| 0 <= j < list@.len() ==> (#[trigger] list@[j])@ == allowed_targets()[j],
            forall|j: int|
                0 <= j < i ==> !(target@ == #[trigger] allowed_targets()[j] || text_starts_with(
                    target@,
                    allowed_targets()[j] + "::"@,
                )),
        decreases list@.len() - i,
    {
        let name = chars_of(list[i]);
        if chars_equal(&text, &name) {
            assert(target@ == allowed_targets()[i as int]);
            return true;
        }
        let mut prefix = String::from_str(list[i]);
        prefix.append("::");
        let prefix_chars = chars_of(prefix.as_str());
        if starts_with_chars(&text, &prefix_chars) {
            assert(text_starts_with(target@, allowed_targets()[i as int] + "::"@));
            return true;
        }
        i = i + 1;
    }
    let own = chars_of("NextTabletDriver");
    starts_with_chars(&text, &own)
}

/// The buffer after `entry` is appended to `entries`: when that makes more
/// than `MAX_LOG_ENTRIES`, the oldest entry is dropped.
pub open spec fn appended(entries: Seq<LogEntry>, entry: LogEntry) -> Seq<LogEntry> {
    let grown = entries.push(entry);
    if grown.len() > MAX_LOG_ENTRIES {
        grown.skip(1)
    } else {
        grown
    }
}

/// Appends `entry`, evicting the oldest entry when the buffer is full.
pub fn push_log_entry(entries: &mut Vec<LogEntry>, entry: LogEntry)
    ensures
        final(entries)@ == appended(old(entries)@, entry),
{
    entries.push(entry);
    if entries.len() > MAX_LOG_ENTRIES {
        entries.remove(0);
        assert(final(entries)@ =~= appended(old(entries)@, entry));
    }
}

/// A buffer of at most `MAX_LOG_ENTRIES` entries stays so after an append;
/// the appended entry is then the newest, and the buffer holds the newest
/// entries of the previous buffer followed by it, in order.
pub proof fn lemma_log_buffer_keeps_newest(entries: Seq<LogEntry>, entry: LogEntry)
    requires
        entries.len() <= MAX_LOG_ENTRIES,
    ensures
        appended(entries, entry).len() <= MAX_LOG_ENTRIES,
        appended(entries, entry).last() == entry,
        appended(entries, entry) == entries.push(entry).skip(
            entries.len() + 1 - appended(entries, entry).len(),
        ),
{
    let grown = entries.push(entry);
    if grown.len() <= MAX_LOG_ENTRIES {
        assert(grown.skip(0) =~= grown);
    }
}

/// The console's record of events: the shown ones, newest last, at most
/// `MAX_LOG_ENTRIES` of them.
pub struct GlobalLogger {
    pub entries: Vec<LogEntry>,
}

impl GlobalLogger {
    pub fn new() -> (l: GlobalLogger)
        ensures
            l.entries@.len() == 0,
    {
        GlobalLogger { entries: Vec::new() }
    }

    /// Records `entry` when its target is shown; other entries are dropped.
    pub fn log(&mut self, entry: LogEntry)
        ensures
            final(self).entries@ == (if target_allowed(entry.group@) {
                appended(old(self).entries@, entry)
            } else {
                old(self).entries@
            }),
    {
        if is_allowed_target(entry.group.as_str()) {
            push_log_entry(&mut self.entries, entry);
        }
    }
}

/// An entry written as one line: `[time] level [group] message`.
pub open spec fn log_line(e: LogEntry) -> Seq<char> {
    "["@ + e.time@ + "] "@ + e.level@ + " ["@ + e.group@ + "] "@ + e.message@
}

pub fn format_log_line(e: &LogEntry) -> (s: String)
    ensures
        s@ == log_line(*e),
{
    let mut s = String::from_str("[");
    s.append(e.time.as_str());
    s.append("] ");
    s.append(e.level.as_str());
    s.append(" [");
    s.append(e.group.as_str());
    s.append("] ");
    s.append(e.message.as_str());
    s
}

} // verus!
