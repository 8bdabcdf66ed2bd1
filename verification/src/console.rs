//! The console panel's view of the log: which entries a filter shows, in
//! what order, and the whole log as text.
use crate::logger::{format_log_line, log_line, LogEntry};
use crate::text::{chars_equal, chars_of, contains_chars, lowercase, text_contains, to_lowercase};
use vstd::prelude::*;
use vstd::string::*;

verus! {

/// What the console shows: the levels switched on, and a search text.
pub struct ConsoleFilter {
    pub search: String,
    pub show_info: bool,
    pub show_warn: bool,
    pub show_error: bool,
    pub show_debug: bool,
}

impl Default for ConsoleFilter {
    /// Every level shown, no search.
    fn default() -> (f: Self)
        ensures
            f.search@.len() == 0,
            f.show_info && f.show_warn && f.show_error && f.show_debug,
    {
        ConsoleFilter {
            search: String::new(),
            show_info: true,
            show_warn: true,
            show_error: true,
            show_debug: true,
        }
    }
}

/// Whether the level switches let an entry of `level` through; levels other
/// than the four named ones always pass.
pub open spec fn level_shown(f: ConsoleFilter, level: Seq<char>) -> bool {
    if level == "Info"@ {
        f.show_info
    } else if level == "Warn"@ {
        f.show_warn
    } else if level == "Error"@ {
        f.show_error
    } else if level == "Debug"@ {
        f.show_debug
    } else {
        true
    }
}

/// An entry is shown when its level passes and, for a non-empty search,
/// the lower-cased search occurs in its lower-cased message or group.
pub open spec fn entry_shown(f: ConsoleFilter, e: LogEntry) -> bool {
    let needle = lowercase(f.search@);
    level_shown(f, e.level@) && (needle.len() == 0 || text_contains(lowercase(e.message@), needle)
        || text_contains(lowercase(e.group@), needle))
}

/// The shown entries, newest first.
pub open spec fn shown_newest_first(f: ConsoleFilter, entries: Seq<LogEntry>) -> Seq<LogEntry>
    decreases entries.len(),
{
    if entries.len() == 0 {
        Seq::empty()
    } else {
        let rest = shown_newest_first(f, entries.drop_last());
        if entry_shown(f, entries.last()) {
            seq![entries.last()] + rest
        } else {
            rest
        }
    }
}

/// The lines of the log joined by newlines.
pub open spec fn log_text(entries: Seq<LogEntry>) -> Seq<char>
    decreases entries.len(),
{
    if entries.len() == 0 {
        Seq::empty()
    } else if entries.len() == 1 {
        log_line(entries[0])
    } else {
        log_text(entries.drop_last()) + "\n"@ + log_line(entries.last())
    }
}

/// The console lists only entries the filter shows, never more than the
/// log holds; and where the filter shows every entry, it lists the whole
/// log newest first.
pub proof fn lemma_console_lists_shown_newest_first(f: ConsoleFilter, entries: Seq<LogEntry>)
    ensures
        forall|k: int|
            0 <= k < shown_newest_first(f, entries).len() ==> entry_shown(
                f,
                #[trigger] shown_newest_first(f, entries)[k],
            ),
        shown_newest_first(f, entries).len() <= entries.len(),
        (forall|i: int| 0 <= i < entries.len() ==> entry_shown(f, #[trigger] entries[i])) ==> {
            &&& shown_newest_first(f, entries).len() == entries.len()
            &&& forall|k: int|
                0 <= k < entries.len() ==> #[trigger] shown_newest_first(f, entries)[k]
                    == entries[entries.len() - 1 - k]
        },
    decreases entries.len(),
{
    if entries.len() > 0 {
        let rest = entries.drop_last();
        lemma_console_lists_shown_newest_first(f, rest);
        if forall|i: int| 0 <= i < entries.len() ==> entry_shown(f, #[trigger] entries[i]) {
            assert forall|i: int| 0 <= i < rest.len() implies entry_shown(f, #[trigger] rest[i]) by {
                assert(rest[i] == entries[i]);
            }
            assert(entry_shown(f, entries[entries.len() - 1]));
        }
    }
}

/// Each of the four level switches hides the entries of its level; an
/// entry whose level passes is shown when the search is empty.
pub proof fn lemma_level_switches(f: ConsoleFilter, e: LogEntry)
    ensures
        e.level@ == "Info"@ && !f.show_info ==> !entry_shown(f, e),
        e.level@ == "Warn"@ && !f.show_warn ==> !entry_shown(f, e),
        e.level@ == "Error"@ && !f.show_error ==> !entry_shown(f, e),
        e.level@ == "Debug"@ && !f.show_debug ==> !entry_shown(f, e),
        e.level@ == "Info"@ && f.show_info && lowercase(f.search@).len() == 0 ==> entry_shown(f, e),
        e.level@ == "Warn"@ && f.show_warn && lowercase(f.search@).len() == 0 ==> entry_shown(f, e),
        e.level@ == "Error"@ && f.show_error && lowercase(f.search@).len() == 0 ==> entry_shown(
            f,
            e,
        ),
        e.level@ == "Debug"@ && f.show_debug && lowercase(f.search@).len() == 0 ==> entry_shown(
            f,
            e,
        ),
{
    reveal_strlit("Info");
    reveal_strlit("Warn");
    reveal_strlit("Error");
    reveal_strlit("Debug");
    assert("Info"@ != "Warn"@) by {
        assert("Info"@[0] != "Warn"@[0]);
    }
    assert("Error"@ != "Debug"@) by {
        assert("Error"@[0] != "Debug"@[0]);
    }
    assert("Info"@.len() != "Error"@.len());
    assert("Warn"@.len() != "Debug"@.len());
}

fn level_passes(f: &ConsoleFilter, level: &String) -> (r: bool)
    ensures
        r == level_shown(*f, level@),
{
    let text = chars_of(level.as_str());
    if chars_equal(&text, &chars_of("Info")) {
        f.show_info
    } else if chars_equal(&text, &chars_of("Warn")) {
        f.show_warn
    } else if chars_equal(&text, &chars_of("Error")) {
        f.show_error
    } else if chars_equal(&text, &chars_of("Debug")) {
        f.show_debug
    } else {
        true
    }
}

fn is_shown(f: &ConsoleFilter, needle: &Vec<char>, e: &LogEntry) -> (r: bool)
    requires
        needle@ == lowercase(f.search@),
    ensures
        r == entry_shown(*f, *e),
{
    if !level_passes(f, &e.level) {
        return false;
    }
    if needle.len() == 0 {
        return true;
    }
    let message = to_lowercase(e.message.as_str());
    if contains_chars(&chars_of(message.as_str()), needle) {
        return true;
    }
    let group = to_lowercase(e.group.as_str());
    contains_chars(&chars_of(group.as_str()), needle)
}

/// The console's view of `entries`: how many there are, the shown ones
/// newest first, and the whole log as text, one line per entry.
pub fn filter_logs(entries: &Vec<LogEntry>, f: &ConsoleFilter) -> (r: (usize, Vec<LogEntry>, String))
    ensures
        r.0 == entries@.len(),
        r.1@ == shown_newest_first(*f, entries@),
        r.2@ == log_text(entries@),
{
    let search = to_lowercase(f.search.as_str());
    let needle = chars_of(search.as_str());
    let mut shown: Vec<LogEntry> = Vec::new();
    let mut text = String::new();
    let mut i: usize = 0;
    while i < entries.len()
        invariant
            i <= entries@.len(),
            needle@ == lowercase(f.search@),
            shown@ == shown_newest_first(*f, entries@.take(i as int)),
            text@ == log_text(entries@.take(i as int)),
        decreases entries@.len() - i,
    {
        let e = &entries[i];
        let ghost prefix = entries@.take(i + 1);
        assert(prefix.drop_last() =~= entries@.take(i as int));
        assert(prefix.last() == *e);
        if is_shown(f, &needle, e) {
            let ghost before = shown@;
            shown.insert(0, e.duplicate());
            assert(shown@ =~= seq![*e] + before);
        }
        let line = format_log_line(e);
        if i > 0 {
            text.append("\n");
        }
        text.append(line.as_str());
        proof {
            if i == 0 {
                assert(text@ =~= log_line(prefix[0]));
            }
        }
        i = i + 1;
    }
    assert(entries@.take(entries@.len() as int) =~= entries@);
    (entries.len(), shown, text)
}

} // verus!
