//! State of the application window that is not floating point: the open
//! tab and the toast notifications.
use vstd::prelude::*;
use vstd::string::*;

verus! {

/// The panel shown in the main window.
#[derive(Debug, Clone, Copy, PartialEq, Eq, Structural)]
pub enum AppTab {
    /// Mapping of the tablet area to the screen.
    Output,
    /// Anti-chatter and smoothing filters.
    Filters,
    /// Pen button bindings and pressure settings.
    PenSettings,
    /// Live tablet events and the log.
    Console,
    /// Startup, updater and other application settings.
    Settings,
    /// The changelog and the update dialog.
    Release,
    /// Diagnostics of the pipeline (shown in debug builds).
    Developer,
}

/// How serious a notification is.
#[derive(Debug, Clone, Copy, PartialEq, Eq, Structural)]
pub enum ToastLevel {
    Info,
    Warning,
    Error,
}

#[verifier::external_type_specification]
#[verifier::external_body]
pub struct ExInstant(std::time::Instant);

/// Calls `std::time::Instant::now`. Nothing is claimed of the instant.
#[verifier::external_body]
fn now() -> (t: std::time::Instant) {
    std::time::Instant::now()
}

/// A notification shown for a while over the window.
pub struct Toast {
    pub message: String,
    pub level: ToastLevel,
    pub created_at: std::time::Instant,
}

/// The name shown for the active profile: its name when it is saved to a
/// file, "Unsaved Session" otherwise, marked with a leading `*` when the
/// configuration differs from the one last saved.
pub open spec fn profile_display_text(name: Seq<char>, has_path: bool, dirty: bool) -> Seq<char> {
    let base = if has_path {
        name
    } else {
        "Unsaved Session"@
    };
    if dirty {
        "*"@ + base
    } else {
        base
    }
}

pub fn profile_display_name(name: &str, has_path: bool, dirty: bool) -> (s: String)
    ensures
        s@ == profile_display_text(name@, has_path, dirty),
{
    let base = if has_path {
        name
    } else {
        "Unsaved Session"
    };
    if dirty {
        let mut s = String::from_str("*");
        s.append(base);
        s
    } else {
        String::from_str(base)
    }
}

/// The most notifications shown at once.
pub const MAX_TOASTS: usize = 3;

/// The messages of a list of notifications.
pub open spec fn toast_messages(toasts: Seq<Toast>) -> Seq<Seq<char>> {
    Seq::new(toasts.len(), |i: int| toasts[i].message@)
}

pub open spec fn shows_message(toasts: Seq<Toast>, message: Seq<char>) -> bool {
    exists|i: int| 0 <= i < toasts.len() && (#[trigger] toasts[i]).message@ == message
}

/// The notifications kept before a new one is added: all of them, or all
/// but the oldest when `MAX_TOASTS` are shown.
pub open spec fn kept_before_push(toasts: Seq<Toast>) -> Seq<Toast> {
    if toasts.len() >= MAX_TOASTS {
        toasts.skip(1)
    } else {
        toasts
    }
}

/// `after` is `before` once `message` was pushed at `level`: unchanged when
/// the message is already shown; otherwise the kept notifications followed
/// by the new one.
pub open spec fn toast_pushed(
    before: Seq<Toast>,
    after: Seq<Toast>,
    message: Seq<char>,
    level: ToastLevel,
) -> bool {
    if shows_message(before, message) {
        after == before
    } else {
        let kept = kept_before_push(before);
        &&& after.len() == kept.len() + 1
        &&& after.take(kept.len() as int) == kept
        &&& after.last().message@ == message
        &&& after.last().level == level
    }
}

/// No message is shown twice.
pub open spec fn distinct_messages(toasts: Seq<Toast>) -> bool {
    forall|i: int, j: int|
        0 <= i < j < toasts.len() ==> (#[trigger] toasts[i]).message@ != (#[trigger] toasts[j]).message@
}

/// Shows `message` unless it is already shown; when `MAX_TOASTS` are shown,
/// the oldest gives way.
pub fn push_toast(toasts: &mut Vec<Toast>, message: String, level: ToastLevel)
    ensures
        toast_pushed(old(toasts)@, final(toasts)@, message@, level),
{
    let mut i: usize = 0;
    while i < toasts.len()
        invariant
            i <= toasts@.len(),
            forall|j: int| 0 <= j < i ==> (#[trigger] toasts@[j]).message@ != message@,
        decreases toasts@.len() - i,
    {
        if toasts[i].message == message {
            return;
        }
        i = i + 1;
    }
    let ghost before = toasts@;
    if toasts.len() >= MAX_TOASTS {
        toasts.remove(0);
    }
    let ghost kept = toasts@;
    assert(kept =~= kept_before_push(before));
    toasts.push(Toast { message, level, created_at: now() });
    assert(toasts@.take(kept.len() as int) =~= kept);
}

/// Pushing keeps at most `MAX_TOASTS` notifications, each message at most
/// once, and the pushed message is shown afterwards.
pub proof fn lemma_push_toast_keeps_queue_small_and_distinct(
    before: Seq<Toast>,
    after: Seq<Toast>,
    message: Seq<char>,
    level: ToastLevel,
)
    requires
        toast_pushed(before, after, message, level),
        before.len() <= MAX_TOASTS,
        distinct_messages(before),
    ensures
        after.len() <= MAX_TOASTS,
        distinct_messages(after),
        shows_message(after, message),
{
    if !shows_message(before, message) {
        let kept = kept_before_push(before);
        assert forall|i: int, j: int| 0 <= i < j < after.len() implies (#[trigger] after[i]).message@
            != (#[trigger] after[j]).message@ by {
            if j == after.len() - 1 {
                assert(after[i] == kept[i]);
                if before.len() >= MAX_TOASTS {
                    assert(kept[i] == before[i + 1]);
                }
            } else {
                assert(after[i] == kept[i]);
                assert(after[j] == kept[j]);
                if before.len() >= MAX_TOASTS {
                    assert(kept[i] == before[i + 1]);
                    assert(kept[j] == before[j + 1]);
                }
            }
        }
        assert(after[after.len() - 1].message@ == message);
    }
}

} // verus!
