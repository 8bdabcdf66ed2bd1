//! Run-at-startup registration files: the XDG autostart entry written on
//! Linux and the script that creates the Windows shortcut.
use crate::text::push_char;
use vstd::prelude::*;
use vstd::string::*;

verus! {

/// The name the shortcut and the autostart entry are given.
pub const APP_NAME: &'static str = "NextTabletDriver";

/// The file name of the autostart entry.
pub fn desktop_file_name() -> (s: String)
    ensures
        s@ == APP_NAME@ + ".desktop"@,
{
    let mut s = String::from_str(APP_NAME);
    s.append(".desktop");
    s
}

/// The file name of the startup shortcut.
pub fn shortcut_file_name() -> (s: String)
    ensures
        s@ == APP_NAME@ + ".lnk"@,
{
    let mut s = String::from_str(APP_NAME);
    s.append(".lnk");
    s
}

/// The XDG autostart entry that launches `exe_path` at login.
pub open spec fn desktop_entry_text(exe_path: Seq<char>) -> Seq<char> {
    "[Desktop Entry]\nType=Application\nName="@ + APP_NAME@
        + "\nComment=Tablet Driver for Osu! and Drawing\nExec="@ + exe_path
        + "\nTerminal=false\nX-GNOME-Autostart-enabled=true\nStartupNotify=false\n"@
}

pub fn desktop_entry(exe_path: &str) -> (s: String)
    ensures
        s@ == desktop_entry_text(exe_path@),
{
    let mut s = String::from_str("[Desktop Entry]\nType=Application\nName=");
    s.append(APP_NAME);
    s.append("\nComment=Tablet Driver for Osu! and Drawing\nExec=");
    s.append(exe_path);
    s.append("\nTerminal=false\nX-GNOME-Autostart-enabled=true\nStartupNotify=false\n");
    s
}

/// `text` with every backslash doubled, as a VBScript string literal needs.
pub open spec fn backslashes_doubled(text: Seq<char>) -> Seq<char>
    decreases text.len(),
{
    if text.len() == 0 {
        Seq::empty()
    } else if text.last() == '\\' {
        backslashes_doubled(text.drop_last()) + seq!['\\', '\\']
    } else {
        backslashes_doubled(text.drop_last()).push(text.last())
    }
}

/// Doubling works piece by piece: the doubled text of `a` then `b` is the
/// doubled `a` then the doubled `b`.
pub proof fn lemma_doubling_pieces(a: Seq<char>, b: Seq<char>)
    ensures
        backslashes_doubled(a + b) == backslashes_doubled(a) + backslashes_doubled(b),
    decreases b.len(),
{
    if b.len() == 0 {
        assert(a + b =~= a);
        assert(backslashes_doubled(a) + backslashes_doubled(b) =~= backslashes_doubled(a));
    } else {
        lemma_doubling_pieces(a, b.drop_last());
        assert((a + b).drop_last() =~= a + b.drop_last());
        assert((a + b).last() == b.last());
        if b.last() == '\\' {
            assert(backslashes_doubled(a) + backslashes_doubled(b) =~= backslashes_doubled(a)
                + backslashes_doubled(b.drop_last()) + seq!['\\', '\\']);
        } else {
            assert(backslashes_doubled(a) + backslashes_doubled(b) =~= (backslashes_doubled(a)
                + backslashes_doubled(b.drop_last())).push(b.last()));
        }
    }
}

/// A backslash becomes two; every other character stays as it is, so a
/// text without backslashes is unchanged.
pub proof fn lemma_doubling_characters(c: char, text: Seq<char>)
    ensures
        backslashes_doubled(seq![c]) == (if c == '\\' {
            seq!['\\', '\\']
        } else {
            seq![c]
        }),
        !text.contains('\\') ==> backslashes_doubled(text) == text,
    decreases text.len(),
{
    assert(seq![c].drop_last() =~= Seq::<char>::empty());
    assert(seq![c].last() == c);
    assert(backslashes_doubled(seq![c].drop_last()) == Seq::<char>::empty());
    assert(Seq::<char>::empty() + seq!['\\', '\\'] =~= seq!['\\', '\\']);
    assert(Seq::<char>::empty().push(c) =~= seq![c]);
    if text.len() > 0 && !text.contains('\\') {
        assert(!text.drop_last().contains('\\')) by {
            if text.drop_last().contains('\\') {
                let i = choose|i: int|
                    0 <= i < text.drop_last().len() && text.drop_last()[i] == '\\';
                assert(text[i] == '\\');
            }
        }
        lemma_doubling_characters(c, text.drop_last());
        assert(text.last() != '\\') by {
            assert(text[text.len() - 1] == text.last());
        }
        assert(text.drop_last().push(text.last()) =~= text);
    } else if text.len() == 0 {
        assert(text =~= Seq::<char>::empty());
    }
}

pub fn double_backslashes(text: &str) -> (s: String)
    ensures
        s@ == backslashes_doubled(text@),
{
    let n = text.unicode_len();
    let mut s = String::new();
    let mut i: usize = 0;
    while i < n
        invariant
            n == text@.len(),
            i <= n,
            s@ == backslashes_doubled(text@.take(i as int)),
        decreases n - i,
    {
        let c = text.get_char(i);
        let ghost prefix = text@.take(i + 1);
        assert(prefix.drop_last() =~= text@.take(i as int));
        push_char(&mut s, c);
        if c == '\\' {
            push_char(&mut s, '\\');
            assert(s@ =~= backslashes_doubled(prefix));
        }
        i = i + 1;
    }
    assert(text@.take(n as int) =~= text@);
    s
}

/// The VBScript that creates the startup shortcut `shortcut` to `exe`,
/// started in `working_dir`; each path has its backslashes doubled.
pub open spec fn shortcut_script_text(shortcut: Seq<char>, exe: Seq<char>, working_dir: Seq<char>) -> Seq<char> {
    "Set oWS = WScript.CreateObject(\"WScript.Shell\")\n            Set oLink = oWS.CreateShortcut(\""@
        + backslashes_doubled(shortcut) + "\")\n            oLink.TargetPath = \""@
        + backslashes_doubled(exe) + "\"\n            oLink.WorkingDirectory = \""@
        + backslashes_doubled(working_dir) + "\"\n            oLink.Save"@
}

pub fn shortcut_script(shortcut: &str, exe: &str, working_dir: &str) -> (s: String)
    ensures
        s@ == shortcut_script_text(shortcut@, exe@, working_dir@),
{
    let mut s = String::from_str(
        "Set oWS = WScript.CreateObject(\"WScript.Shell\")\n            Set oLink = oWS.CreateShortcut(\"",
    );
    s.append(double_backslashes(shortcut).as_str());
    s.append("\")\n            oLink.TargetPath = \"");
    s.append(double_backslashes(exe).as_str());
    s.append("\"\n            oLink.WorkingDirectory = \"");
    s.append(double_backslashes(working_dir).as_str());
    s.append("\"\n            oLink.Save");
    s
}

} // verus!
