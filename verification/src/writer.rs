//! The file-write conflict state machine: when the target file already
//! exists, a menu line from the operator decides whether the file is
//! overwritten, the run is aborted, a different filename is asked for, the
//! menu is shown again, or the run dies on unparseable input. The effect of
//! each decision on the file system is stated over a map from file names to
//! contents.

use vstd::prelude::*;
use crate::parse::i32_parse_val;
use crate::parse::i32_parses;
use crate::parse::parse_i32;
use crate::text::trim_line;
use crate::text::trim_spec;

verus! {

/// The name of the default target file.
pub open spec fn target_name() -> Seq<char> {
    "app.toml"@
}

/// What a menu line makes the writer do next.
#[derive(Clone, Copy, PartialEq, Eq, Structural, Debug)]
pub enum MenuChoice {
    /// Option 1: truncate and rewrite the existing target file.
    Overwrite,
    /// Option 2: stop without writing anything.
    Abort,
    /// Option 3: ask for a different filename and write there.
    NewName,
    /// Any other integer: show the menu again.
    Retry,
    /// Not an integer: the run terminates with a diagnostic.
    Fatal,
}

/// The decision a trimmed-then-parsed menu line leads to: options 1, 2 and 3
/// select an action, any other integer re-prompts, and a line that does not
/// parse as an integer is fatal.
pub open spec fn menu_choice_spec(line: Seq<char>) -> MenuChoice {
    let t = trim_spec(line);
    if !i32_parses(t) {
        MenuChoice::Fatal
    } else if i32_parse_val(t) == 1 {
        MenuChoice::Overwrite
    } else if i32_parse_val(t) == 2 {
        MenuChoice::Abort
    } else if i32_parse_val(t) == 3 {
        MenuChoice::NewName
    } else {
        MenuChoice::Retry
    }
}

/// Reads one raw menu line and returns the decision it selects.
pub fn menu_choice(line: &str) -> (r: MenuChoice)
    ensures
        r == menu_choice_spec(line@),
{
    let t = trim_line(line);
    match parse_i32(t.as_str()) {
        None => MenuChoice::Fatal,
        Some(1) => MenuChoice::Overwrite,
        Some(2) => MenuChoice::Abort,
        Some(3) => MenuChoice::NewName,
        Some(_) => MenuChoice::Retry,
    }
}

/// The file system after opening `name` for exclusive creation and writing
/// `text`: the file appears with exactly that content when no file of that
/// name existed; when one did, the open fails, the run dies, and nothing
/// changes.
pub open spec fn fs_after_create_new(
    fs: Map<Seq<char>, Seq<char>>,
    name: Seq<char>,
    text: Seq<char>,
) -> Map<Seq<char>, Seq<char>> {
    if fs.contains_key(name) {
        fs
    } else {
        fs.insert(name, text)
    }
}

/// The file system after opening `name` with truncation and writing `text`.
pub open spec fn fs_after_overwrite(
    fs: Map<Seq<char>, Seq<char>>,
    name: Seq<char>,
    text: Seq<char>,
) -> Map<Seq<char>, Seq<char>> {
    fs.insert(name, text)
}

/// The file system after the menu decision is carried out: option 1 rewrites
/// the target file, option 3 creates `newname`, and every other decision
/// writes nothing.
pub open spec fn fs_after_choice(
    fs: Map<Seq<char>, Seq<char>>,
    c: MenuChoice,
    newname: Seq<char>,
    text: Seq<char>,
) -> Map<Seq<char>, Seq<char>> {
    match c {
        MenuChoice::Overwrite => fs_after_overwrite(fs, target_name(), text),
        MenuChoice::NewName => fs_after_create_new(fs, newname, text),
        _ => fs,
    }
}

/// Law: when no target file exists, the direct write creates it with exactly
/// the rendered text and touches no other file.
pub proof fn law_fresh_write(fs: Map<Seq<char>, Seq<char>>, text: Seq<char>)
    requires
        !fs.contains_key(target_name()),
    ensures
        fs_after_create_new(fs, target_name(), text) == fs.insert(target_name(), text),
        fs_after_create_new(fs, target_name(), text)[target_name()] == text,
        forall|k: Seq<char>|
            k != target_name() && fs.contains_key(k) ==> fs_after_create_new(
                fs,
                target_name(),
                text,
            )[k] == fs[k],
        forall|k: Seq<char>|
            k != target_name() ==> (fs_after_create_new(fs, target_name(), text).contains_key(k)
                <==> fs.contains_key(k)),
{
}

/// Law: when the target file exists and the operator selects option 1, its
/// contents are replaced entirely with the rendered text, and no other file
/// changes.
pub proof fn law_overwrite_replaces(
    fs: Map<Seq<char>, Seq<char>>,
    line: Seq<char>,
    newname: Seq<char>,
    text: Seq<char>,
)
    requires
        fs.contains_key(target_name()),
        menu_choice_spec(line) == MenuChoice::Overwrite,
    ensures
        fs_after_choice(fs, menu_choice_spec(line), newname, text)[target_name()] == text,
        fs_after_choice(fs, menu_choice_spec(line), newname, text).dom() == fs.dom(),
        forall|k: Seq<char>|
            k != target_name() && fs.contains_key(k) ==> fs_after_choice(
                fs,
                menu_choice_spec(line),
                newname,
                text,
            )[k] == fs[k],
{
    assert(fs_after_choice(fs, menu_choice_spec(line), newname, text).dom() =~= fs.dom());
}

/// Law: when the operator selects option 2, every file is left byte for byte
/// as it was and no file is created.
pub proof fn law_abort_unchanged(
    fs: Map<Seq<char>, Seq<char>>,
    line: Seq<char>,
    newname: Seq<char>,
    text: Seq<char>,
)
    requires
        menu_choice_spec(line) == MenuChoice::Abort,
    ensures
        fs_after_choice(fs, menu_choice_spec(line), newname, text) == fs,
{
}

/// Law: when the target file exists and the operator selects option 3 with a
/// fresh filename, that file is created with exactly the rendered text and
/// the target file is left unchanged.
pub proof fn law_new_filename(
    fs: Map<Seq<char>, Seq<char>>,
    line: Seq<char>,
    newname: Seq<char>,
    text: Seq<char>,
)
    requires
        fs.contains_key(target_name()),
        !fs.contains_key(newname),
        menu_choice_spec(line) == MenuChoice::NewName,
    ensures
        fs_after_choice(fs, menu_choice_spec(line), newname, text)[newname] == text,
        fs_after_choice(fs, menu_choice_spec(line), newname, text)[target_name()]
            == fs[target_name()],
        fs_after_choice(fs, menu_choice_spec(line), newname, text).dom() == fs.dom().insert(
            newname,
        ),
{
    assert(newname != target_name());
    assert(fs_after_choice(fs, menu_choice_spec(line), newname, text).dom() =~= fs.dom().insert(
        newname,
    ));
}

/// Law: a decision other than options 1 and 3 writes nothing: the file system
/// is exactly what it was.
pub proof fn law_no_write_without_selection(
    fs: Map<Seq<char>, Seq<char>>,
    c: MenuChoice,
    newname: Seq<char>,
    text: Seq<char>,
)
    requires
        c != MenuChoice::Overwrite,
        c != MenuChoice::NewName,
    ensures
        fs_after_choice(fs, c, newname, text) == fs,
{
}

} // verus!
