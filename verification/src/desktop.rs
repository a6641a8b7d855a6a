//! The desktop shell's own settings, what toggling does to its windows,
//! and which command a pressed shortcut triggers.

use vstd::prelude::*;
use crate::sorting::{lemma_sorting_forgets_the_order, sort_texts, sorted_texts};
use crate::text::{
    join,
    joined,
    lowercase,
    pieces,
    replace_all,
    replaced,
    split_on,
    str_equal,
    texts,
    to_lower,
};

verus! {

/// Whether the application is registered to launch at login.
#[derive(Debug, Clone, Copy)]
pub struct AutoStartConfig {
    pub enabled: bool,
}

impl Default for AutoStartConfig {
    fn default() -> (config: Self)
        ensures
            !config.enabled,
    {
        AutoStartConfig { enabled: false }
    }
}

/// The shell's settings for its own shortcut and tray.
#[derive(Debug)]
pub struct HotkeyConfig {
    /// The shortcut that opens the quick note.
    pub quick_note: String,
    /// Whether shortcuts are registered at all.
    pub enabled: bool,
    /// Whether the tray icon is shown.
    pub system_tray_enabled: bool,
    /// What a shortcut does to its window.
    pub window_behavior: String,
}

impl Default for HotkeyConfig {
    fn default() -> (config: Self)
        ensures
            config.quick_note@ == "Shift+Space"@,
            config.enabled,
            config.system_tray_enabled,
            config.window_behavior@ == "show"@,
    {
        HotkeyConfig {
            quick_note: "Shift+Space".to_string(),
            enabled: true,
            system_tray_enabled: true,
            window_behavior: "show".to_string(),
        }
    }
}

/// What is done to a window when its shortcut or command asks for it.
#[derive(Debug, Clone, Copy, PartialEq, Eq, Structural)]
pub enum WindowAction {
    /// The window is hidden.
    Hide,
    /// The window is brought to the front.
    Focus,
    /// The window is shown and brought to the front.
    ShowAndFocus,
}

/// What toggling does to a window, given whether it is visible; `None`
/// stands for a window that does not say.
pub open spec fn toggled(visible: Option<bool>) -> WindowAction {
    if visible == Some(true) {
        WindowAction::Hide
    } else {
        WindowAction::ShowAndFocus
    }
}

/// What toggling does to the main window: a visible window is hidden only
/// if it has the focus, and is brought to the front if it has not.
pub open spec fn editor_toggled(visible: Option<bool>, focused: bool) -> WindowAction {
    if visible == Some(true) {
        if focused {
            WindowAction::Hide
        } else {
            WindowAction::Focus
        }
    } else {
        WindowAction::ShowAndFocus
    }
}

/// Decides what toggling does to a quick window.
pub fn toggle_action(visible: Option<bool>) -> (action: WindowAction)
    ensures
        action == toggled(visible),
{
    match visible {
        Some(true) => WindowAction::Hide,
        _ => WindowAction::ShowAndFocus,
    }
}

/// Decides what toggling does to the main window. Whenever the window is
/// not hidden by it, the quick note is triggered in it.
pub fn editor_toggle_action(visible: Option<bool>, focused: bool) -> (action: WindowAction)
    ensures
        action == editor_toggled(visible, focused),
{
    match visible {
        Some(true) => if focused {
            WindowAction::Hide
        } else {
            WindowAction::Focus
        },
        _ => WindowAction::ShowAndFocus,
    }
}

/// What a registered shortcut does.
#[derive(Debug, Clone, Copy, PartialEq, Eq, Structural)]
pub enum ShellCommand {
    /// Shows or hides the quick note window.
    QuickNote,
    /// Shows or hides the quick AI window.
    QuickAi,
}

/// The command that a name stands for, if it stands for one.
pub open spec fn command_named(name: Seq<char>) -> Option<ShellCommand> {
    if name == "quicknote"@ {
        Some(ShellCommand::QuickNote)
    } else if name == "quickai"@ {
        Some(ShellCommand::QuickAi)
    } else {
        None
    }
}

/// A shortcut in lower case with the names that mean the control key
/// brought to "control" and the word "key" taken out of key names.
pub open spec fn plain_shortcut(lower: Seq<char>) -> Seq<char> {
    replaced(
        replaced(
            replaced(replaced(lower, "commandorcontrol"@, "control"@), "key"@, Seq::empty()),
            "cmd+"@,
            "control+"@,
        ),
        "command+"@,
        "control+"@,
    )
}

/// A shortcut put together again from its parts: the modifiers in sorted
/// order, then the key. A shortcut of one part stays as it is.
pub open spec fn reordered(plain: Seq<char>, parts: Seq<Seq<char>>) -> Seq<char> {
    if parts.len() > 1 {
        joined(sorted_texts(parts.drop_last()), "+"@) + "+"@ + parts.last()
    } else {
        plain
    }
}

/// Two shortcuts with the same key and the same modifiers are put
/// together alike, in whatever order their modifiers are written.
pub proof fn lemma_modifier_order_is_ignored(
    plain_a: Seq<char>,
    parts_a: Seq<Seq<char>>,
    plain_b: Seq<char>,
    parts_b: Seq<Seq<char>>,
)
    requires
        parts_a.len() > 1,
        parts_b.len() > 1,
        parts_a.last() == parts_b.last(),
        parts_a.drop_last().to_multiset() == parts_b.drop_last().to_multiset(),
    ensures
        reordered(plain_a, parts_a) == reordered(plain_b, parts_b),
{
    lemma_sorting_forgets_the_order(parts_a.drop_last(), parts_b.drop_last());
}

/// The normal form of a shortcut in lower case: plain, and with the
/// modifiers in sorted order.
pub open spec fn normal_form(lower: Seq<char>) -> Seq<char> {
    reordered(plain_shortcut(lower), pieces(plain_shortcut(lower), '+'))
}

/// The form in which two shortcuts are compared: the normal form of their
/// lower case.
pub open spec fn normalized_shortcut(shortcut: Seq<char>) -> Seq<char> {
    normal_form(lowercase(shortcut))
}

/// The command of the first entry of `registered`, from `from` on, whose
/// shortcut has the normal form of `pressed` and whose command is known.
pub open spec fn first_match(
    pressed: Seq<char>,
    registered: Seq<(Seq<char>, Seq<char>)>,
    from: int,
) -> Option<ShellCommand>
    decreases registered.len() - from,
{
    if from < 0 || from >= registered.len() {
        None
    } else if normalized_shortcut(pressed) == normalized_shortcut(registered[from].0)
        && command_named(registered[from].1) is Some {
        command_named(registered[from].1)
    } else {
        first_match(pressed, registered, from + 1)
    }
}

/// The known command of the first entry of `registered`, from `from` on,
/// whose shortcut is `pressed` letter for letter.
pub open spec fn direct_match(
    pressed: Seq<char>,
    registered: Seq<(Seq<char>, Seq<char>)>,
    from: int,
) -> Option<ShellCommand>
    decreases registered.len() - from,
{
    if from < 0 || from >= registered.len() {
        None
    } else if registered[from].0 == pressed {
        command_named(registered[from].1)
    } else {
        direct_match(pressed, registered, from + 1)
    }
}

/// The command that a pressed shortcut triggers: that of the entry
/// registered under exactly this shortcut, where its command is known;
/// else that of the first entry that matches in normal form.
pub open spec fn triggered_command(pressed: Seq<char>, registered: Seq<(Seq<char>, Seq<char>)>) -> Option<
    ShellCommand,
> {
    match direct_match(pressed, registered, 0) {
        Some(command) => Some(command),
        None => first_match(pressed, registered, 0),
    }
}

/// The shortcuts and commands of a registry as plain values.
pub open spec fn entries(registered: Seq<(String, String)>) -> Seq<(Seq<char>, Seq<char>)> {
    registered.map_values(|entry: (String, String)| (entry.0@, entry.1@))
}

/// Looks a command up by its name.
pub fn command_for_name(name: &str) -> (command: Option<ShellCommand>)
    ensures
        command == command_named(name@),
{
    if str_equal(name, "quicknote") {
        Some(ShellCommand::QuickNote)
    } else if str_equal(name, "quickai") {
        Some(ShellCommand::QuickAi)
    } else {
        None
    }
}

/// Puts a shortcut together again from the parts that it was split into:
/// the modifiers in sorted order, then the key. A shortcut of one part
/// stays as it is.
pub fn reorder_modifiers(plain: String, parts: &Vec<String>) -> (shortcut: String)
    ensures
        shortcut@ == reordered(plain@, texts(parts@)),
{
    if parts.len() > 1 {
        let last: usize = parts.len() - 1;
        let mut modifiers: Vec<String> = Vec::new();
        let mut i: usize = 0;
        while i < last
            invariant
                last == parts@.len() - 1,
                i <= last,
                texts(modifiers@) == texts(parts@).subrange(0, i as int),
            decreases last - i,
        {
            let ghost before = modifiers@;
            let part = parts[i].clone();
            modifiers.push(part);
            assert(modifiers@ == before.push(part));
            assert(texts(modifiers@) =~= texts(before).push(parts@[i as int]@));
            i += 1;
            assert(texts(modifiers@) =~= texts(parts@).subrange(0, i as int));
        }
        assert(texts(parts@).subrange(0, last as int) =~= texts(parts@).drop_last());
        let ordered = sort_texts(&modifiers);
        let mut shortcut = join(&ordered, "+");
        shortcut.append("+");
        shortcut.append(parts[last].as_str());
        shortcut
    } else {
        plain
    }
}

/// Brings a shortcut in lower case to its normal form.
pub fn normalize_lowercase(lower: &str) -> (normal: String)
    ensures
        normal@ == normal_form(lower@),
{
    let step1 = replace_all(lower, "commandorcontrol", "control");
    let step2 = replace_all(step1.as_str(), "key", "");
    let step3 = replace_all(step2.as_str(), "cmd+", "control+");
    let plain = replace_all(step3.as_str(), "command+", "control+");
    proof {
        reveal_strlit("");
        assert(""@ =~= Seq::<char>::empty());
    }
    let parts = split_on(plain.as_str(), '+');
    reorder_modifiers(plain, &parts)
}

/// Brings a shortcut to the form in which shortcuts are compared.
pub fn normalize_shortcut(shortcut: &str) -> (normal: String)
    ensures
        normal@ == normalized_shortcut(shortcut@),
{
    let lower = to_lower(shortcut);
    normalize_lowercase(lower.as_str())
}

/// Whether two shortcuts are the same in normal form: whatever their
/// letter case, the name of their control key and the order of their
/// modifiers.
pub fn shortcuts_match(actual: &str, registered: &str) -> (same: bool)
    ensures
        same == (normalized_shortcut(actual@) == normalized_shortcut(registered@)),
{
    let normalized_actual = normalize_shortcut(actual);
    let normalized_registered = normalize_shortcut(registered);
    normalized_actual == normalized_registered
}

/// Finds the command that a pressed shortcut triggers among the
/// registered shortcuts, each given with the name of its command, in the
/// order in which the registry is walked.
pub fn resolve_shortcut(pressed: &str, registered: &Vec<(String, String)>) -> (command: Option<
    ShellCommand,
>)
    ensures
        command == triggered_command(pressed@, entries(registered@)),
{
    let mut i: usize = 0;
    let mut found_direct = false;
    while i < registered.len() && !found_direct
        invariant
            i <= registered@.len(),
            found_direct ==> i < registered@.len() && registered@[i as int].0@ == pressed@,
            direct_match(pressed@, entries(registered@), 0) == direct_match(
                pressed@,
                entries(registered@),
                i as int,
            ),
        decreases registered@.len() - i + (if found_direct { 0int } else { 1int }),
    {
        if str_equal(registered[i].0.as_str(), pressed) {
            found_direct = true;
        } else {
            i += 1;
        }
    }
    if found_direct {
        let found = command_for_name(registered[i].1.as_str());
        if found.is_some() {
            return found;
        }
    }
    let mut j: usize = 0;
    while j < registered.len()
        invariant
            j <= registered@.len(),
            direct_match(pressed@, entries(registered@), 0) is None,
            first_match(pressed@, entries(registered@), 0) == first_match(
                pressed@,
                entries(registered@),
                j as int,
            ),
        decreases registered@.len() - j,
    {
        if shortcuts_match(pressed, registered[j].0.as_str()) {
            let found = command_for_name(registered[j].1.as_str());
            if found.is_some() {
                return found;
            }
        }
        j += 1;
    }
    None
}

} // verus!
