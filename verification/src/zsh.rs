use std::marker::PhantomData;
use std::rc::Rc;
use vstd::prelude::*;
use vstd::string::*;
use vstd::utf8::encode_utf8;

use crate::text::{
    all_printable_ascii, debug_text, is_plain_byte, is_printable_ascii, lemma_debug_text_printable,
    lemma_plain_text_verbatim, push_debug_text,
};

verus! {

/// The shell hooks whose functions live in a `*_functions` array.
pub enum ShellHook {
    ChPwd,
    PreCmd,
    PreExec,
    Periodic,
    ZshAddHistory,
    ZshExit,
    ZshDirectoryName,
}

impl ShellHook {
    /// The name of the array that lists the functions of the hook.
    pub open spec fn spec_array_name(&self) -> Seq<char> {
        match self {
            ShellHook::ChPwd => "chpwd_functions"@,
            ShellHook::PreCmd => "precmd_functions"@,
            ShellHook::PreExec => "preexec_functions"@,
            ShellHook::Periodic => "periodic_functions"@,
            ShellHook::ZshAddHistory => "zshaddhistory_functions"@,
            ShellHook::ZshExit => "zshexit_functions"@,
            ShellHook::ZshDirectoryName => "zsh_directory_name_functions"@,
        }
    }

    /// The name of the array to which `Zsh::add_hook` appends a function.
    pub fn array_name(&self) -> (name: &'static str)
        ensures
            name@ == self.spec_array_name(),
    {
        match self {
            ShellHook::ChPwd => "chpwd_functions",
            ShellHook::PreCmd => "precmd_functions",
            ShellHook::PreExec => "preexec_functions",
            ShellHook::Periodic => "periodic_functions",
            ShellHook::ZshAddHistory => "zshaddhistory_functions",
            ShellHook::ZshExit => "zshexit_functions",
            ShellHook::ZshDirectoryName => "zsh_directory_name_functions",
        }
    }
}

/// The special zle widgets that `add-zle-hook-widget` can hook.
pub enum ZleWidgetHook {
    ISearchExit,
    ISearchUpdate,
    LinePreRedraw,
    LineInit,
    LineFinish,
    HistoryLineSet,
    KeymapSelect,
}

impl ZleWidgetHook {
    /// The name of the hook as `add-zle-hook-widget` knows it.
    pub open spec fn spec_hook_name(&self) -> Seq<char> {
        match self {
            ZleWidgetHook::ISearchExit => "isearch-exit"@,
            ZleWidgetHook::ISearchUpdate => "isearch-update"@,
            ZleWidgetHook::LinePreRedraw => "line-pre-redraw"@,
            ZleWidgetHook::LineInit => "line-init"@,
            ZleWidgetHook::LineFinish => "line-finish"@,
            ZleWidgetHook::HistoryLineSet => "history-line-set"@,
            ZleWidgetHook::KeymapSelect => "keymap-select"@,
        }
    }

    /// The name of the hook as `add-zle-hook-widget` knows it.
    pub fn hook_name(&self) -> (name: &'static str)
        ensures
            name@ == self.spec_hook_name(),
    {
        match self {
            ZleWidgetHook::ISearchExit => "isearch-exit",
            ZleWidgetHook::ISearchUpdate => "isearch-update",
            ZleWidgetHook::LinePreRedraw => "line-pre-redraw",
            ZleWidgetHook::LineInit => "line-init",
            ZleWidgetHook::LineFinish => "line-finish",
            ZleWidgetHook::HistoryLineSet => "history-line-set",
            ZleWidgetHook::KeymapSelect => "keymap-select",
        }
    }
}

/// The script that hooks the shell function named `function_name` to `hook`:
/// `add-zle-hook-widget "<hook>" "<function>"`, both names written as `{:?}`
/// writes a C string.
pub open spec fn zle_hook_widget_script_text(hook_name_bytes: Seq<u8>, function_name: Seq<u8>) -> Seq<
    char,
> {
    "add-zle-hook-widget "@ + debug_text(hook_name_bytes) + " "@ + debug_text(function_name)
}

/// Law: the script is printable ASCII whatever the function name, so it holds
/// no NUL and can always be handed to zsh as a C string.
pub proof fn lemma_zle_hook_widget_script_printable(hook_name_bytes: Seq<u8>, function_name: Seq<u8>)
    ensures
        all_printable_ascii(zle_hook_widget_script_text(hook_name_bytes, function_name)),
{
    reveal_strlit("add-zle-hook-widget ");
    reveal_strlit(" ");
    lemma_debug_text_printable(hook_name_bytes);
    lemma_debug_text_printable(function_name);
    let a = "add-zle-hook-widget "@;
    let b = debug_text(hook_name_bytes);
    let c = " "@;
    let d = debug_text(function_name);
    let s = zle_hook_widget_script_text(hook_name_bytes, function_name);
    assert(s == a + b + c + d);
    assert forall|i: int| 0 <= i < s.len() implies #[trigger] is_printable_ascii(s[i]) by {
        if i < a.len() {
            assert(s[i] == a[i]);
        } else if i < a.len() + b.len() {
            assert(s[i] == b[i - a.len()]);
        } else if i < a.len() + b.len() + c.len() {
            assert(s[i] == c[i - a.len() - b.len()]);
        } else {
            assert(s[i] == d[i - a.len() - b.len() - c.len()]);
        }
    }
}

/// Law: hook and function names made of printable ASCII other than the
/// backslash and the quotes (letters, digits, `_`, `-`, ...) appear in the
/// script as they are, each between double quotes.
pub proof fn lemma_zle_hook_widget_script_verbatim(hook_name_bytes: Seq<u8>, function_name: Seq<u8>)
    requires
        forall|i: int| 0 <= i < hook_name_bytes.len() ==> is_plain_byte(#[trigger] hook_name_bytes[i]),
        forall|i: int| 0 <= i < function_name.len() ==> is_plain_byte(#[trigger] function_name[i]),
    ensures
        zle_hook_widget_script_text(hook_name_bytes, function_name) == "add-zle-hook-widget "@
            + seq!['"'] + hook_name_bytes.map_values(|b: u8| b as char) + seq!['"', ' ', '"']
            + function_name.map_values(|b: u8| b as char) + seq!['"'],
{
    lemma_plain_text_verbatim(hook_name_bytes);
    lemma_plain_text_verbatim(function_name);
    reveal_strlit(" ");
    let a = "add-zle-hook-widget "@;
    let h = hook_name_bytes.map_values(|b: u8| b as char);
    let f = function_name.map_values(|b: u8| b as char);
    assert(zle_hook_widget_script_text(hook_name_bytes, function_name) =~= a + seq!['"'] + h
        + seq!['"', ' ', '"'] + f + seq!['"']);
}

/// Writes the script that `Zsh::add_zle_hook_widget` runs.
pub fn zle_hook_widget_script(hook: &ZleWidgetHook, function_name: &[u8]) -> (script: String)
    ensures
        script@ == zle_hook_widget_script_text(encode_utf8(hook.spec_hook_name()), function_name@),
{
    let mut script = String::from_str("add-zle-hook-widget ");
    let name = hook.hook_name();
    push_debug_text(&mut script, name.as_bytes());
    script.append(" ");
    push_debug_text(&mut script, function_name);
    script
}

/// Zero-sized capability: "you are on the zsh thread right now". It is
/// neither `Send` nor `Sync`, and making one allocates nothing.
pub struct Zsh<'z> {
    _no_send_sync: PhantomData<Rc<()>>,
    _scope: PhantomData<&'z mut ()>,
}

impl<'z> Zsh<'z> {
    /// Makes the capability; only the module's entry points call this.
    pub fn new() -> Self {
        Zsh { _no_send_sync: PhantomData, _scope: PhantomData }
    }
}

impl<'z> Default for Zsh<'z> {
    fn default() -> Self {
        Self::new()
    }
}

} // verus!
