use syntect::easy::HighlightLines;
use syntect::highlighting::ThemeSet;
use syntect::parsing::SyntaxSet;
use syntect::util::LinesWithEndings;
use zmod::error::{widget_registration_result, CallOutcome, ZshErr};
use zmod::fd::{format_fd, parse_fd, zle_fd_option_flags, MAX_OPS};
use zmod::highlight_loop::{LoopAction, LoopEvent, LoopState};
use zmod::highlighter::{regions_from_tokens, HighlightToken, Highlighter};
use zmod::module_builder::{
    builtin_trampoline, crate_root_path_from_name, find_fn_type, function_trampoline, path_ident,
    registration_script, AttrPath, CrateLookup, MethodItem, MethodKind, ModuleImplBuilder,
    SetupPart, Trampoline, TypeShape,
};
use zmod::prompt::{compute_prompt, prompt_from_parts};
use zmod::reader::{no_file_error, FdReadState, ReadEvent, ReadStep};
use zmod::zle::{
    region_highlight_update, HighlightColor, RegionHighlight, N_SPECIAL_HIGHLIGHTS,
};
use zmod::zsh::{zle_hook_widget_script, ShellHook, ZleWidgetHook};
use zmod::{Module, Zle, Zsh};

fn color(red: u8, green: u8, blue: u8) -> HighlightColor {
    HighlightColor { red, green, blue }
}

fn region(start: usize, end: usize, fg: Option<HighlightColor>, bg: Option<HighlightColor>) -> RegionHighlight {
    RegionHighlight { start, end, foreground: fg, background: bg }
}

#[test]
fn as_rgb_packs_red_highest() {
    assert_eq!(color(0x12, 0x34, 0x56).as_rgb(), 0x123456);
    assert_eq!(color(0, 0, 0).as_rgb(), 0);
    assert_eq!(color(255, 255, 255).as_rgb(), 0xffffff);
    assert_eq!(color(1, 0, 0).as_rgb(), 0x10000);
}

#[test]
fn attr_of_foreground_only() {
    let r = region(0, 3, Some(color(0x12, 0x34, 0x56)), None);
    assert_eq!(r.zsh_attr(), 0x0008 | 0x4000 | (0x123456u64 << 16));
}

#[test]
fn attr_of_background_only() {
    let r = region(0, 3, None, Some(color(0xab, 0xcd, 0xef)));
    assert_eq!(r.zsh_attr(), 0x0010 | 0x8000 | (0xabcdefu64 << 40));
}

#[test]
fn attr_of_both_colours_decodes_back() {
    let r = region(2, 5, Some(color(1, 2, 3)), Some(color(250, 251, 252)));
    let a = r.zsh_attr();
    assert_eq!((a >> 16) & 0xffffff, 0x010203);
    assert_eq!((a >> 40) & 0xffffff, 0xfafbfc);
    assert!(a & 0x8 != 0 && a & 0x10 != 0 && a & 0x4000 != 0 && a & 0x8000 != 0);
}

#[test]
fn attr_of_no_colour_is_zero() {
    assert_eq!(region(0, 1, None, None).zsh_attr(), 0);
}

#[test]
fn update_grows_and_clears_new_slots() {
    let ranges = vec![
        region(0, 2, Some(color(1, 1, 1)), None),
        region(2, 7, None, Some(color(2, 2, 2))),
    ];
    let u = region_highlight_update(&ranges, 4);
    assert_eq!(u.count, 6);
    assert_eq!(u.cleared_from, 4);
    assert_eq!(u.cleared_len, 2);
    assert_eq!(u.entries.len(), 2);
    assert_eq!(u.entries[0].start, 0);
    assert_eq!(u.entries[0].end, 2);
    assert_eq!(u.entries[0].atr, ranges[0].zsh_attr());
    assert_eq!(u.entries[1].start, 2);
    assert_eq!(u.entries[1].end, 7);
    assert_eq!(u.entries[1].atr, ranges[1].zsh_attr());
}

#[test]
fn update_shrinking_clears_nothing() {
    let ranges = vec![region(0, 1, None, None)];
    let u = region_highlight_update(&ranges, 10);
    assert_eq!(u.count, (1 + N_SPECIAL_HIGHLIGHTS) as i32);
    assert_eq!(u.cleared_len, 0);
    let e = region_highlight_update(&[], 4);
    assert_eq!(e.count, 4);
    assert_eq!(e.cleared_len, 0);
    assert!(e.entries.is_empty());
}

#[test]
fn parse_fd_reads_decimal_numbers() {
    assert_eq!(parse_fd(b"12"), Some(12));
    assert_eq!(parse_fd(b"0"), Some(0));
    assert_eq!(parse_fd(b"+7"), Some(7));
    assert_eq!(parse_fd(b"-5"), Some(-5));
    assert_eq!(parse_fd(b"00012"), Some(12));
    assert_eq!(parse_fd(b"2147483647"), Some(i32::MAX));
    assert_eq!(parse_fd(b"-2147483648"), Some(i32::MIN));
}

#[test]
fn parse_fd_refuses_what_parse_refuses() {
    for text in [&b""[..], b"-", b"+", b"abc", b"1a", b" 1", b"2147483648", b"-2147483649", b"99999999999999999999", b"\xff1", b"1\n"] {
        let expected = String::from_utf8_lossy(text).parse::<i32>().ok();
        assert_eq!(parse_fd(text), expected, "on {:?}", text);
        assert_eq!(parse_fd(text), None);
    }
}

#[test]
fn parse_fd_agrees_with_std_parse() {
    for text in ["1", "-0", "+0", "0042", "-2147483648", "2147483647", "--1", "+-1", "12345678901"] {
        assert_eq!(parse_fd(text.as_bytes()), text.parse::<i32>().ok(), "on {text}");
    }
}

#[test]
fn format_fd_writes_decimal_text() {
    assert_eq!(format_fd(0), b"0".to_vec());
    assert_eq!(format_fd(42), b"42".to_vec());
    assert_eq!(format_fd(-17), b"-17".to_vec());
    assert_eq!(format_fd(i32::MIN), i32::MIN.to_string().into_bytes());
    assert_eq!(format_fd(i32::MAX), i32::MAX.to_string().into_bytes());
}

#[test]
fn fd_text_round_trip() {
    for fd in [0, 1, 9, 10, 99, 100, 12345, -1, -10, i32::MAX, i32::MIN] {
        assert_eq!(parse_fd(&format_fd(fd)), Some(fd));
    }
}

#[test]
fn zle_fd_options_are_w_and_f() {
    let ind = zle_fd_option_flags();
    assert_eq!(ind.len(), MAX_OPS);
    for (i, v) in ind.iter().enumerate() {
        let expected = if i == 'w' as usize || i == 'F' as usize { 1 } else { 0 };
        assert_eq!(*v, expected);
    }
}

#[test]
fn hook_array_names() {
    assert_eq!(ShellHook::ChPwd.array_name(), "chpwd_functions");
    assert_eq!(ShellHook::PreCmd.array_name(), "precmd_functions");
    assert_eq!(ShellHook::PreExec.array_name(), "preexec_functions");
    assert_eq!(ShellHook::Periodic.array_name(), "periodic_functions");
    assert_eq!(ShellHook::ZshAddHistory.array_name(), "zshaddhistory_functions");
    assert_eq!(ShellHook::ZshExit.array_name(), "zshexit_functions");
    assert_eq!(ShellHook::ZshDirectoryName.array_name(), "zsh_directory_name_functions");
}

#[test]
fn zle_hook_names() {
    assert_eq!(ZleWidgetHook::ISearchExit.hook_name(), "isearch-exit");
    assert_eq!(ZleWidgetHook::ISearchUpdate.hook_name(), "isearch-update");
    assert_eq!(ZleWidgetHook::LinePreRedraw.hook_name(), "line-pre-redraw");
    assert_eq!(ZleWidgetHook::LineInit.hook_name(), "line-init");
    assert_eq!(ZleWidgetHook::LineFinish.hook_name(), "line-finish");
    assert_eq!(ZleWidgetHook::HistoryLineSet.hook_name(), "history-line-set");
    assert_eq!(ZleWidgetHook::KeymapSelect.hook_name(), "keymap-select");
}

#[test]
fn zle_hook_script_plain() {
    let s = zle_hook_widget_script(&ZleWidgetHook::LinePreRedraw, b"__zexp_line_pre_redraw");
    assert_eq!(s, "add-zle-hook-widget \"line-pre-redraw\" \"__zexp_line_pre_redraw\"");
}

#[test]
fn zle_hook_script_escapes_as_debug_does() {
    let names: [&[u8]; 6] = [b"a\tb", b"q\"uote", b"back\\slash", b"it's", b"\x01\x7f\xff\x80", b"new\nline\r"];
    for name in names {
        let expected = format!("add-zle-hook-widget \"keymap-select\" \"{}\"", name.escape_ascii());
        let s = zle_hook_widget_script(&ZleWidgetHook::KeymapSelect, name);
        assert_eq!(s, expected);
        assert!(!s.contains('\0'));
    }
}

#[test]
fn widget_registration_outcomes() {
    assert!(widget_registration_result(b"w", true).is_ok());
    let err = widget_registration_result(b"my-widget", false).unwrap_err();
    assert_eq!(err.code, 1);
    assert_eq!(err.message, format!("Name clash when adding zle widget \"{}\"", b"my-widget".escape_ascii()));
    assert_eq!(err.to_display_string(), err.message);
}

#[test]
fn call_outcome_status() {
    assert_eq!(CallOutcome::Returned(Ok(())).status(), 0);
    let e = ZshErr { code: 3, message: String::from("bad") };
    assert_eq!(CallOutcome::Returned(Err(e)).status(), 3);
    assert_eq!(CallOutcome::Panicked.status(), 1);
}

#[test]
fn reader_gathers_until_would_block() {
    let mut st = FdReadState::new();
    assert!(matches!(st.on_event(ReadEvent::Read(b"ab".to_vec())), ReadStep::Continue));
    assert!(matches!(st.on_event(ReadEvent::Interrupted), ReadStep::Continue));
    assert!(matches!(st.on_event(ReadEvent::Read(b"c".to_vec())), ReadStep::Continue));
    assert!(matches!(st.on_event(ReadEvent::WouldBlock), ReadStep::Finish));
    assert_eq!(st.finish(), Ok(String::from("abc")));
}

#[test]
fn reader_stops_at_end_of_file_and_fails_on_error() {
    let mut st = FdReadState::new();
    assert!(matches!(st.on_event(ReadEvent::Read(vec![])), ReadStep::Finish));
    match st.on_event(ReadEvent::Failed(String::from("boom"))) {
        ReadStep::Fail(m) => assert_eq!(m, "boom"),
        _ => panic!("expected a failure"),
    }
    assert_eq!(st.finish(), Ok(String::new()));
}

#[test]
fn reader_refuses_invalid_utf8() {
    let mut st = FdReadState::new();
    st.on_event(ReadEvent::Read(vec![0xff, 0xfe]));
    let expected = String::from_utf8(vec![0xff, 0xfe]).map_err(|e| e.to_string());
    assert_eq!(st.finish(), expected);
    assert_eq!(no_file_error(), "No files available");
}

#[test]
fn find_fn_type_takes_last_marker_and_removes_it() {
    let mut attrs = vec![
        AttrPath { ident: Some(String::from("doc")) },
        AttrPath { ident: Some(String::from("builtin")) },
        AttrPath { ident: None },
        AttrPath { ident: Some(String::from("widget")) },
        AttrPath { ident: Some(String::from("inline")) },
    ];
    assert!(find_fn_type(&mut attrs) == Some(MethodKind::Widget));
    assert_eq!(attrs.len(), 4);
    assert_eq!(attrs[1].ident.as_deref(), Some("builtin"));
    assert_eq!(attrs[3].ident.as_deref(), Some("inline"));
    let mut plain = vec![AttrPath { ident: Some(String::from("doc")) }];
    assert!(find_fn_type(&mut plain).is_none());
    assert_eq!(plain.len(), 1);
}

#[test]
fn names_match_the_generated_ones() {
    let ty = String::from("ZExp");
    let f = String::from("__zexp_cwd");
    assert_eq!(builtin_trampoline(&ty, &f), format!("__zmod_builtin_{}_{}", ty, f));
    let t = function_trampoline(&ty, &f);
    assert_eq!(t, format!("__zmod_function_builtin_{}_{}", ty, f));
    assert_eq!(registration_script(&f, &t), format!("{f}() {{ builtin {t} $@ }}"));
}

fn method(name: &str, marker: Option<&str>) -> MethodItem {
    let mut attrs = vec![AttrPath { ident: Some(String::from("doc")) }];
    if let Some(m) = marker {
        attrs.push(AttrPath { ident: Some(String::from(m)) });
    }
    MethodItem { name: String::from(name), attrs }
}

#[test]
fn build_gathers_each_kind() {
    let items = vec![
        method("compute_prompt", None),
        method("__zexp_cwd", Some("function")),
        method("__zexp_line_pre_redraw", Some("widget")),
        method("hello", Some("builtin")),
    ];
    let (b, items) = ModuleImplBuilder::build(String::from("ZExp"), items);
    assert_eq!(items.len(), 4);
    assert!(items.iter().all(|m| m.attrs.len() == 1));
    assert_eq!(b.bintab_count(), 2);
    assert_eq!(b.bintab_records[0].nam, "__zmod_function_builtin_ZExp___zexp_cwd");
    assert_eq!(b.bintab_records[0].handlerfunc, "__zmod_function_builtin_ZExp___zexp_cwd");
    assert_eq!(b.bintab_records[1].nam, "hello");
    assert_eq!(b.bintab_records[1].handlerfunc, "__zmod_builtin_ZExp_hello");
    assert_eq!((b.bintab_records[1].minargs, b.bintab_records[1].maxargs), (0, -1));
    assert_eq!(b.function_names.len(), 1);
    assert_eq!(b.widget_names.len(), 1);
    assert_eq!(b.widget_names[0].ident, "__zexp_line_pre_redraw");
    assert_eq!(b.trampolines.len(), 3);
    match &b.trampolines[1] {
        Trampoline::Widget { name, method, label } => {
            assert_eq!(name, "__zmod_builtin_ZExp___zexp_line_pre_redraw");
            assert_eq!(method, "__zexp_line_pre_redraw");
            assert_eq!(label, "__zexp_line_pre_redraw");
        }
        _ => panic!("expected a widget entry point"),
    }
    assert_eq!(b.setup_parts.len(), 2);
    match &b.setup_parts[0] {
        SetupPart::Exec(s) => assert_eq!(
            s,
            "__zexp_cwd() { builtin __zmod_function_builtin_ZExp___zexp_cwd $@ }"
        ),
        _ => panic!("expected a script"),
    }
    match &b.setup_parts[1] {
        SetupPart::AddWidget { name, trampoline } => {
            assert_eq!(name, "__zexp_line_pre_redraw");
            assert_eq!(trampoline, "__zmod_builtin_ZExp___zexp_line_pre_redraw");
        }
        _ => panic!("expected a widget registration"),
    }
    assert_eq!(b.builtins_struct_name(), "ZExpBuiltins");
    assert_eq!(b.functions_struct_name(), "ZExpFunctions");
    assert_eq!(b.widgets_struct_name(), "ZExpWidgets");
}

#[test]
fn crate_root_paths() {
    let name = String::from("zmod");
    assert_eq!(crate_root_path_from_name(&CrateLookup::Itself, &name), "crate");
    assert_eq!(crate_root_path_from_name(&CrateLookup::Name(String::from("zmod_renamed")), &name), "::zmod_renamed");
    assert_eq!(crate_root_path_from_name(&CrateLookup::NotFound, &name), "::zmod");
}

#[test]
fn path_idents() {
    let p = TypeShape::Path { qself: false, segments: vec![String::from("crate"), String::from("ZExp")] };
    assert_eq!(path_ident(&p).as_deref(), Some("ZExp"));
    let q = TypeShape::Path { qself: true, segments: vec![String::from("ZExp")] };
    assert!(path_ident(&q).is_none());
    assert!(path_ident(&TypeShape::Other).is_none());
    assert!(path_ident(&TypeShape::Path { qself: false, segments: vec![] }).is_none());
}

#[test]
fn regions_from_tokens_follow_each_other() {
    let tokens = vec![
        HighlightToken { red: 1, green: 2, blue: 3, text: String::from("ls") },
        HighlightToken { red: 4, green: 5, blue: 6, text: String::from(" ") },
        HighlightToken { red: 7, green: 8, blue: 9, text: String::from("héllo\n") },
    ];
    let r = regions_from_tokens(&tokens);
    assert_eq!(r.len(), 3);
    assert_eq!((r[0].start, r[0].end), (0, 2));
    assert_eq!((r[1].start, r[1].end), (2, 3));
    assert_eq!((r[2].start, r[2].end), (3, 9));
    let fg = r[2].foreground.as_ref().unwrap();
    assert_eq!((fg.red, fg.green, fg.blue), (7, 8, 9));
    assert!(r.iter().all(|x| x.background.is_none()));
}

#[test]
fn highlighter_tiles_the_buffer() {
    let h = Highlighter::new().expect("syntect defaults hold the shell syntax and the theme");
    let buffer = "ls -la | grep foo\necho \"héllo\" $HOME\n";
    let r = h.highlight(buffer).unwrap();
    assert!(!r.is_empty());
    assert_eq!(r[0].start, 0);
    assert_eq!(r[r.len() - 1].end, buffer.chars().count());
    for w in r.windows(2) {
        assert_eq!(w[0].end, w[1].start);
    }
    assert!(h.highlight("").unwrap().is_empty());
}

#[test]
fn prompt_under_home() {
    assert_eq!(compute_prompt(Some("me"), Some("/home/me/src"), Some("/home/me")), "me > ~/src --> ");
    assert_eq!(compute_prompt(Some("me"), Some("/tmp"), Some("/home/me")), "me > /tmp --> ");
    assert_eq!(compute_prompt(None, None, None), "anon > <unknown> --> ");
    assert_eq!(compute_prompt(Some("me"), Some("/home/me"), Some("/home/me")), "me > ~/ --> ");
    assert_eq!(prompt_from_parts("u", "/x", None), "u > /x --> ");
}

struct Counter {
    set_up: u32,
}

impl Module for Counter {
    fn new() -> Self {
        Counter { set_up: 0 }
    }

    fn setup(&mut self, _zsh: Zsh) {
        self.set_up += 1;
    }
}

struct Quiet;

impl Module for Quiet {
    fn new() -> Self {
        Quiet
    }
}

#[test]
fn module_setup_runs_once_per_call() {
    let mut c = Counter::new();
    c.setup(Zsh::new());
    assert_eq!(c.set_up, 1);
    let mut q = Quiet::new();
    q.setup(Zsh::default());
    let _zle = Zle::new();
}

#[test]
fn update_converts_bounds_as_c_ints() {
    let big = (1usize << 32) + 5;
    let ranges = vec![region(big, big + 1, None, None)];
    let u = region_highlight_update(&ranges, 0);
    assert_eq!(u.count, 5);
    assert_eq!((u.cleared_from, u.cleared_len), (0, 5));
    assert_eq!(u.entries[0].start, big as i32);
    assert_eq!(u.entries[0].end, (big + 1) as i32);
    assert_eq!(u.entries[0].start, 5);
}

#[test]
fn capabilities_are_zero_sized() {
    assert_eq!(std::mem::size_of::<Zle>(), 0);
    assert_eq!(std::mem::size_of::<Zsh>(), 0);
}

#[test]
fn highlight_gives_syntect_colours() {

    let buffer = "for f in *.rs; do\n  echo \"$f\" | wc -l\ndone";
    let ss = SyntaxSet::load_defaults_newlines();
    let ts = ThemeSet::load_defaults();
    let syntax = ss.find_syntax_by_name("Shell-Unix-Generic").unwrap();
    let mut h = HighlightLines::new(syntax, &ts.themes["base16-ocean.dark"]);
    let mut expected = Vec::new();
    let mut offset = 0;
    for line in LinesWithEndings::from(buffer) {
        for (style, text) in h.highlight_line(line, &ss).unwrap() {
            let len = text.chars().count();
            expected.push((offset, offset + len, style.foreground.r, style.foreground.g, style.foreground.b));
            offset += len;
        }
    }
    let r = Highlighter::new().unwrap().highlight(buffer).unwrap();
    let got: Vec<_> = r
        .iter()
        .map(|x| {
            let fg = x.foreground.as_ref().unwrap();
            (x.start, x.end, fg.red, fg.green, fg.blue)
        })
        .collect();
    assert_eq!(got, expected);
}

fn step(state: LoopState, event: LoopEvent) -> (LoopState, LoopAction) {
    state.step(event)
}

#[test]
fn highlight_loop_takes_newest_and_wakes_after_storing() {
    let (s, a) = LoopState::start();
    assert!(matches!(a, LoopAction::WaitForBuffer));
    let (s, a) = step(s, LoopEvent::Received(String::from("a")));
    assert!(matches!(a, LoopAction::TakeNewer));
    let (s, _) = step(s, LoopEvent::Received(String::from("ab")));
    let (s, a) = step(s, LoopEvent::Received(String::from("abc")));
    assert!(matches!(a, LoopAction::TakeNewer));
    let (s, a) = step(s, LoopEvent::NoneWaiting);
    match a {
        LoopAction::Publish(b) => assert_eq!(b, "abc"),
        _ => panic!("expected the newest buffer to be published"),
    }
    let (s, a) = step(s, LoopEvent::Stored);
    assert!(matches!(a, LoopAction::Notify));
    let (s, a) = step(s, LoopEvent::Woke);
    assert!(matches!(a, LoopAction::WaitForBuffer));
    let (_, a) = step(s, LoopEvent::Closed);
    assert!(matches!(a, LoopAction::Stop));
}

#[test]
fn highlight_loop_skips_waking_when_not_stored_and_stops_on_failed_wake() {
    let (s, _) = LoopState::start();
    let (s, _) = step(s, LoopEvent::Received(String::from("x")));
    let (s, _) = step(s, LoopEvent::NoneWaiting);
    let (s, a) = step(s, LoopEvent::NotStored);
    assert!(matches!(a, LoopAction::WaitForBuffer));
    let (s, _) = step(s, LoopEvent::Received(String::from("y")));
    let (s, _) = step(s, LoopEvent::NoneWaiting);
    let (s, _) = step(s, LoopEvent::Stored);
    let (_, a) = step(s, LoopEvent::WakeFailed);
    assert!(matches!(a, LoopAction::Stop));
}
