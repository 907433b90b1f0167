use syntect::easy::HighlightLines;
use syntect::highlighting::{Theme, ThemeSet};
use syntect::parsing::{SyntaxReference, SyntaxSet};
use vstd::prelude::*;

use crate::highlighter::{joined, token_texts, token_views, HighlightToken};

verus! {

#[verifier::external_type_specification]
#[verifier::external_body]
pub struct ExSyntaxSet(SyntaxSet);

#[verifier::external_type_specification]
#[verifier::external_body]
pub struct ExSyntaxReference(SyntaxReference);

#[verifier::external_type_specification]
#[verifier::external_body]
pub struct ExTheme(Theme);

#[verifier::external_type_specification]
#[verifier::external_body]
pub struct ExHighlightLines<'a>(HighlightLines<'a>);

/// syntect's default themes hold one called `name`.
pub uninterp spec fn default_theme_found(name: Seq<char>) -> bool;

/// syntect's default syntaxes (for lines that keep their newline) hold one
/// called `name`.
pub uninterp spec fn default_syntax_found(name: Seq<char>) -> bool;

/// What syntect gives for `line` when it highlights it, having highlighted
/// `lines_before` first, with the syntax called `syntax` among its default
/// syntaxes (for lines that keep their newline) and its default theme called
/// `theme`: each piece of the line with its foreground colour (red, green,
/// blue, text), or `None` when it fails.
pub uninterp spec fn highlighted_tokens(
    syntax: Seq<char>,
    theme: Seq<char>,
    lines_before: Seq<Seq<char>>,
    line: Seq<char>,
) -> Option<Seq<(u8, u8, u8, Seq<char>)>>;

/// syntect's default syntaxes, for lines that keep their newline. Only
/// `load_syntax_set` makes one.
pub struct DefaultSyntaxSet {
    set: SyntaxSet,
}

/// A syntax of `DefaultSyntaxSet`, and the name it was found under.
pub struct SyntaxRef<'a> {
    syntax: &'a SyntaxReference,
    name: Ghost<Seq<char>>,
}

/// A copy of a syntax of `DefaultSyntaxSet`, and the name it was found under.
pub struct NamedSyntax {
    syntax: SyntaxReference,
    name: Ghost<Seq<char>>,
}

/// A default theme of syntect, and the name it was found under.
pub struct NamedTheme {
    theme: Theme,
    name: Ghost<Seq<char>>,
}

impl<'a> SyntaxRef<'a> {
    pub closed spec fn name(&self) -> Seq<char> {
        self.name@
    }
}

impl NamedSyntax {
    pub closed spec fn name(&self) -> Seq<char> {
        self.name@
    }
}

impl NamedTheme {
    pub closed spec fn name(&self) -> Seq<char> {
        self.name@
    }
}

/// Loads syntect's default syntaxes, for text whose lines keep their newline.
///
/// Trusted: calls `SyntaxSet::load_defaults_newlines`.
#[verifier::external_body]
pub fn load_syntax_set() -> DefaultSyntaxSet {
    DefaultSyntaxSet { set: SyntaxSet::load_defaults_newlines() }
}

/// Loads syntect's default theme called `name`, if there is one.
///
/// Trusted: calls `ThemeSet::load_defaults`, whose documentation lists
/// `base16-ocean.dark` among the themes, and takes a copy of the theme of that
/// name from its `themes`; the copy is tagged with the name.
#[verifier::external_body]
pub fn load_default_theme(name: &str) -> (t: Option<NamedTheme>)
    ensures
        t is Some <==> default_theme_found(name@),
        name@ == "base16-ocean.dark"@ ==> t is Some,
        t matches Some(t) ==> t.name() == name@,
{
    ThemeSet::load_defaults().themes.get(name).cloned().map(|theme| NamedTheme { theme, name: Ghost(name@) })
}

/// Looks a syntax of the default set up by name.
///
/// Trusted: calls `SyntaxSet::find_syntax_by_name`; what it finds is tagged
/// with the name.
#[verifier::external_body]
pub fn find_syntax_by_name<'a>(set: &'a DefaultSyntaxSet, name: &str) -> (r: Option<SyntaxRef<'a>>)
    ensures
        r is Some <==> default_syntax_found(name@),
        r matches Some(r) ==> r.name() == name@,
{
    set.set.find_syntax_by_name(name).map(|syntax| SyntaxRef { syntax, name: Ghost(name@) })
}

/// A copy of a syntax.
///
/// Trusted: calls `SyntaxReference`'s derived `clone`; the copy keeps the name.
#[verifier::external_body]
pub fn clone_syntax(syntax: &SyntaxRef) -> (s: NamedSyntax)
    ensures
        s.name() == syntax.name(),
{
    NamedSyntax { syntax: syntax.syntax.clone(), name: Ghost(syntax.name()) }
}

/// A text being highlighted line by line: syntect's state, the syntaxes it
/// reads, and, as ghost values, the names of the syntax and theme it was
/// started with and the lines it has highlighted so far. Only
/// `start_highlighting` makes one, and only `highlight_line` changes it.
pub struct ShellLines<'a> {
    lines: HighlightLines<'a>,
    set: &'a SyntaxSet,
    syntax: Ghost<Seq<char>>,
    theme: Ghost<Seq<char>>,
    fed: Ghost<Seq<Seq<char>>>,
}

impl<'a> ShellLines<'a> {
    /// The name of the syntax the text is highlighted with.
    pub closed spec fn syntax_name(&self) -> Seq<char> {
        self.syntax@
    }

    /// The name of the theme the text is highlighted with.
    pub closed spec fn theme_name(&self) -> Seq<char> {
        self.theme@
    }

    /// The lines highlighted so far.
    pub closed spec fn fed(&self) -> Seq<Seq<char>> {
        self.fed@
    }
}

/// Starts highlighting a text from its first line, with a syntax of the
/// default set and a default theme.
///
/// Trusted: calls `HighlightLines::new`; the state records the names of the
/// syntax and theme, and that no line has been highlighted yet.
#[verifier::external_body]
pub fn start_highlighting<'a>(
    set: &'a DefaultSyntaxSet,
    syntax: &NamedSyntax,
    theme: &'a NamedTheme,
) -> (s: ShellLines<'a>)
    ensures
        s.syntax_name() == syntax.name(),
        s.theme_name() == theme.name(),
        s.fed() == Seq::<Seq<char>>::empty(),
{
    ShellLines {
        lines: HighlightLines::new(&syntax.syntax, &theme.theme),
        set: &set.set,
        syntax: Ghost(syntax.name()),
        theme: Ghost(theme.name()),
        fed: Ghost(Seq::empty()),
    }
}

/// Highlights the next line of the text.
///
/// Trusted: calls `HighlightLines::highlight_line` with the default syntaxes.
/// The state was made by `start_highlighting` from the default syntax and
/// theme under the names it records, and has highlighted the lines it
/// records; so the result is the named `highlighted_tokens`, each piece copied
/// with its foreground colour. The pieces make up the line, as the source of
/// syntect's highlight iterator documents. After a success the line counts as
/// highlighted; after a failure nothing is stated of the state.
#[verifier::external_body]
pub fn highlight_line(s: &mut ShellLines, line: &str) -> (tokens: Option<Vec<HighlightToken>>)
    ensures
        match tokens {
            Some(ts) => highlighted_tokens(
                old(s).syntax_name(),
                old(s).theme_name(),
                old(s).fed(),
                line@,
            ) == Some(token_views(ts@)),
            None => highlighted_tokens(
                old(s).syntax_name(),
                old(s).theme_name(),
                old(s).fed(),
                line@,
            ) is None,
        },
        tokens matches Some(ts) ==> joined(token_texts(ts@)) == line@,
        tokens is Some ==> final(s).syntax_name() == old(s).syntax_name() && final(s).theme_name()
            == old(s).theme_name() && final(s).fed() == old(s).fed().push(line@),
{
    match s.lines.highlight_line(line, s.set) {
        Ok(ranges) => Some(
            ranges.iter().map(
                |(style, text)|
                    HighlightToken {
                        red: style.foreground.r,
                        green: style.foreground.g,
                        blue: style.foreground.b,
                        text: text.to_string(),
                    },
            ).collect(),
        ),
        Err(_) => None,
    }
}

} // verus!
