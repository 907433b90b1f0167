use syntect::util::LinesWithEndings;
use vstd::prelude::*;
use vstd::string::*;

use crate::syntect_defaults::{
    clone_syntax, default_syntax_found, default_theme_found, find_syntax_by_name, highlight_line,
    highlighted_tokens, load_default_theme, load_syntax_set, start_highlighting, DefaultSyntaxSet,
    NamedSyntax, NamedTheme,
};
use crate::zle::{HighlightColor, RegionHighlight};

verus! {

/// The name of the syntax that shell input is highlighted with.
pub const SHELL_SYNTAX: &'static str = "Shell-Unix-Generic";

/// The name of the theme that gives the colours.
pub const THEME_NAME: &'static str = "base16-ocean.dark";

/// A piece of a line and the foreground colour that the theme gives it.
pub struct HighlightToken {
    pub red: u8,
    pub green: u8,
    pub blue: u8,
    pub text: String,
}

/// The strings one after the other.
pub open spec fn joined(parts: Seq<Seq<char>>) -> Seq<char>
    decreases parts.len(),
{
    if parts.len() == 0 {
        Seq::empty()
    } else {
        joined(parts.drop_last()) + parts.last()
    }
}

/// A token as plain values: red, green, blue, and its text.
pub open spec fn token_view(t: HighlightToken) -> (u8, u8, u8, Seq<char>) {
    (t.red, t.green, t.blue, t.text@)
}

/// The tokens as plain values.
pub open spec fn token_views(tokens: Seq<HighlightToken>) -> Seq<(u8, u8, u8, Seq<char>)> {
    tokens.map_values(|t: HighlightToken| token_view(t))
}

/// The texts of tokens given as plain values.
pub open spec fn view_texts(tokens: Seq<(u8, u8, u8, Seq<char>)>) -> Seq<Seq<char>> {
    tokens.map_values(|t: (u8, u8, u8, Seq<char>)| t.3)
}

/// The texts of the tokens.
pub open spec fn token_texts(tokens: Seq<HighlightToken>) -> Seq<Seq<char>> {
    view_texts(token_views(tokens))
}

/// The text of the lines.
pub open spec fn line_texts(lines: Seq<String>) -> Seq<Seq<char>> {
    lines.map_values(|l: String| l@)
}

/// The length of the first line of `s`: up to and including its first
/// newline, or all of `s` when it has none.
pub open spec fn line_end(s: Seq<char>) -> int
    decreases s.len(),
{
    if s.len() == 0 {
        0
    } else if s[0] == '\n' {
        1
    } else {
        1 + line_end(s.drop_first())
    }
}

/// The first line of a non-empty text is not empty and lies within it.
pub proof fn lemma_line_end_bounds(s: Seq<char>)
    ensures
        s.len() > 0 ==> 1 <= line_end(s) <= s.len(),
        s.len() == 0 ==> line_end(s) == 0,
    decreases s.len(),
{
    if s.len() > 0 && s[0] != '\n' {
        lemma_line_end_bounds(s.drop_first());
    }
}

#[via_fn]
proof fn split_lines_decreases(s: Seq<char>) {
    lemma_line_end_bounds(s);
}

/// `s` split after each newline, as `LinesWithEndings` splits it: each line
/// runs up to and including the next newline, the last one to the end.
pub open spec fn split_lines(s: Seq<char>) -> Seq<Seq<char>>
    decreases s.len(),
    via split_lines_decreases
{
    if s.len() == 0 {
        Seq::empty()
    } else {
        seq![s.take(line_end(s))] + split_lines(s.skip(line_end(s)))
    }
}

/// The lines of a text make up the text.
pub proof fn lemma_split_lines_joined(s: Seq<char>)
    ensures
        joined(split_lines(s)) == s,
    decreases s.len(),
{
    if s.len() > 0 {
        let k = line_end(s);
        lemma_line_end_bounds(s);
        lemma_split_lines_joined(s.skip(k));
        let first = seq![s.take(k)];
        lemma_joined_concat(first, split_lines(s.skip(k)));
        assert(first.drop_last() =~= Seq::<Seq<char>>::empty());
        assert(first.last() == s.take(k));
        assert(joined(first) == joined(first.drop_last()) + first.last());
        assert(joined(first) =~= s.take(k));
        assert(s.take(k) + s.skip(k) =~= s);
    }
}

/// Splits a buffer into lines that keep their newline.
///
/// Trusted: calls syntect's `LinesWithEndings`, whose `next` hands out the
/// text up to and including the first newline, or the whole rest when there
/// is none, until nothing is left; the lines are copied into `String`s.
#[verifier::external_body]
fn lines_with_endings(buffer: &str) -> (lines: Vec<String>)
    ensures
        line_texts(lines@) == split_lines(buffer@),
{
    LinesWithEndings::from(buffer).map(|l| l.to_string()).collect()
}

/// What syntect gives for `lines`, highlighted one after the other after
/// `lines_before`: the pieces of all of them in order, or `None` when it
/// fails on one.
pub open spec fn tokens_of_lines(
    syntax: Seq<char>,
    theme: Seq<char>,
    lines_before: Seq<Seq<char>>,
    lines: Seq<Seq<char>>,
) -> Option<Seq<(u8, u8, u8, Seq<char>)>>
    decreases lines.len(),
{
    if lines.len() == 0 {
        Some(Seq::empty())
    } else {
        match highlighted_tokens(syntax, theme, lines_before, lines[0]) {
            None => None,
            Some(ts) => match tokens_of_lines(
                syntax,
                theme,
                lines_before.push(lines[0]),
                lines.drop_first(),
            ) {
                None => None,
                Some(rest) => Some(ts + rest),
            },
        }
    }
}

/// `tokens` followed by the tokens of `rest`, if there are any.
pub open spec fn tokens_then(
    tokens: Seq<(u8, u8, u8, Seq<char>)>,
    rest: Option<Seq<(u8, u8, u8, Seq<char>)>>,
) -> Option<Seq<(u8, u8, u8, Seq<char>)>> {
    match rest {
        None => None,
        Some(r) => Some(tokens + r),
    }
}

/// The regions of tokens: one per token, in order.
pub open spec fn regions_of_tokens(tokens: Seq<(u8, u8, u8, Seq<char>)>) -> Seq<RegionHighlight> {
    Seq::new(tokens.len(), |i: int| token_region(tokens, i))
}

/// What highlighting `buffer` gives: the regions of syntect's pieces of its
/// lines, or `None` when syntect fails on a line.
pub open spec fn highlighted_regions(syntax: Seq<char>, theme: Seq<char>, buffer: Seq<char>) -> Option<
    Seq<RegionHighlight>,
> {
    match tokens_of_lines(syntax, theme, Seq::empty(), split_lines(buffer)) {
        None => None,
        Some(tokens) => Some(regions_of_tokens(tokens)),
    }
}

/// The number of characters in the first `i` pieces.
pub open spec fn offset_before(parts: Seq<Seq<char>>, i: int) -> int {
    joined(parts.take(i)).len() as int
}

/// The region of the `i`-th token: where it starts and ends among the
/// characters of all the tokens, in its colour, on no background.
pub open spec fn token_region(tokens: Seq<(u8, u8, u8, Seq<char>)>, i: int) -> RegionHighlight {
    RegionHighlight {
        start: offset_before(view_texts(tokens), i) as usize,
        end: offset_before(view_texts(tokens), i + 1) as usize,
        foreground: Some(HighlightColor { red: tokens[i].0, green: tokens[i].1, blue: tokens[i].2 }),
        background: None,
    }
}

/// The regions follow one another from the first character to the `n`-th,
/// each in a foreground colour and on no background.
pub open spec fn regions_tile(r: Seq<RegionHighlight>, n: int) -> bool {
    &&& r.len() == 0 ==> n == 0
    &&& r.len() > 0 ==> r[0].start == 0 && r.last().end == n
    &&& forall|i: int| 0 <= i < r.len() - 1 ==> (#[trigger] r[i]).end == r[i + 1].start
    &&& forall|i: int|
        0 <= i < r.len() ==> (#[trigger] r[i]).start <= r[i].end && r[i].foreground is Some
            && r[i].background is None
}

/// Taking one piece more adds that piece.
pub proof fn lemma_joined_take_step(parts: Seq<Seq<char>>, i: int)
    requires
        0 <= i < parts.len(),
    ensures
        joined(parts.take(i + 1)) == joined(parts.take(i)) + parts[i],
{
    assert(parts.take(i + 1).drop_last() =~= parts.take(i));
}

/// Joining two lists of pieces joins their joins.
pub proof fn lemma_joined_concat(a: Seq<Seq<char>>, b: Seq<Seq<char>>)
    ensures
        joined(a + b) == joined(a) + joined(b),
    decreases b.len(),
{
    if b.len() == 0 {
        assert(a + b =~= a);
        assert(joined(a) + joined(b) =~= joined(a));
    } else {
        lemma_joined_concat(a, b.drop_last());
        assert((a + b).drop_last() =~= a + b.drop_last());
        assert(joined(a) + joined(b) =~= joined(a) + joined(b.drop_last()) + b.last());
    }
}

/// The first pieces hold no more characters than all of them.
pub proof fn lemma_joined_take_len(parts: Seq<Seq<char>>, i: int)
    requires
        0 <= i <= parts.len(),
    ensures
        joined(parts.take(i)).len() <= joined(parts).len(),
    decreases parts.len() - i,
{
    if i < parts.len() {
        lemma_joined_take_step(parts, i);
        lemma_joined_take_len(parts, i + 1);
    } else {
        assert(parts.take(i) =~= parts);
    }
}

/// The regions of the tokens, one per token in order: each covers the
/// characters of its token, counted from the first character of the first
/// token, in the token's colour.
pub fn regions_from_tokens(tokens: &Vec<HighlightToken>) -> (regions: Vec<RegionHighlight>)
    requires
        joined(token_texts(tokens@)).len() <= usize::MAX,
    ensures
        regions@.len() == tokens@.len(),
        forall|i: int|
            0 <= i < tokens@.len() ==> #[trigger] regions@[i] == token_region(token_views(tokens@), i),
{
    let ghost texts = token_texts(tokens@);
    let mut regions: Vec<RegionHighlight> = Vec::new();
    let mut offset: usize = 0;
    assert(texts.take(0) =~= Seq::<Seq<char>>::empty());
    for i in 0..tokens.len()
        invariant
            texts == token_texts(tokens@),
            joined(texts).len() <= usize::MAX,
            regions@.len() == i,
            offset == offset_before(texts, i as int),
            forall|j: int|
                0 <= j < i ==> #[trigger] regions@[j] == token_region(token_views(tokens@), j),
    {
        let token = &tokens[i];
        let len = token.text.as_str().unicode_len();
        proof {
            lemma_joined_take_step(texts, i as int);
            lemma_joined_take_len(texts, i + 1);
            assert(texts[i as int] == token.text@);
        }
        let end = offset + len;
        regions.push(
            RegionHighlight {
                start: offset,
                end,
                foreground: Some(HighlightColor { red: token.red, green: token.green, blue: token.blue }),
                background: None,
            },
        );
        offset = end;
    }
    regions
}

/// Law: the regions of tokens cover the characters of the tokens from the
/// first to the last, one after the other, in colour and on no background.
pub proof fn lemma_token_regions_tile(
    tokens: Seq<(u8, u8, u8, Seq<char>)>,
    regions: Seq<RegionHighlight>,
)
    requires
        joined(view_texts(tokens)).len() <= usize::MAX,
        regions.len() == tokens.len(),
        forall|i: int| 0 <= i < tokens.len() ==> #[trigger] regions[i] == token_region(tokens, i),
    ensures
        regions_tile(regions, joined(view_texts(tokens)).len() as int),
        forall|i: int|
            0 <= i < tokens.len() ==> #[trigger] token_region(tokens, i).end - token_region(
                tokens,
                i,
            ).start == tokens[i].3.len(),
{
    let texts = view_texts(tokens);
    let n = tokens.len() as int;
    assert(texts.take(0) =~= Seq::<Seq<char>>::empty());
    assert(texts.take(n) =~= texts);
    assert forall|i: int| 0 <= i <= n implies 0 <= #[trigger] offset_before(texts, i) <= joined(
        texts,
    ).len() by {
        lemma_joined_take_len(texts, i);
    }
    assert forall|i: int| 0 <= i < n implies offset_before(texts, i) <= #[trigger] offset_before(
        texts,
        i + 1,
    ) by {
        lemma_joined_take_step(texts, i);
    }
    if n > 0 {
        assert(regions[0] == token_region(tokens, 0));
        assert(regions.last() == token_region(tokens, n - 1));
        assert(offset_before(texts, n) == joined(texts).len());
    }
    assert forall|i: int| 0 <= i < regions.len() - 1 implies (#[trigger] regions[i]).end
        == regions[i + 1].start by {
        assert(regions[i + 1] == token_region(tokens, i + 1));
    }
    assert forall|i: int| 0 <= i < regions.len() implies (#[trigger] regions[i]).start
        <= regions[i].end && regions[i].foreground is Some && regions[i].background is None by {
        assert(offset_before(texts, i) <= offset_before(texts, i + 1));
    }
    assert forall|i: int| 0 <= i < tokens.len() implies #[trigger] token_region(tokens, i).end
        - token_region(tokens, i).start == tokens[i].3.len() by {
        lemma_joined_take_step(texts, i);
        lemma_joined_take_len(texts, i);
        lemma_joined_take_len(texts, i + 1);
        assert(texts[i] == tokens[i].3);
    }
}

/// Highlights shell input, as the line editor is to show it: syntect's
/// default syntaxes and the `base16-ocean.dark` theme.
pub struct Highlighter {
    syntaxes: DefaultSyntaxSet,
    syntax: NamedSyntax,
    theme: NamedTheme,
}

impl Highlighter {
    /// The name under which the syntax was found among syntect's defaults.
    pub closed spec fn syntax_name(&self) -> Seq<char> {
        self.syntax.name()
    }

    /// The name under which the theme was found among syntect's defaults.
    pub closed spec fn theme_name(&self) -> Seq<char> {
        self.theme.name()
    }

    /// Loads syntect's default syntaxes, its `Shell-Unix-Generic` syntax and
    /// its `base16-ocean.dark` theme: it succeeds exactly when the defaults
    /// hold both, and the theme is among them.
    pub fn new() -> (h: Option<Highlighter>)
        ensures
            h is Some <==> default_syntax_found(SHELL_SYNTAX@) && default_theme_found(THEME_NAME@),
            h is Some <==> default_syntax_found(SHELL_SYNTAX@),
            h matches Some(h) ==> h.syntax_name() == SHELL_SYNTAX@ && h.theme_name() == THEME_NAME@,
    {
        let syntaxes = load_syntax_set();
        let theme = load_default_theme(THEME_NAME);
        let found = find_syntax_by_name(&syntaxes, SHELL_SYNTAX);
        match (theme, found) {
            (Some(theme), Some(found)) => {
                let syntax = clone_syntax(&found);
                Some(Highlighter { syntaxes, syntax, theme })
            },
            _ => None,
        }
    }

    /// The regions in which to show `buffer`: it is split into lines, each
    /// line highlighted in turn, and each piece of a line becomes a region in
    /// its foreground colour (`None`: syntect failed on a line). The regions
    /// tile the buffer's characters; an empty buffer has none.
    pub fn highlight(&self, buffer: &str) -> (res: Option<Vec<RegionHighlight>>)
        ensures
            match highlighted_regions(self.syntax_name(), self.theme_name(), buffer@) {
                None => res is None,
                Some(regions) => res matches Some(r) && r@ == regions,
            },
            tokens_of_lines(self.syntax_name(), self.theme_name(), Seq::empty(), split_lines(buffer@))
                matches Some(tokens) ==> joined(view_texts(tokens)) == buffer@ && forall|i: int|
                0 <= i < tokens.len() ==> #[trigger] token_region(tokens, i).end - token_region(
                tokens,
                i,
            ).start == tokens[i].3.len(),
            res matches Some(r) ==> regions_tile(r@, buffer@.len() as int),
            buffer@.len() == 0 ==> (res matches Some(r) && r@.len() == 0),
    {
        // The buffer's length in characters fits in a `usize`, and so do the regions' bounds.
        let _chars = buffer.unicode_len();
        let ghost sy = self.syntax_name();
        let ghost th = self.theme_name();
        let mut h = start_highlighting(&self.syntaxes, &self.syntax, &self.theme);
        let lines = lines_with_endings(buffer);
        let ghost lt = line_texts(lines@);
        proof {
            lemma_split_lines_joined(buffer@);
        }
        let mut tokens: Vec<HighlightToken> = Vec::new();
        assert(lt.take(0) =~= Seq::<Seq<char>>::empty());
        assert(lt.skip(0) =~= lt);
        assert(token_views(tokens@) =~= Seq::<(u8, u8, u8, Seq<char>)>::empty());
        assert(token_texts(tokens@) =~= Seq::<Seq<char>>::empty());
        assert(tokens_then(token_views(tokens@), tokens_of_lines(sy, th, lt.take(0), lt.skip(0)))
            == tokens_of_lines(sy, th, Seq::empty(), lt)) by {
            match tokens_of_lines(sy, th, Seq::empty(), lt) {
                Some(r) => {
                    assert(Seq::<(u8, u8, u8, Seq<char>)>::empty() + r =~= r);
                },
                None => {},
            }
        }
        for k in 0..lines.len()
            invariant
                lt == line_texts(lines@),
                lt == split_lines(buffer@),
                sy == self.syntax_name(),
                th == self.theme_name(),
                h.syntax_name() == sy,
                h.theme_name() == th,
                h.fed() == lt.take(k as int),
                tokens_of_lines(sy, th, Seq::empty(), lt) == tokens_then(
                    token_views(tokens@),
                    tokens_of_lines(sy, th, lt.take(k as int), lt.skip(k as int)),
                ),
                joined(token_texts(tokens@)) == joined(lt.take(k as int)),
        {
            let ghost before = tokens@;
            let ghost rest = lt.skip(k as int);
            assert(rest[0] == lt[k as int]);
            assert(lt[k as int] == lines@[k as int]@);
            assert(rest.drop_first() =~= lt.skip(k + 1));
            assert(lt.take(k as int).push(lt[k as int]) =~= lt.take(k + 1));
            match highlight_line(&mut h, lines[k].as_str()) {
                Some(ts) => {
                    let mut ts = ts;
                    let ghost tsv = ts@;
                    tokens.append(&mut ts);
                    proof {
                        assert(token_views(tokens@) =~= token_views(before) + token_views(tsv));
                        assert(token_texts(tokens@) =~= token_texts(before) + token_texts(tsv));
                        lemma_joined_concat(token_texts(before), token_texts(tsv));
                        lemma_joined_take_step(lt, k as int);
                        match tokens_of_lines(sy, th, lt.take(k + 1), lt.skip(k + 1)) {
                            Some(r) => {
                                assert(token_views(before) + (token_views(tsv) + r) =~= token_views(
                                    tokens@,
                                ) + r);
                            },
                            None => {},
                        }
                    }
                },
                None => {
                    return None;
                },
            }
        }
        assert(lt.take(lines@.len() as int) =~= lt);
        assert(lt.skip(lines@.len() as int) =~= Seq::<Seq<char>>::empty());
        assert(token_views(tokens@) + Seq::<(u8, u8, u8, Seq<char>)>::empty() =~= token_views(
            tokens@,
        ));
        let regions = regions_from_tokens(&tokens);
        proof {
            lemma_token_regions_tile(token_views(tokens@), regions@);
            assert(regions@ =~= regions_of_tokens(token_views(tokens@)));
        }
        Some(regions)
    }
}

} // verus!
