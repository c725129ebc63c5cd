//! The report as lines of text for a terminal.

use crate::report::{line_views, LineView, ReportLine, Token};
use crate::text::{pluralize, pluralized, texts};
use crossterm::style::{style, Color, Stylize};
use vstd::prelude::*;

verus! {

/// The colour a name is shown in.
#[derive(Clone, Copy, Debug, PartialEq, Eq, Structural)]
pub enum Tint {
    /// For what the user has selected.
    Green,
    /// For what the user has not selected.
    Red,
}

/// Whether `painted` spells `text` for a terminal: the text itself, with
/// whatever the terminal library writes before and after it; or nothing at
/// all, as for a console that takes no escape sequences.
pub open spec fn frames(painted: Seq<char>, text: Seq<char>) -> bool {
    painted.len() == 0 || exists|before: Seq<char>, after: Seq<char>|
        painted == #[trigger] (before + text + after)
}

/// A text frames itself.
pub proof fn lemma_text_frames_itself(text: Seq<char>)
    ensures
        frames(text, text),
{
    assert(text =~= Seq::<char>::empty() + text + Seq::<char>::empty());
}

/// Calls `crossterm::style::style` on `text`, sets the foreground colour with
/// `Stylize::with` and formats the styled text into a string. The crate
/// writes the sequence that sets the colour, the text as it is, and the
/// sequence that sets the colour back; where the environment has switched
/// colours off, the sequences name no colour, and on a console that takes no
/// escape sequences it writes nothing. Which of these comes back depends on the
/// process as well as on the arguments, so the result has no name: the
/// contract claims only that it is empty or holds the text, unchanged, between
/// what the crate puts around it.
#[verifier::external_body]
fn paint(text: &str, tint: Tint) -> (painted: String)
    ensures
        frames(painted@, text@),
{
    let color = match tint {
        Tint::Green => Color::Green,
        Tint::Red => Color::Red,
    };
    style(text).with(color).to_string()
}

impl Token {
    /// Green for a selected name, red for any other.
    pub fn tint(&self) -> (tint: Tint)
        ensures
            tint == if self.selected {
                Tint::Green
            } else {
                Tint::Red
            },
    {
        if self.selected {
            Tint::Green
        } else {
            Tint::Red
        }
    }
}

/// The name of the token as the terminal library styles it, in green where the
/// token is selected and in red where it is not: the name, unchanged, between
/// the sequences of the colour.
fn colorize(token: &Token) -> (painted: String)
    ensures
        frames(painted@, token@.text),
{
    paint(token.text.as_str(), token.tint())
}

/// The line that frames a header and closes the report.
pub open spec fn spec_rule() -> Seq<char> {
    "-----------------------"@
}

/// One decimal digit.
pub open spec fn digit(value: nat) -> Seq<char> {
    if value == 0 {
        "0"@
    } else if value == 1 {
        "1"@
    } else if value == 2 {
        "2"@
    } else if value == 3 {
        "3"@
    } else if value == 4 {
        "4"@
    } else if value == 5 {
        "5"@
    } else if value == 6 {
        "6"@
    } else if value == 7 {
        "7"@
    } else if value == 8 {
        "8"@
    } else {
        "9"@
    }
}

/// A number in decimal digits, without leading zeros.
pub open spec fn decimal(value: nat) -> Seq<char>
    decreases value,
{
    if value < 10 {
        digit(value)
    } else {
        decimal(value / 10) + digit(value % 10)
    }
}

/// `width` spaces.
pub open spec fn margin(width: nat) -> Seq<char>
    decreases width,
{
    if width == 0 {
        Seq::empty()
    } else {
        margin((width - 1) as nat) + " "@
    }
}

/// The text of a report line whose names are written as `names`.
///
/// A header takes three lines of text: `Needed by`, the count, a slash, the
/// total and `species`, between two rules. Any other line takes one: its
/// margin, an angle bracket and a space, and the names as alternatives linked
/// by `or`.
pub open spec fn rendered(line: LineView, names: Seq<Seq<char>>) -> Seq<Seq<char>> {
    match line {
        LineView::Header { count, total } => seq![
            spec_rule(),
            "Needed by "@ + decimal(count) + "/"@ + decimal(total) + " species"@,
            spec_rule(),
        ],
        _ => seq![margin(line.indent()) + "> "@ + pluralized(names, "or"@)],
    }
}

/// The names on a report line, as its tokens spell them.
pub open spec fn plain_names(line: LineView) -> Seq<Seq<char>> {
    match line {
        LineView::Header { .. } => Seq::empty(),
        LineView::Need { token, .. } => seq![token.text],
        LineView::Slot { alternatives } => Seq::new(
            alternatives.len(),
            |i: int| alternatives[i].text,
        ),
        LineView::Nested { alternatives } => Seq::new(
            alternatives.len(),
            |i: int| alternatives[i].text,
        ),
    }
}

/// The text of report lines, one after the other, where the names of line `i`
/// are written as `names[i]`.
pub open spec fn body(lines: Seq<LineView>, names: Seq<Seq<Seq<char>>>) -> Seq<Seq<char>>
    decreases lines.len(),
{
    if lines.len() == 0 {
        Seq::empty()
    } else {
        body(lines.drop_last(), names.drop_last()) + rendered(lines.last(), names.last())
    }
}

/// The text of a whole report: the text of its lines, closed by a rule.
pub open spec fn page(lines: Seq<LineView>, names: Seq<Seq<Seq<char>>>) -> Seq<Seq<char>> {
    body(lines, names) + seq![spec_rule()]
}

/// Whether `names` holds, for every line, as many names as the line has
/// tokens, each of them framing the name that its token spells.
pub open spec fn names_fit(lines: Seq<LineView>, names: Seq<Seq<Seq<char>>>) -> bool {
    &&& names.len() == lines.len()
    &&& forall|i: int|
        0 <= i < lines.len() ==> (#[trigger] names[i]).len() == plain_names(lines[i]).len()
    &&& forall|i: int, k: int|
        0 <= i < lines.len() && 0 <= k < names[i].len() ==> frames(
            #[trigger] names[i][k],
            plain_names(lines[i])[k],
        )
}

/// The names of all lines, as their tokens spell them.
pub open spec fn all_plain_names(lines: Seq<LineView>) -> Seq<Seq<Seq<char>>> {
    Seq::new(lines.len(), |i: int| plain_names(lines[i]))
}

fn digit_text(value: usize) -> (text: &'static str)
    requires
        value < 10,
    ensures
        text@ == digit(value as nat),
{
    if value == 0 {
        "0"
    } else if value == 1 {
        "1"
    } else if value == 2 {
        "2"
    } else if value == 3 {
        "3"
    } else if value == 4 {
        "4"
    } else if value == 5 {
        "5"
    } else if value == 6 {
        "6"
    } else if value == 7 {
        "7"
    } else if value == 8 {
        "8"
    } else {
        "9"
    }
}

/// Writes a number in decimal digits, without leading zeros.
pub fn decimal_string(value: usize) -> (text: String)
    ensures
        text@ == decimal(value as nat),
    decreases value,
{
    if value < 10 {
        String::from_str(digit_text(value))
    } else {
        let mut text = decimal_string(value / 10);
        text.append(digit_text(value % 10));
        text
    }
}

/// The line that frames a header and closes the report.
pub fn rule() -> (text: String)
    ensures
        text@ == spec_rule(),
{
    String::from_str("-----------------------")
}

impl ReportLine {
    /// The names on the line, as its tokens spell them, or in their colours.
    fn names(&self, colored: bool) -> (names: Vec<String>)
        ensures
            names@.len() == plain_names(self@).len(),
            forall|k: int|
                0 <= k < names@.len() ==> frames(#[trigger] names@[k]@, plain_names(self@)[k]),
            !colored ==> texts(names@) == plain_names(self@),
    {
        let mut names: Vec<String> = Vec::new();
        match self {
            ReportLine::Header { .. } => {},
            ReportLine::Need { token, .. } => {
                names.push(name_of(token, colored));
            },
            ReportLine::Slot { alternatives } => {
                names = names_of(alternatives, colored);
            },
            ReportLine::Nested { alternatives } => {
                names = names_of(alternatives, colored);
            },
        }
        assert(!colored ==> texts(names@) =~= plain_names(self@));
        names
    }

    /// The text of the line, with its names written as `names`.
    pub fn render(&self, names: &[String]) -> (text: Vec<String>)
        ensures
            texts(text@) == rendered(self@, texts(names@)),
    {
        let mut text: Vec<String> = Vec::new();
        match self {
            ReportLine::Header { count, total } => {
                let mut heading = String::from_str("Needed by ");
                heading.append(decimal_string(*count).as_str());
                heading.append("/");
                heading.append(decimal_string(*total).as_str());
                heading.append(" species");
                text.push(rule());
                text.push(heading);
                text.push(rule());
            },
            _ => {
                let mut line = String::new();
                let width: usize = self.indent();
                let mut i: usize = 0;
                assert(line@ =~= margin(0));
                while i < width
                    invariant
                        i <= width,
                        line@ == margin(i as nat),
                    decreases width - i,
                {
                    line.append(" ");
                    i += 1;
                }
                line.append("> ");
                line.append(pluralize(names, "or").as_str());
                text.push(line);
            },
        }
        assert(texts(text@) =~= rendered(self@, texts(names@)));
        text
    }
}

fn name_of(token: &Token, colored: bool) -> (name: String)
    ensures
        frames(name@, token@.text),
        !colored ==> name@ == token@.text,
{
    if colored {
        colorize(token)
    } else {
        proof {
            lemma_text_frames_itself(token@.text);
        }
        token.text.clone()
    }
}

fn names_of(tokens: &Vec<Token>, colored: bool) -> (names: Vec<String>)
    ensures
        names@.len() == tokens@.len(),
        forall|i: int|
            0 <= i < tokens@.len() ==> frames(#[trigger] names@[i]@, tokens@[i]@.text),
        !colored ==> forall|i: int| 0 <= i < tokens@.len() ==> names@[i]@ == tokens@[i]@.text,
{
    let mut names: Vec<String> = Vec::new();
    let mut i: usize = 0;
    while i < tokens.len()
        invariant
            i <= tokens@.len(),
            names@.len() == i,
            forall|j: int| 0 <= j < i ==> frames(#[trigger] names@[j]@, tokens@[j]@.text),
            !colored ==> forall|j: int| 0 <= j < i ==> names@[j]@ == tokens@[j]@.text,
        decreases tokens@.len() - i,
    {
        names.push(name_of(&tokens[i], colored));
        i += 1;
    }
    names
}

fn lay_out(lines: &Vec<ReportLine>, colored: bool) -> (out: (
    Vec<String>,
    Ghost<Seq<Seq<Seq<char>>>>,
))
    ensures
        names_fit(line_views(lines@), out.1@),
        texts(out.0@) == page(line_views(lines@), out.1@),
        !colored ==> out.1@ == all_plain_names(line_views(lines@)),
{
    let ghost views = line_views(lines@);
    let ghost mut written: Seq<Seq<Seq<char>>> = Seq::empty();
    let mut text: Vec<String> = Vec::new();
    let mut i: usize = 0;
    assert(texts(text@) =~= body(views.take(0), written));
    while i < lines.len()
        invariant
            i <= lines@.len(),
            views == line_views(lines@),
            written.len() == i,
            forall|j: int|
                0 <= j < i ==> (#[trigger] written[j]).len() == plain_names(views[j]).len(),
            forall|j: int, k: int|
                0 <= j < i && 0 <= k < written[j].len() ==> frames(
                    #[trigger] written[j][k],
                    plain_names(views[j])[k],
                ),
            !colored ==> forall|j: int|
                0 <= j < i ==> #[trigger] written[j] == plain_names(views[j]),
            texts(text@) == body(views.take(i as int), written),
        decreases lines@.len() - i,
    {
        let names = lines[i].names(colored);
        let mut more = lines[i].render(names.as_slice());
        proof {
            let before = texts(text@);
            let added = texts(more@);
            let longer = written.push(texts(names@));
            assert(views.take(i + 1).drop_last() =~= views.take(i as int));
            assert(views.take(i + 1).last() == lines@[i as int]@);
            assert(longer.drop_last() =~= written);
            assert(longer.last() == texts(names@));
            written = longer;
        }
        let ghost before = texts(text@);
        let ghost added = texts(more@);
        text.append(&mut more);
        assert(texts(text@) =~= before + added);
        i += 1;
    }
    assert(views.take(i as int) =~= views);
    let ghost before = texts(text@);
    text.push(rule());
    assert(texts(text@) =~= before + seq![spec_rule()]);
    assert(!colored ==> written =~= all_plain_names(views));
    (text, Ghost(written))
}

/// The report as plain text, line by line, closed by a rule.
pub fn plain_page(lines: &Vec<ReportLine>) -> (text: Vec<String>)
    ensures
        texts(text@) == page(line_views(lines@), all_plain_names(line_views(lines@))),
{
    lay_out(lines, false).0
}

/// The report as text for a terminal, line by line, closed by a rule: every
/// name is written in green where it is selected and in red where it is not.
///
/// How a coloured name is spelled is up to the terminal library and its
/// environment. Whatever it answers, the text is that of [`page`] with one
/// spelling for every token, and every spelling frames the name of its token
/// ([`frames`]).
pub fn colored_page(lines: &Vec<ReportLine>) -> (text: Vec<String>)
    ensures
        exists|names: Seq<Seq<Seq<char>>>|
            names_fit(line_views(lines@), names) && texts(text@) == #[trigger] page(
                line_views(lines@),
                names,
            ),
{
    lay_out(lines, true).0
}

} // verus!
