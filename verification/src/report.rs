//! The report: the shared needs, rank by rank, each with what it is made from.

use crate::menu::contains_text;
use crate::needs::Need;
use crate::recipe::{slot_lists, Recipe};
use crate::resource::Resource;
use crate::tally::precedes;
use crate::text::texts;
use vstd::prelude::*;

verus! {

/// A name in the report, and whether the user has selected what it names.
#[derive(Debug, PartialEq, Eq)]
pub struct Token {
    /// The display name.
    pub text: String,
    /// Whether the display name is among the selected ones.
    pub selected: bool,
}

/// One line of the report.
#[derive(Debug, PartialEq, Eq)]
pub enum ReportLine {
    /// Heads the needs that `count` of the `total` selected species share.
    Header { count: usize, total: usize },
    /// A shared need.
    Need { need: Need, token: Token },
    /// One ingredient slot of a need, with its alternatives.
    Slot { alternatives: Vec<Token> },
    /// One ingredient slot of the only alternative of the slot above.
    Nested { alternatives: Vec<Token> },
}

/// A [`Token`] as a value.
pub struct TokenView {
    pub text: Seq<char>,
    pub selected: bool,
}

/// A [`ReportLine`] as a value.
pub enum LineView {
    Header { count: nat, total: nat },
    Need { need: Need, token: TokenView },
    Slot { alternatives: Seq<TokenView> },
    Nested { alternatives: Seq<TokenView> },
}

impl View for Token {
    type V = TokenView;

    open spec fn view(&self) -> TokenView {
        TokenView { text: self.text@, selected: self.selected }
    }
}

/// The tokens of a list as values.
pub open spec fn token_views(tokens: Seq<Token>) -> Seq<TokenView> {
    Seq::new(tokens.len(), |i: int| tokens[i]@)
}

impl View for ReportLine {
    type V = LineView;

    open spec fn view(&self) -> LineView {
        match self {
            ReportLine::Header { count, total } => LineView::Header {
                count: *count as nat,
                total: *total as nat,
            },
            ReportLine::Need { need, token } => LineView::Need { need: *need, token: token@ },
            ReportLine::Slot { alternatives } => LineView::Slot {
                alternatives: token_views(alternatives@),
            },
            ReportLine::Nested { alternatives } => LineView::Nested {
                alternatives: token_views(alternatives@),
            },
        }
    }
}

/// The lines of a list as values.
pub open spec fn line_views(lines: Seq<ReportLine>) -> Seq<LineView> {
    Seq::new(lines.len(), |i: int| lines[i]@)
}

impl LineView {
    /// How many columns the line is set in from the margin: none for a
    /// header, one for a need, two for a slot, four for a nested slot.
    pub open spec fn indent(self) -> nat {
        match self {
            LineView::Header { .. } => 0,
            LineView::Need { .. } => 1,
            LineView::Slot { .. } => 2,
            LineView::Nested { .. } => 4,
        }
    }
}

impl ReportLine {
    /// How many columns the line is set in from the margin: none for a
    /// header, one for a need, two for a slot, four for a nested slot.
    pub fn indent(&self) -> (columns: usize)
        ensures
            columns == self@.indent(),
    {
        match self {
            ReportLine::Header { .. } => 0,
            ReportLine::Need { .. } => 1,
            ReportLine::Slot { .. } => 2,
            ReportLine::Nested { .. } => 4,
        }
    }
}

/// The token for a display name: selected if `facets`, the display names of
/// everything the user has selected, holds it.
pub open spec fn token_for(label: Seq<char>, facets: Seq<Seq<char>>) -> TokenView {
    TokenView { text: label, selected: facets.contains(label) }
}

/// The tokens for the alternatives of a slot, in order.
pub open spec fn slot_tokens(slot: Seq<Resource>, facets: Seq<Seq<char>>) -> Seq<TokenView> {
    Seq::new(slot.len(), |i: int| token_for(slot[i].spec_label(), facets))
}

/// One nested line for each slot of `recipe`.
pub open spec fn nested_lines(recipe: Seq<Seq<Resource>>, facets: Seq<Seq<char>>) -> Seq<
    LineView,
> {
    Seq::new(
        recipe.len(),
        |i: int| LineView::Nested { alternatives: slot_tokens(recipe[i], facets) },
    )
}

/// The lines for one slot: the slot itself and, where it has exactly one
/// alternative, the recipe of that alternative, nested. The nesting goes no
/// deeper.
pub open spec fn slot_lines(slot: Seq<Resource>, facets: Seq<Seq<char>>) -> Seq<LineView> {
    seq![LineView::Slot { alternatives: slot_tokens(slot, facets) }] + if slot.len() == 1 {
        nested_lines(slot[0].slots(), facets)
    } else {
        Seq::empty()
    }
}

/// The lines for a recipe: those of its slots, one slot after the other.
pub open spec fn recipe_lines(recipe: Seq<Seq<Resource>>, facets: Seq<Seq<char>>) -> Seq<
    LineView,
>
    decreases recipe.len(),
{
    if recipe.len() == 0 {
        Seq::empty()
    } else {
        recipe_lines(recipe.drop_last(), facets) + slot_lines(recipe.last(), facets)
    }
}

/// The lines for a need: the need itself, followed by the lines for its recipe.
pub open spec fn need_lines(need: Need, facets: Seq<Seq<char>>) -> Seq<LineView> {
    seq![LineView::Need { need, token: token_for(need.spec_label(), facets) }] + recipe_lines(
        need.slots(),
        facets,
    )
}

/// The count of the last entry of `ranking` that the report shows, if it
/// shows any.
pub open spec fn last_shown(ranking: Seq<(Need, usize)>) -> Option<usize>
    decreases ranking.len(),
{
    if ranking.len() == 0 {
        None
    } else if ranking.last().1 >= 2 {
        Some(ranking.last().1)
    } else {
        last_shown(ranking.drop_last())
    }
}

/// The lines for one entry of a ranking that follows the entries `before`:
/// none for a need that fewer than two species share; otherwise the lines for
/// the need, under a new header where no shown need precedes it or the last
/// one shown has another count.
pub open spec fn entry_lines(
    before: Seq<(Need, usize)>,
    entry: (Need, usize),
    total: usize,
    facets: Seq<Seq<char>>,
) -> Seq<LineView> {
    if entry.1 >= 2 {
        if last_shown(before) == Some(entry.1) {
            need_lines(entry.0, facets)
        } else {
            seq![LineView::Header { count: entry.1 as nat, total: total as nat }] + need_lines(
                entry.0,
                facets,
            )
        }
    } else {
        Seq::empty()
    }
}

/// The report on a ranking: the lines for its entries, one entry after the
/// other.
pub open spec fn report_lines(
    ranking: Seq<(Need, usize)>,
    total: usize,
    facets: Seq<Seq<char>>,
) -> Seq<LineView>
    decreases ranking.len(),
{
    if ranking.len() == 0 {
        Seq::empty()
    } else {
        report_lines(ranking.drop_last(), total, facets) + entry_lines(
            ranking.drop_last(),
            ranking.last(),
            total,
            facets,
        )
    }
}

/// The token for a display name: selected if `selected_facets` holds it.
pub fn token(label: String, selected_facets: &Vec<String>) -> (token: Token)
    ensures
        token@ == token_for(label@, texts(selected_facets@)),
{
    let selected = contains_text(selected_facets, &label);
    Token { text: label, selected }
}

/// The tokens for the alternatives of a slot, in order.
pub fn tokens(slot: &Vec<Resource>, selected_facets: &Vec<String>) -> (tokens: Vec<Token>)
    ensures
        token_views(tokens@) == slot_tokens(slot@, texts(selected_facets@)),
{
    let mut tokens: Vec<Token> = Vec::new();
    let mut i: usize = 0;
    while i < slot.len()
        invariant
            i <= slot@.len(),
            tokens@.len() == i,
            forall|j: int|
                0 <= j < i ==> (#[trigger] tokens@[j])@ == token_for(
                    slot@[j].spec_label(),
                    texts(selected_facets@),
                ),
        decreases slot@.len() - i,
    {
        tokens.push(token(slot[i].to_string(), selected_facets));
        i += 1;
    }
    assert(token_views(tokens@) =~= slot_tokens(slot@, texts(selected_facets@)));
    tokens
}

/// Adds the lines for `recipe` to `lines`: for each slot the alternatives,
/// and under a slot with one alternative the slots of that alternative.
fn push_recipe_lines(
    lines: &mut Vec<ReportLine>,
    recipe: &Vec<Vec<Resource>>,
    selected_facets: &Vec<String>,
)
    ensures
        line_views(final(lines)@) == line_views(old(lines)@) + recipe_lines(
            slot_lists(*recipe),
            texts(selected_facets@),
        ),
{
    let ghost facets = texts(selected_facets@);
    let ghost slots = slot_lists(*recipe);
    let mut i: usize = 0;
    assert(line_views(lines@) =~= line_views(old(lines)@) + recipe_lines(slots.take(0), facets));
    while i < recipe.len()
        invariant
            i <= recipe@.len(),
            facets == texts(selected_facets@),
            slots == slot_lists(*recipe),
            line_views(lines@) == line_views(old(lines)@) + recipe_lines(
                slots.take(i as int),
                facets,
            ),
        decreases recipe@.len() - i,
    {
        let ghost before = line_views(lines@);
        let slot = &recipe[i];
        lines.push(ReportLine::Slot { alternatives: tokens(slot, selected_facets) });
        assert(line_views(lines@) =~= before + seq![
            LineView::Slot { alternatives: slot_tokens(slot@, facets) },
        ]);
        if slot.len() == 1 {
            let nested = slot[0].recipe();
            let ghost inner = slot_lists(nested);
            let ghost above = line_views(lines@);
            let mut k: usize = 0;
            while k < nested.len()
                invariant
                    k <= nested@.len(),
                    facets == texts(selected_facets@),
                    inner == slot_lists(nested),
                    line_views(lines@) == above + nested_lines(inner, facets).take(k as int),
                decreases nested@.len() - k,
            {
                let ghost so_far = line_views(lines@);
                let alternatives = tokens(&nested[k], selected_facets);
                lines.push(ReportLine::Nested { alternatives });
                assert(line_views(lines@) =~= so_far + seq![nested_lines(inner, facets)[k as int]]);
                assert(nested_lines(inner, facets).take(k + 1) =~= nested_lines(
                    inner,
                    facets,
                ).take(k as int) + seq![nested_lines(inner, facets)[k as int]]);
                k += 1;
            }
            assert(nested_lines(inner, facets).take(k as int) =~= nested_lines(inner, facets));
        }
        proof {
            assert(slots.take(i + 1).drop_last() =~= slots.take(i as int));
            assert(slots.take(i + 1).last() == slot@);
            assert(line_views(lines@) =~= before + slot_lines(slot@, facets));
        }
        i += 1;
    }
    assert(slots.take(i as int) =~= slots);
}

/// The lines for a recipe: for each slot the alternatives, and under a slot
/// with one alternative the slots of that alternative.
pub fn recipe_report(recipe: &Vec<Vec<Resource>>, selected_facets: &Vec<String>) -> (lines: Vec<
    ReportLine,
>)
    ensures
        line_views(lines@) == recipe_lines(slot_lists(*recipe), texts(selected_facets@)),
{
    let mut lines: Vec<ReportLine> = Vec::new();
    push_recipe_lines(&mut lines, recipe, selected_facets);
    assert(line_views(lines@) =~= recipe_lines(slot_lists(*recipe), texts(selected_facets@)));
    lines
}

/// The report on a ranking.
///
/// Needs that fewer than two species share are left out. The others appear in
/// the order of the ranking, each followed by its recipe, and a header stands
/// before every need whose count is not that of the need shown before it.
/// `selected_facets` holds the display names of what the user has selected.
pub fn report(ranking: &Vec<(Need, usize)>, total: usize, selected_facets: &Vec<String>) -> (lines:
    Vec<ReportLine>)
    ensures
        line_views(lines@) == report_lines(ranking@, total, texts(selected_facets@)),
{
    let ghost facets = texts(selected_facets@);
    let mut lines: Vec<ReportLine> = Vec::new();
    let mut last_count: Option<usize> = None;
    let mut i: usize = 0;
    assert(line_views(lines@) =~= report_lines(ranking@.take(0), total, facets));
    while i < ranking.len()
        invariant
            i <= ranking@.len(),
            facets == texts(selected_facets@),
            last_count == last_shown(ranking@.take(i as int)),
            line_views(lines@) == report_lines(ranking@.take(i as int), total, facets),
        decreases ranking@.len() - i,
    {
        let ghost before = line_views(lines@);
        let (need, count) = ranking[i];
        proof {
            assert(ranking@.take(i + 1).drop_last() =~= ranking@.take(i as int));
            assert(ranking@.take(i + 1).last() == ranking@[i as int]);
        }
        if count >= 2 {
            let fresh = match last_count {
                Some(shown) => shown != count,
                None => true,
            };
            if fresh {
                lines.push(ReportLine::Header { count, total });
                last_count = Some(count);
            }
            let ghost headed = line_views(lines@);
            lines.push(ReportLine::Need { need, token: token(need.to_string(), selected_facets) });
            let ghost named = line_views(lines@);
            assert(named =~= headed + seq![
                LineView::Need { need, token: token_for(need.spec_label(), facets) },
            ]);
            push_recipe_lines(&mut lines, &need.recipe(), selected_facets);
            proof {
                if fresh {
                    assert(headed =~= before + seq![
                        LineView::Header { count: count as nat, total: total as nat },
                    ]);
                } else {
                    assert(headed =~= before);
                }
                assert(line_views(lines@) =~= before + entry_lines(
                    ranking@.take(i as int),
                    ranking@[i as int],
                    total,
                    facets,
                ));
            }
        }
        i += 1;
    }
    assert(ranking@.take(i as int) =~= ranking@);
    lines
}

/// The needs that the lines show, in order.
pub open spec fn shown_needs(lines: Seq<LineView>) -> Seq<Need>
    decreases lines.len(),
{
    if lines.len() == 0 {
        Seq::empty()
    } else {
        match lines.last() {
            LineView::Need { need, .. } => shown_needs(lines.drop_last()).push(need),
            _ => shown_needs(lines.drop_last()),
        }
    }
}

/// The needs of a ranking that two or more species share, in order.
pub open spec fn shared_needs(ranking: Seq<(Need, usize)>) -> Seq<Need>
    decreases ranking.len(),
{
    if ranking.len() == 0 {
        Seq::empty()
    } else if ranking.last().1 >= 2 {
        shared_needs(ranking.drop_last()).push(ranking.last().0)
    } else {
        shared_needs(ranking.drop_last())
    }
}

proof fn lemma_shown_needs_of_both(front: Seq<LineView>, back: Seq<LineView>)
    ensures
        shown_needs(front + back) == shown_needs(front) + shown_needs(back),
    decreases back.len(),
{
    if back.len() == 0 {
        assert(front + back =~= front);
        assert(shown_needs(front) + shown_needs(back) =~= shown_needs(front));
    } else {
        lemma_shown_needs_of_both(front, back.drop_last());
        assert((front + back).drop_last() =~= front + back.drop_last());
        assert((front + back).last() == back.last());
        match back.last() {
            LineView::Need { need, .. } => {
                assert(shown_needs(front + back) =~= shown_needs(front) + shown_needs(back));
            },
            _ => {},
        }
    }
}

proof fn lemma_no_need_shown(lines: Seq<LineView>)
    requires
        forall|i: int| 0 <= i < lines.len() ==> !(lines[i] is Need),
    ensures
        shown_needs(lines) == Seq::<Need>::empty(),
    decreases lines.len(),
{
    if lines.len() > 0 {
        lemma_no_need_shown(lines.drop_last());
    }
}

proof fn lemma_recipe_shows_no_need(recipe: Seq<Seq<Resource>>, facets: Seq<Seq<char>>)
    ensures
        shown_needs(recipe_lines(recipe, facets)) == Seq::<Need>::empty(),
    decreases recipe.len(),
{
    if recipe.len() > 0 {
        lemma_recipe_shows_no_need(recipe.drop_last(), facets);
        lemma_no_need_shown(slot_lines(recipe.last(), facets));
        lemma_shown_needs_of_both(
            recipe_lines(recipe.drop_last(), facets),
            slot_lines(recipe.last(), facets),
        );
    }
}

/// The report shows the needs that two or more species share, each once and
/// in the order of the ranking, and no other need.
pub proof fn lemma_report_shows_shared_needs(
    ranking: Seq<(Need, usize)>,
    total: usize,
    facets: Seq<Seq<char>>,
)
    ensures
        shown_needs(report_lines(ranking, total, facets)) == shared_needs(ranking),
    decreases ranking.len(),
{
    if ranking.len() > 0 {
        let before = ranking.drop_last();
        let entry = ranking.last();
        lemma_report_shows_shared_needs(before, total, facets);
        lemma_shown_needs_of_both(
            report_lines(before, total, facets),
            entry_lines(before, entry, total, facets),
        );
        if entry.1 >= 2 {
            let named = seq![
                LineView::Need { need: entry.0, token: token_for(entry.0.spec_label(), facets) },
            ];
            let made = recipe_lines(entry.0.slots(), facets);
            let header = seq![LineView::Header { count: entry.1 as nat, total: total as nat }];
            lemma_recipe_shows_no_need(entry.0.slots(), facets);
            lemma_shown_needs_of_both(named, made);
            assert(shown_needs(named.drop_last()) =~= Seq::<Need>::empty());
            assert(shown_needs(named) =~= seq![entry.0]);
            lemma_no_need_shown(header);
            lemma_shown_needs_of_both(header, named + made);
            assert(shown_needs(entry_lines(before, entry, total, facets)) =~= seq![entry.0]);
        }
    }
}

/// In a ranking, a need that two or more species share stands under a new
/// header exactly if no need before it has the same count: every count has
/// one header, which stands before the first need of that count.
pub proof fn lemma_one_header_for_each_count(ranking: Seq<(Need, usize)>, i: int)
    requires
        forall|a: int, b: int|
            0 <= a < b < ranking.len() ==> precedes(#[trigger] ranking[a], #[trigger] ranking[b]),
        0 <= i < ranking.len(),
        ranking[i].1 >= 2,
    ensures
        last_shown(ranking.take(i)) != Some(ranking[i].1) <==> forall|j: int|
            0 <= j < i ==> (#[trigger] ranking[j]).1 != ranking[i].1,
{
    let before = ranking.take(i);
    if i > 0 {
        assert(before.last() == ranking[i - 1]);
        assert(precedes(ranking[i - 1], ranking[i]));
        assert(last_shown(before) == Some(ranking[i - 1].1));
        if ranking[i - 1].1 != ranking[i].1 {
            assert forall|j: int| 0 <= j < i implies (#[trigger] ranking[j]).1 != ranking[i].1 by {
                if j < i - 1 {
                    assert(precedes(ranking[j], ranking[i - 1]));
                }
            }
        }
    }
}

} // verus!
