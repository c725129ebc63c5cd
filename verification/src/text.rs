//! Display names and the joining of alternatives into one phrase.

use convert_case::{Case, Casing};
use vstd::prelude::*;

verus! {

/// The two letter cases this crate renders names in.
#[derive(Clone, Copy, Debug, PartialEq, Eq, Structural)]
pub enum LetterCase {
    /// Words capitalised and separated by single spaces: `Pickled Goods`.
    Title,
    /// Words capitalised and run together: `PickledGoods`.
    UpperCamel,
}

/// What `convert_case` makes of `text` when asked for `case`.
pub uninterp spec fn recased(text: Seq<char>, case: LetterCase) -> Seq<char>;

/// Calls `convert_case::Casing::to_case` on `text` with `Case::Title` or
/// `Case::UpperCamel`. The crate splits the text into words at its default
/// boundaries, capitalises each word and joins them with the delimiter of the
/// case; the outcome depends on the two arguments alone and is named by
/// [`recased`]. Nothing more is claimed of it.
#[verifier::external_body]
fn recase(text: &str, case: LetterCase) -> (out: String)
    ensures
        out@ == recased(text@, case),
{
    let target = match case {
        LetterCase::Title => Case::Title,
        LetterCase::UpperCamel => Case::UpperCamel,
    };
    text.to_case(target)
}

/// The display name of a symbolic name: `PickledGoods` becomes `Pickled Goods`.
pub open spec fn title_of(name: Seq<char>) -> Seq<char> {
    recased(name, LetterCase::Title)
}

/// Renders a symbolic name in title case with spaces.
pub fn titleize(name: &str) -> (out: String)
    ensures
        out@ == title_of(name@),
{
    recase(name, LetterCase::Title)
}

/// Renders a text in upper camel case.
pub fn pascalize(text: &str) -> (out: String)
    ensures
        out@ == recased(text@, LetterCase::UpperCamel),
{
    recase(text, LetterCase::UpperCamel)
}

/// The texts of a list of strings.
pub open spec fn texts(items: Seq<String>) -> Seq<Seq<char>> {
    Seq::new(items.len(), |i: int| items[i]@)
}

/// `items` written one after the other, with `separator` between neighbours.
pub open spec fn joined(items: Seq<Seq<char>>, separator: Seq<char>) -> Seq<char>
    decreases items.len(),
{
    if items.len() == 0 {
        Seq::empty()
    } else if items.len() == 1 {
        items[0]
    } else {
        joined(items.drop_last(), separator) + separator + items.last()
    }
}

/// Writes `items` one after the other, with `separator` between neighbours.
pub fn join(items: &[String], separator: &str) -> (line: String)
    ensures
        line@ == joined(texts(items@), separator@),
{
    let mut line = String::new();
    let mut i: usize = 0;
    while i < items.len()
        invariant
            i <= items@.len(),
            line@ == joined(texts(items@).take(i as int), separator@),
        decreases items@.len() - i,
    {
        if i > 0 {
            line.append(separator);
        }
        line.append(items[i].as_str());
        proof {
            let all = texts(items@);
            assert(all.take(i + 1).drop_last() =~= all.take(i as int));
            assert(all.take(i + 1).last() == items@[i as int]@);
            if i == 0 {
                assert(line@ =~= all.take(1)[0]);
            }
        }
        i += 1;
    }
    assert(texts(items@).take(i as int) =~= texts(items@));
    line
}

/// The phrase that names `items` as alternatives linked by `word`:
/// `None` for no item, the item itself for one, `a word b` for two, and for
/// three or more all but the last separated by `, `, followed by
/// `, word last`.
pub open spec fn pluralized(items: Seq<Seq<char>>, word: Seq<char>) -> Seq<char> {
    if items.len() == 0 {
        "None"@
    } else if items.len() == 1 {
        items[0]
    } else if items.len() == 2 {
        items[0] + " "@ + word + " "@ + items[1]
    } else {
        joined(items.drop_last(), ", "@) + ", "@ + word + " "@ + items.last()
    }
}

/// Names `options` as alternatives linked by `separator_word`.
///
/// `["Wood", "Oil", "Coal"]` with `or` reads `Wood, Oil, or Coal`; two options
/// take no comma: `Wood or Oil`.
pub fn pluralize(options: &[String], separator_word: &str) -> (phrase: String)
    ensures
        phrase@ == pluralized(texts(options@), separator_word@),
{
    let count: usize = options.len();
    if count == 0 {
        String::from_str("None")
    } else if count == 1 {
        options[0].clone()
    } else if count == 2 {
        let mut phrase = options[0].clone();
        phrase.append(" ");
        phrase.append(separator_word);
        phrase.append(" ");
        phrase.append(options[1].as_str());
        phrase
    } else {
        let (rest, last) = options.split_at(count - 1);
        assert(texts(rest@) =~= texts(options@).drop_last());
        let mut phrase = join(rest, ", ");
        phrase.append(", ");
        phrase.append(separator_word);
        phrase.append(" ");
        phrase.append(last[0].as_str());
        phrase
    }
}

} // verus!
