//! Selection state: menus that remember which of their options are checked.

use crate::facet::Facet;
use crate::text::texts;
use vstd::prelude::*;

verus! {

/// The display names of `options`, in order.
pub open spec fn labels<T: Facet>(options: Seq<T>) -> Seq<Seq<char>> {
    Seq::new(options.len(), |i: int| options[i].label())
}

/// For each option, whether `selected` holds it.
pub open spec fn marks<T>(options: Seq<T>, selected: Seq<T>) -> Seq<bool> {
    Seq::new(options.len(), |i: int| selected.contains(options[i]))
}

/// For each option, whether `selected` holds its display name.
pub open spec fn text_marks<T: Facet>(options: Seq<T>, selected: Seq<Seq<char>>) -> Seq<bool> {
    Seq::new(options.len(), |i: int| selected.contains(options[i].label()))
}

/// The positions at which `checked` is set, in ascending order.
pub open spec fn checked_indexes(checked: Seq<bool>) -> Seq<usize>
    decreases checked.len(),
{
    if checked.len() == 0 {
        Seq::empty()
    } else if checked.last() {
        checked_indexes(checked.drop_last()).push((checked.len() - 1) as usize)
    } else {
        checked_indexes(checked.drop_last())
    }
}

/// The options whose mark is set, in order.
pub open spec fn picked<T>(options: Seq<T>, checked: Seq<bool>) -> Seq<T>
    decreases options.len(),
{
    if options.len() == 0 {
        Seq::empty()
    } else if checked[options.len() - 1] {
        picked(options.drop_last(), checked).push(options.last())
    } else {
        picked(options.drop_last(), checked)
    }
}

/// [`checked_indexes`] lists exactly the set positions, each once and in
/// ascending order.
pub proof fn lemma_checked_indexes(checked: Seq<bool>)
    requires
        checked.len() <= usize::MAX,
    ensures
        forall|k: int|
            0 <= k < checked_indexes(checked).len() ==> (#[trigger] checked_indexes(checked)[k])
                < checked.len() && checked[checked_indexes(checked)[k] as int],
        forall|i: int|
            0 <= i < checked.len() && checked[i] ==> #[trigger] checked_indexes(checked).contains(
                i as usize,
            ),
        forall|k: int, m: int|
            0 <= k < m < checked_indexes(checked).len() ==> checked_indexes(checked)[k]
                < checked_indexes(checked)[m],
        checked_indexes(checked).len() <= checked.len(),
    decreases checked.len(),
{
    if checked.len() > 0 {
        let front = checked.drop_last();
        lemma_checked_indexes(front);
        let shown = checked_indexes(checked);
        let before = checked_indexes(front);
        let end = (checked.len() - 1) as usize;
        assert forall|i: int| 0 <= i < checked.len() && checked[i] implies #[trigger]
            shown.contains(i as usize) by {
            if i < checked.len() - 1 {
                assert(front[i]);
                assert(before.contains(i as usize));
                let at = choose|at: int| 0 <= at < before.len() && before[at] == i as usize;
                assert(shown[at] == i as usize);
            } else {
                assert(shown[shown.len() - 1] == end);
            }
        }
    }
}

proof fn lemma_picked_reads_its_own_marks<T>(options: Seq<T>, checked: Seq<bool>, other: Seq<bool>)
    requires
        forall|i: int| 0 <= i < options.len() ==> checked[i] == other[i],
    ensures
        picked(options, checked) == picked(options, other),
    decreases options.len(),
{
    if options.len() > 0 {
        lemma_picked_reads_its_own_marks(options.drop_last(), checked, other);
    }
}

/// The picked options are the options at the checked positions, in order; so
/// nothing is picked exactly if nothing is checked.
pub proof fn lemma_picked_at_checked<T>(options: Seq<T>, checked: Seq<bool>)
    requires
        options.len() == checked.len() <= usize::MAX,
    ensures
        picked(options, checked).len() == checked_indexes(checked).len(),
        forall|k: int|
            0 <= k < picked(options, checked).len() ==> #[trigger] picked(options, checked)[k]
                == options[checked_indexes(checked)[k] as int],
        picked(options, checked).len() == 0 <==> forall|i: int|
            0 <= i < checked.len() ==> !checked[i],
    decreases options.len(),
{
    lemma_checked_indexes(checked);
    if options.len() > 0 {
        lemma_picked_at_checked(options.drop_last(), checked.drop_last());
        lemma_picked_reads_its_own_marks(options.drop_last(), checked, checked.drop_last());
        lemma_checked_indexes(checked.drop_last());
    }
    if picked(options, checked).len() > 0 {
        assert(checked[checked_indexes(checked)[0] as int]);
    }
    if exists|i: int| 0 <= i < checked.len() && checked[i] {
        let i = choose|i: int| 0 <= i < checked.len() && checked[i];
        assert(checked_indexes(checked).contains(i as usize));
    }
}

/// Once a selection is applied, an option's position is among the checked
/// indexes exactly if the selection holds that option.
pub proof fn lemma_selection_is_shown<T>(options: Seq<T>, selected: Seq<T>, i: int)
    requires
        0 <= i < options.len() <= usize::MAX,
    ensures
        checked_indexes(marks(options, selected)).contains(i as usize) <==> selected.contains(
            options[i],
        ),
{
    let checked = marks(options, selected);
    lemma_checked_indexes(checked);
    let shown = checked_indexes(checked);
    if shown.contains(i as usize) {
        let at = choose|at: int| 0 <= at < shown.len() && shown[at] == i as usize;
        assert(checked[shown[at] as int]);
    }
}

/// Once a selection by display names is applied, an option's position is among
/// the checked indexes exactly if the selection holds the option's display
/// name.
pub proof fn lemma_text_selection_is_shown<T: Facet>(
    options: Seq<T>,
    selected: Seq<Seq<char>>,
    i: int,
)
    requires
        0 <= i < options.len() <= usize::MAX,
    ensures
        checked_indexes(text_marks(options, selected)).contains(i as usize) <==> selected.contains(
            options[i].label(),
        ),
{
    let checked = text_marks(options, selected);
    lemma_checked_indexes(checked);
    let shown = checked_indexes(checked);
    if shown.contains(i as usize) {
        let at = choose|at: int| 0 <= at < shown.len() && shown[at] == i as usize;
        assert(checked[shown[at] as int]);
    }
}

/// When a menu is opened again after an answer, exactly the options that the
/// answer named are checked: the view lists the position of an option among
/// the selected indexes if, and only if, the answer holds the display name of
/// that option.
pub proof fn lemma_view_shows_answer<T: Facet>(
    before: MultiSelectMenu<T>,
    after: MultiSelectMenu<T>,
    selected: Seq<Seq<char>>,
    view: MenuView,
    i: int,
)
    requires
        after.took(&before, selected),
        view.shows(after.options(), after.checked()),
        0 <= i < view.options@.len() <= usize::MAX,
    ensures
        view.selected_indexes@.contains(i as usize) <==> selected.contains(view.options@[i]@),
{
    let options = before.options();
    assert(texts(view.options@).len() == labels(options).len());
    assert(texts(view.options@)[i] == labels(options)[i]);
    lemma_text_selection_is_shown(options, selected, i);
}

/// What a menu shows when it is opened.
#[derive(Debug, PartialEq, Eq)]
pub struct MenuView {
    /// The positions of the checked options, in ascending order.
    pub selected_indexes: Vec<usize>,
    /// The display names of all options, in menu order.
    pub options: Vec<String>,
    /// Whether no option is checked.
    pub is_empty: bool,
}

impl MenuView {
    /// Whether this is what a menu with the given options and marks shows:
    /// the display names of all options, the positions of the set marks, and
    /// whether no mark is set.
    pub open spec fn shows<T: Facet>(&self, options: Seq<T>, checked: Seq<bool>) -> bool {
        &&& texts(self.options@) == labels(options)
        &&& self.selected_indexes@ == checked_indexes(checked)
        &&& self.is_empty == (forall|i: int| 0 <= i < checked.len() ==> !checked[i])
    }
}

/// `count` marks, none of them set.
pub open spec fn unchecked(count: nat) -> Seq<bool> {
    Seq::new(count, |i: int| false)
}

#[derive(Clone, Copy, Debug, PartialEq, Eq, Structural)]
enum Checkbox {
    Checked,
    Unchecked,
}

/// A menu of which any number of options can be checked.
///
/// The options and their order are fixed when the menu is made; a selection
/// replaces all marks at once.
#[derive(Debug)]
pub struct MultiSelectMenu<T: Facet> {
    title: String,
    options: Vec<(T, Checkbox)>,
}

impl<T: Facet> MultiSelectMenu<T> {
    /// The heading of the menu.
    pub closed spec fn spec_title(&self) -> Seq<char> {
        self.title@
    }

    /// The options, in menu order.
    pub closed spec fn options(&self) -> Seq<T> {
        Seq::new(self.options@.len(), |i: int| self.options@[i].0)
    }

    /// For each option, whether it is checked.
    pub closed spec fn checked(&self) -> Seq<bool> {
        Seq::new(self.options@.len(), |i: int| self.options@[i].1 == Checkbox::Checked)
    }

    /// The checked options, in menu order.
    pub open spec fn selections(&self) -> Seq<T> {
        picked(self.options(), self.checked())
    }

    /// The display names of the checked options, in menu order.
    pub open spec fn selection_strings(&self) -> Seq<Seq<char>> {
        labels(self.selections())
    }

    /// Whether this menu is `before` after the answer `selected`: the same
    /// heading and options, with exactly those options checked whose display
    /// name `selected` holds.
    pub open spec fn took(&self, before: &Self, selected: Seq<Seq<char>>) -> bool {
        &&& self.spec_title() == before.spec_title()
        &&& self.options() == before.options()
        &&& self.checked() == text_marks(before.options(), selected)
    }

    /// A menu has one mark per option.
    pub proof fn lemma_one_mark_per_option(&self)
        ensures
            self.checked().len() == self.options().len(),
    {
    }

    /// A menu with the given heading and options, none of them checked.
    pub fn new(title: &str, options: Vec<T>) -> (menu: Self)
        ensures
            menu.spec_title() == title@,
            menu.options() == options@,
            menu.checked() == unchecked(options@.len()),
    {
        let mut entries: Vec<(T, Checkbox)> = Vec::new();
        let mut i: usize = 0;
        while i < options.len()
            invariant
                i <= options@.len(),
                entries@.len() == i,
                forall|j: int| 0 <= j < i ==> entries@[j] == (options@[j], Checkbox::Unchecked),
            decreases options@.len() - i,
        {
            entries.push((options[i], Checkbox::Unchecked));
            i += 1;
        }
        let menu = MultiSelectMenu { title: String::from_str(title), options: entries };
        assert(menu.options() =~= options@);
        assert(menu.checked() =~= unchecked(options@.len()));
        menu
    }

    /// The heading of the menu.
    pub fn title(&self) -> (title: &str)
        ensures
            title@ == self.spec_title(),
    {
        self.title.as_str()
    }

    /// The display names of the checked options, in menu order.
    pub fn get_selection_strings(&self) -> (names: Vec<String>)
        ensures
            texts(names@) == self.selection_strings(),
    {
        let selections = self.get_selections();
        let mut names: Vec<String> = Vec::new();
        let mut i: usize = 0;
        while i < selections.len()
            invariant
                i <= selections@.len(),
                names@.len() == i,
                forall|j: int| 0 <= j < i ==> names@[j]@ == selections@[j].label(),
            decreases selections@.len() - i,
        {
            names.push(selections[i].to_label());
            i += 1;
        }
        assert(texts(names@) =~= labels(selections@));
        names
    }

    /// The checked options, in menu order.
    pub fn get_selections(&self) -> (selections: Vec<T>)
        ensures
            selections@ == self.selections(),
    {
        let mut selections: Vec<T> = Vec::new();
        let mut i: usize = 0;
        while i < self.options.len()
            invariant
                i <= self.options@.len(),
                selections@ == picked(self.options().take(i as int), self.checked()),
            decreases self.options@.len() - i,
        {
            assert(self.options().take(i + 1).drop_last() =~= self.options().take(i as int));
            if let Checkbox::Checked = self.options[i].1 {
                selections.push(self.options[i].0);
            }
            i += 1;
        }
        assert(self.options().take(i as int) =~= self.options());
        selections
    }

    /// Checks exactly the options that `selected_options` holds.
    pub fn select(&mut self, selected_options: Vec<T>)
        ensures
            final(self).spec_title() == old(self).spec_title(),
            final(self).options() == old(self).options(),
            final(self).checked() == marks(old(self).options(), selected_options@),
    {
        let mut i: usize = 0;
        while i < self.options.len()
            invariant
                i <= self.options@.len(),
                self.title == old(self).title,
                self.options() == old(self).options(),
                forall|j: int|
                    0 <= j < i ==> #[trigger] self.checked()[j] == selected_options@.contains(
                        self.options()[j],
                    ),
            decreases self.options@.len() - i,
        {
            let option = self.options[i].0;
            let mut found = false;
            let mut k: usize = 0;
            while k < selected_options.len()
                invariant
                    k <= selected_options@.len(),
                    found == exists|m: int| 0 <= m < k && selected_options@[m] == option,
                decreases selected_options@.len() - k,
            {
                if selected_options[k].same(&option) {
                    found = true;
                }
                k += 1;
            }
            assert(found == selected_options@.contains(option));
            let ghost before = self.options();
            let ghost marked = self.checked();
            let checkbox = if found {
                Checkbox::Checked
            } else {
                Checkbox::Unchecked
            };
            self.options.set(i, (option, checkbox));
            assert(self.options() =~= before);
            assert(self.checked() =~= marked.update(i as int, found));
            i += 1;
        }
        assert(self.checked() =~= marks(old(self).options(), selected_options@));
    }

    /// Checks exactly the options whose display name `selected_options` holds.
    /// A text that names no option changes nothing.
    pub fn stringly_select(&mut self, selected_options: Vec<String>)
        ensures
            final(self).took(old(self), texts(selected_options@)),
    {
        let mut i: usize = 0;
        while i < self.options.len()
            invariant
                i <= self.options@.len(),
                self.title == old(self).title,
                self.options() == old(self).options(),
                forall|j: int|
                    0 <= j < i ==> #[trigger] self.checked()[j] == texts(
                        selected_options@,
                    ).contains(self.options()[j].label()),
            decreases self.options@.len() - i,
        {
            let option = self.options[i].0;
            let label = option.to_label();
            let found = contains_text(&selected_options, &label);
            let ghost before = self.options();
            let ghost marked = self.checked();
            let checkbox = if found {
                Checkbox::Checked
            } else {
                Checkbox::Unchecked
            };
            self.options.set(i, (option, checkbox));
            assert(self.options() =~= before);
            assert(self.checked() =~= marked.update(i as int, found));
            i += 1;
        }
        assert(self.checked() =~= text_marks(old(self).options(), texts(selected_options@)));
    }

    /// What the menu shows when it is opened: the display names of its
    /// options, the positions of the checked ones, and whether there is none.
    pub fn view(&self) -> (view: MenuView)
        ensures
            view.shows(self.options(), self.checked()),
    {
        let mut is_empty = true;
        let mut selected_indexes: Vec<usize> = Vec::new();
        let mut options: Vec<String> = Vec::new();
        let mut i: usize = 0;
        while i < self.options.len()
            invariant
                i <= self.options@.len(),
                options@.len() == i,
                forall|j: int| 0 <= j < i ==> options@[j]@ == self.options()[j].label(),
                selected_indexes@ == checked_indexes(self.checked().take(i as int)),
                is_empty == (forall|j: int| 0 <= j < i ==> !self.checked()[j]),
            decreases self.options@.len() - i,
        {
            assert(self.checked().take(i + 1).drop_last() =~= self.checked().take(i as int));
            if let Checkbox::Checked = self.options[i].1 {
                assert(self.checked()[i as int]);
                is_empty = false;
                selected_indexes.push(i);
            } else {
                assert(!self.checked()[i as int]);
            }
            options.push(self.options[i].0.to_label());
            i += 1;
        }
        assert(self.checked().take(i as int) =~= self.checked());
        assert(texts(options@) =~= labels(self.options()));
        MenuView { is_empty, options, selected_indexes }
    }
}

/// Whether `list` holds a string that reads `text`.
pub fn contains_text(list: &Vec<String>, text: &String) -> (found: bool)
    ensures
        found == texts(list@).contains(text@),
{
    let mut i: usize = 0;
    while i < list.len()
        invariant
            i <= list@.len(),
            forall|j: int| 0 <= j < i ==> list@[j]@ != text@,
        decreases list@.len() - i,
    {
        if list[i] == *text {
            assert(texts(list@)[i as int] == text@);
            return true;
        }
        i += 1;
    }
    false
}

/// A menu of which one option is picked. It keeps no selection.
#[derive(Debug)]
pub struct SingleSelectMenu<T: Facet> {
    title: String,
    options: Vec<T>,
}

impl<T: Facet> SingleSelectMenu<T> {
    /// The heading of the menu.
    pub closed spec fn spec_title(&self) -> Seq<char> {
        self.title@
    }

    /// The options, in menu order.
    pub closed spec fn options(&self) -> Seq<T> {
        self.options@
    }

    /// A menu with the given heading and options.
    pub fn new(title: &str, options: Vec<T>) -> (menu: Self)
        ensures
            menu.spec_title() == title@,
            menu.options() == options@,
    {
        SingleSelectMenu { title: String::from_str(title), options }
    }

    /// The heading of the menu.
    pub fn title(&self) -> (title: &str)
        ensures
            title@ == self.spec_title(),
    {
        self.title.as_str()
    }

    /// The display names of the options, in menu order.
    pub fn labels(&self) -> (names: Vec<String>)
        ensures
            texts(names@) == labels(self.options()),
    {
        let mut names: Vec<String> = Vec::new();
        let mut i: usize = 0;
        while i < self.options.len()
            invariant
                i <= self.options@.len(),
                names@.len() == i,
                forall|j: int| 0 <= j < i ==> names@[j]@ == self.options@[j].label(),
            decreases self.options@.len() - i,
        {
            names.push(self.options[i].to_label());
            i += 1;
        }
        assert(texts(names@) =~= labels(self.options()));
        names
    }

    /// The first option whose display name is `answer`, if there is one.
    pub fn pick(&self, answer: &String) -> (picked: Option<T>)
        ensures
            match picked {
                Some(option) => exists|i: int|
                    0 <= i < self.options().len() && self.options()[i] == option
                        && self.options()[i].label() == answer@ && forall|j: int|
                        0 <= j < i ==> self.options()[j].label() != answer@,
                None => forall|i: int|
                    0 <= i < self.options().len() ==> self.options()[i].label() != answer@,
            },
    {
        let mut i: usize = 0;
        while i < self.options.len()
            invariant
                i <= self.options@.len(),
                forall|j: int| 0 <= j < i ==> self.options@[j].label() != answer@,
            decreases self.options@.len() - i,
        {
            let label = self.options[i].to_label();
            if label == *answer {
                assert(self.options()[i as int].label() == answer@);
                return Some(self.options[i]);
            }
            i += 1;
        }
        None
    }
}

} // verus!
