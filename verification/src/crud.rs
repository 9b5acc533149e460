//! A list of names that can be filtered, added to, changed and shortened.

use vstd::prelude::*;

use crate::text::{contains, lemma_empty_occurs, lowercase, occurs_in, to_lowercase};

verus! {

/// One entry of the list: its position and its text.
pub struct ListItem {
    pub index: usize,
    pub label: String,
}

impl ListItem {
    /// An entry for position `index` that reads `label`.
    pub fn new(index: usize, label: &str) -> (item: Self)
        ensures
            item.index == index,
            item.label@ == label@,
    {
        ListItem { index, label: String::from_str(label) }
    }
}

/// Whether an entry that reads `label` is shown under `filter`: the filter,
/// in lower case, occurs in the entry's text, in lower case.
pub open spec fn passes_filter(label: Seq<char>, filter: Seq<char>) -> bool {
    occurs_in(lowercase(filter), lowercase(label))
}

/// The positions at which `flags` holds `true`, in rising order.
pub open spec fn flagged_positions(flags: Seq<bool>) -> Seq<usize>
    decreases flags.len(),
{
    if flags.len() == 0 {
        Seq::empty()
    } else if flags.last() {
        flagged_positions(flags.drop_last()).push((flags.len() - 1) as usize)
    } else {
        flagged_positions(flags.drop_last())
    }
}

/// Whether `shown` lists, in rising order, exactly the positions at which
/// `flags` holds `true`.
pub open spec fn lists_flagged(shown: Seq<usize>, flags: Seq<bool>) -> bool {
    &&& forall|k: int| 0 <= k < shown.len() ==> shown[k] < flags.len() && flags[shown[k] as int]
    &&& forall|k: int, l: int| 0 <= k < l < shown.len() ==> shown[k] < shown[l]
    &&& forall|j: int| 0 <= j < flags.len() && flags[j] ==> shown.contains(j as usize)
}

/// The flagged positions are what their name says: each of them is a
/// position that is flagged, they rise, and no flagged position is left
/// out.
pub proof fn lemma_flagged_positions(flags: Seq<bool>)
    requires
        flags.len() <= usize::MAX,
    ensures
        lists_flagged(flagged_positions(flags), flags),
    decreases flags.len(),
{
    if flags.len() > 0 {
        let shorter = flags.drop_last();
        let before = flagged_positions(shorter);
        let shown = flagged_positions(flags);
        lemma_flagged_positions(shorter);
        assert forall|j: int| 0 <= j < flags.len() && flags[j] implies shown.contains(
            j as usize,
        ) by {
            if j < shorter.len() {
                assert(shorter[j]);
                let k = choose|k: int| 0 <= k < before.len() && before[k] == j as usize;
                assert(shown[k] == j as usize);
            } else {
                assert(shown[shown.len() - 1] == j as usize);
            }
        }
        assert forall|k: int| 0 <= k < shown.len() implies shown[k] < flags.len()
            && flags[shown[k] as int] by {
            if k < before.len() {
                assert(shorter[before[k] as int]);
            }
        }
    }
}

/// Where every flag is set, the flagged positions are all the positions.
pub proof fn lemma_all_flagged(flags: Seq<bool>)
    requires
        flags.len() <= usize::MAX,
        forall|j: int| 0 <= j < flags.len() ==> flags[j],
    ensures
        flagged_positions(flags) == Seq::new(flags.len(), |j: int| j as usize),
    decreases flags.len(),
{
    if flags.len() > 0 {
        lemma_all_flagged(flags.drop_last());
    }
    assert(flagged_positions(flags) =~= Seq::new(flags.len(), |j: int| j as usize));
}

/// The positions at which `flags` holds `true`, in rising order.
pub fn positions_of(flags: &Vec<bool>) -> (shown: Vec<usize>)
    ensures
        shown@ == flagged_positions(flags@),
{
    let mut shown: Vec<usize> = Vec::new();
    let mut j: usize = 0;
    while j < flags.len()
        invariant
            j <= flags.len(),
            shown@ == flagged_positions(flags@.take(j as int)),
        decreases flags.len() - j,
    {
        assert(flags@.take(j + 1).drop_last() =~= flags@.take(j as int));
        if flags[j] {
            shown.push(j);
        }
        j = j + 1;
    }
    assert(flags@.take(j as int) =~= flags@);
    shown
}

/// The list as contracts see it: the texts of its entries, in order, and
/// the position that is selected, if one is.
pub struct ListState {
    pub labels: Seq<Seq<char>>,
    pub selected: Option<usize>,
}

impl ListState {
    /// The list that every form starts with.
    pub open spec fn initial() -> ListState {
        ListState {
            labels: seq!["Emil, Hans"@, "Mustermann, Max"@, "Tisch, Roman"@],
            selected: None,
        }
    }

    /// Whether the selection, if there is one, names an entry of the list.
    pub open spec fn selection_in_range(self) -> bool {
        self.selected matches Some(i) ==> i < self.labels.len()
    }

    /// For each entry, whether it is shown under `filter`.
    pub open spec fn shown_flags(self, filter: Seq<char>) -> Seq<bool> {
        Seq::new(self.labels.len(), |j: int| passes_filter(self.labels[j], filter))
    }

    /// The list with an entry that reads `label` added at the end.
    pub open spec fn pushed(self, label: Seq<char>) -> ListState {
        ListState { labels: self.labels.push(label), ..self }
    }

    /// The list without the selected entry, and with nothing selected. With
    /// nothing selected the list stays as it is.
    pub open spec fn removed(self) -> ListState {
        match self.selected {
            Some(i) => ListState { labels: self.labels.remove(i as int), selected: None },
            None => self,
        }
    }

    /// The list with the selected entry reading `label`; the selection
    /// stays. With nothing selected the list stays as it is.
    pub open spec fn replaced(self, label: Seq<char>) -> ListState {
        match self.selected {
            Some(i) => ListState { labels: self.labels.update(i as int, label), ..self },
            None => self,
        }
    }
}

/// The list of names and the selection in it.
pub struct List {
    items: Vec<ListItem>,
    selected: Option<usize>,
}

impl View for List {
    type V = ListState;

    closed spec fn view(&self) -> ListState {
        ListState {
            labels: Seq::new(self.items@.len(), |j: int| self.items@[j].label@),
            selected: self.selected,
        }
    }
}

/// Entries for the texts of `items` without the one at `gone`, each
/// numbered by its new position.
fn renumbered_without(items: &Vec<ListItem>, gone: usize) -> (fresh: Vec<ListItem>)
    requires
        gone < items@.len(),
    ensures
        fresh@.len() == items@.len() - 1,
        forall|j: int| 0 <= j < fresh@.len() ==> (#[trigger] fresh@[j]).index == j,
        forall|j: int| 0 <= j < gone ==> (#[trigger] fresh@[j]).label@ == items@[j].label@,
        forall|j: int|
            gone <= j < fresh@.len() ==> (#[trigger] fresh@[j]).label@ == items@[j + 1].label@,
{
    let mut fresh: Vec<ListItem> = Vec::new();
    let mut j: usize = 0;
    while j < items.len()
        invariant
            gone < items@.len(),
            j <= items.len(),
            fresh@.len() == if j <= gone {
                j as int
            } else {
                j - 1
            },
            forall|k: int| 0 <= k < fresh@.len() ==> (#[trigger] fresh@[k]).index == k,
            forall|k: int|
                0 <= k < fresh@.len() && k < gone ==> (#[trigger] fresh@[k]).label@
                    == items@[k].label@,
            forall|k: int|
                gone <= k < fresh@.len() ==> (#[trigger] fresh@[k]).label@ == items@[k + 1].label@,
        decreases items.len() - j,
    {
        if j != gone {
            fresh.push(ListItem::new(fresh.len(), items[j].label.as_str()));
        }
        j = j + 1;
    }
    fresh
}

impl Default for List {
    /// The list that every form starts with: three names, none selected.
    fn default() -> (list: Self)
        ensures
            list@ == ListState::initial(),
    {
        let mut list = List { items: Vec::new(), selected: None };
        list.push("Emil, Hans");
        list.push("Mustermann, Max");
        list.push("Tisch, Roman");
        assert(list@.labels =~= ListState::initial().labels);
        list
    }
}

impl List {
    /// What holds of every list, at all times: each entry is numbered by
    /// its position.
    #[verifier::type_invariant]
    spec fn inv(self) -> bool {
        forall|j: int| 0 <= j < self.items@.len() ==> (#[trigger] self.items@[j]).index == j
    }

    /// The entries, in order, each numbered by its position.
    pub fn items(&self) -> (items: &Vec<ListItem>)
        ensures
            items@.len() == self@.labels.len(),
            forall|j: int|
                0 <= j < items@.len() ==> (#[trigger] items@[j]).index == j && items@[j].label@
                    == self@.labels[j],
    {
        proof {
            use_type_invariant(self);
        }
        &self.items
    }

    /// Takes the entries out, to change them and put them back: the list
    /// is left without entries, and so is whole, in the meantime.
    fn take_items(&mut self) -> (items: Vec<ListItem>)
        ensures
            items == old(self).items,
            final(self).items@.len() == 0,
            final(self).selected == old(self).selected,
    {
        let mut items: Vec<ListItem> = Vec::new();
        std::mem::swap(&mut self.items, &mut items);
        items
    }

    /// The position that is selected, if one is.
    pub fn selected(&self) -> (selected: Option<usize>)
        ensures
            selected == self@.selected,
    {
        self.selected
    }

    /// Selects the entry at `index`.
    pub fn select(&mut self, index: usize)
        ensures
            final(self)@ == (ListState { selected: Some(index), ..old(self)@ }),
    {
        proof {
            use_type_invariant(&*self);
        }
        self.selected = Some(index);
    }

    /// The positions of the entries that are shown under `filter`, in
    /// rising order: those whose text, in lower case, holds the filter, in
    /// lower case. The empty filter shows every entry.
    pub fn visible(&self, filter: &str) -> (shown: Vec<usize>)
        ensures
            shown@ == flagged_positions(self@.shown_flags(filter@)),
            filter@.len() == 0 ==> shown@ == Seq::new(self@.labels.len(), |j: int| j as usize),
    {
        let lowered_filter = to_lowercase(filter);
        let mut flags: Vec<bool> = Vec::new();
        let mut j: usize = 0;
        while j < self.items.len()
            invariant
                j <= self.items.len(),
                lowered_filter@ == lowercase(filter@),
                flags@.len() == j,
                forall|k: int| 0 <= k < j ==> flags@[k] == self@.shown_flags(filter@)[k],
            decreases self.items.len() - j,
        {
            let lowered_label = to_lowercase(self.items[j].label.as_str());
            flags.push(contains(lowered_label.as_str(), lowered_filter.as_str()));
            j = j + 1;
        }
        assert(flags@ =~= self@.shown_flags(filter@));
        proof {
            if filter@.len() == 0 {
                assert forall|k: int| 0 <= k < flags@.len() implies flags@[k] by {
                    lemma_empty_occurs(lowercase(filter@), lowercase(self@.labels[k]));
                }
                lemma_all_flagged(flags@);
            }
        }
        positions_of(&flags)
    }

    /// Adds an entry that reads `label` at the end.
    pub fn push(&mut self, label: &str)
        ensures
            final(self)@ == old(self)@.pushed(label@),
    {
        proof {
            use_type_invariant(&*self);
        }
        let mut items = self.take_items();
        items.push(ListItem::new(items.len(), label));
        self.items = items;
        assert(self@.labels =~= old(self)@.labels.push(label@));
    }

    /// Takes the selected entry out, numbers the entries that are left by
    /// their new positions, and clears the selection. With nothing selected
    /// nothing happens.
    pub fn remove(&mut self)
        requires
            old(self)@.selection_in_range(),
        ensures
            final(self)@ == old(self)@.removed(),
    {
        if let Some(i) = self.selected {
            self.items = renumbered_without(&self.items, i);
            self.selected = None;
            assert(self@.labels =~= old(self)@.labels.remove(i as int));
        }
    }

    /// Makes the selected entry read `label`. With nothing selected nothing
    /// happens.
    pub fn replace(&mut self, label: &str)
        requires
            old(self)@.selection_in_range(),
        ensures
            final(self)@ == old(self)@.replaced(label@),
    {
        proof {
            use_type_invariant(&*self);
        }
        if let Some(i) = self.selected {
            let mut items = self.take_items();
            items.set(i, ListItem::new(i, label));
            self.items = items;
            assert(self@.labels =~= old(self)@.labels.update(i as int, label@));
        }
    }
}

/// What the host can tell the form.
#[derive(Debug, Clone)]
pub enum Message {
    /// A new entry is to be made from the name fields.
    CreatePressed,
    /// The selected entry is to read what the name fields hold.
    UpdatePressed,
    /// The selected entry is to go.
    DeletePressed,
    /// The filter field now holds this text.
    FilterUpdated(String),
    /// The name field now holds this text.
    NameUpdated(String),
    /// The surname field now holds this text.
    SurnameUpdated(String),
    /// The entry at this position was picked.
    SelectionChanged(usize),
}

/// The form as contracts see it: the list and the texts of the three
/// fields.
pub struct CrudState {
    pub names: ListState,
    pub filter: Seq<char>,
    pub name: Seq<char>,
    pub surname: Seq<char>,
}

impl CrudState {
    /// The form before anything was entered.
    pub open spec fn initial() -> CrudState {
        CrudState {
            names: ListState::initial(),
            filter: Seq::empty(),
            name: Seq::empty(),
            surname: Seq::empty(),
        }
    }

    /// The entry text that the name fields stand for: surname, comma,
    /// space, name.
    pub open spec fn full_name(self) -> Seq<char> {
        self.surname + ", "@ + self.name
    }

    /// Whether `message` can be taken in: changing or removing the selected
    /// entry needs a selection that names an entry, or none at all.
    pub open spec fn accepts(self, message: Message) -> bool {
        message is UpdatePressed || message is DeletePressed ==> self.names.selection_in_range()
    }

    /// The form after `message` was taken in.
    pub open spec fn received(self, message: Message) -> CrudState {
        match message {
            Message::FilterUpdated(text) => CrudState { filter: text@, ..self },
            Message::NameUpdated(text) => CrudState { name: text@, ..self },
            Message::SurnameUpdated(text) => CrudState { surname: text@, ..self },
            Message::SelectionChanged(index) => CrudState {
                names: ListState { selected: Some(index), ..self.names },
                ..self
            },
            Message::CreatePressed => CrudState {
                names: self.names.pushed(self.full_name()),
                ..self
            },
            Message::UpdatePressed => CrudState {
                names: self.names.replaced(self.full_name()),
                ..self
            },
            Message::DeletePressed => CrudState { names: self.names.removed(), ..self },
        }
    }
}

/// The form: the list of names, the filter field and the two name fields.
pub struct CRUD {
    names: List,
    input_filter: String,
    input_name: String,
    input_surname: String,
}

impl View for CRUD {
    type V = CrudState;

    closed spec fn view(&self) -> CrudState {
        CrudState {
            names: self.names@,
            filter: self.input_filter@,
            name: self.input_name@,
            surname: self.input_surname@,
        }
    }
}

impl CRUD {
    /// The form before anything was entered: the starting list, and all
    /// three fields empty.
    pub fn new() -> (form: Self)
        ensures
            form@ == CrudState::initial(),
    {
        CRUD {
            names: List::default(),
            input_filter: String::new(),
            input_name: String::new(),
            input_surname: String::new(),
        }
    }

    /// The list of names.
    pub fn names(&self) -> (names: &List)
        ensures
            names@ == self@.names,
    {
        &self.names
    }

    /// What the filter field holds.
    pub fn filter(&self) -> (text: &String)
        ensures
            text@ == self@.filter,
    {
        &self.input_filter
    }

    /// What the name field holds.
    pub fn name(&self) -> (text: &String)
        ensures
            text@ == self@.name,
    {
        &self.input_name
    }

    /// What the surname field holds.
    pub fn surname(&self) -> (text: &String)
        ensures
            text@ == self@.surname,
    {
        &self.input_surname
    }

    /// The entry text that the name fields stand for: surname, comma,
    /// space, name.
    pub fn make_name(&self) -> (full: String)
        ensures
            full@ == self@.full_name(),
    {
        let mut full = self.input_surname.clone();
        full.append(", ");
        full.append(self.input_name.as_str());
        full
    }

    /// The positions of the entries that are shown under the filter field,
    /// in rising order.
    pub fn visible(&self) -> (shown: Vec<usize>)
        ensures
            shown@ == flagged_positions(self@.names.shown_flags(self@.filter)),
            self@.filter.len() == 0 ==> shown@ == Seq::new(
                self@.names.labels.len(),
                |j: int| j as usize,
            ),
    {
        self.names.visible(self.input_filter.as_str())
    }

    /// Takes in one message.
    pub fn update(&mut self, message: Message)
        requires
            old(self)@.accepts(message),
        ensures
            final(self)@ == old(self)@.received(message),
    {
        match message {
            Message::FilterUpdated(text) => {
                self.input_filter = text;
            },
            Message::NameUpdated(text) => {
                self.input_name = text;
            },
            Message::SurnameUpdated(text) => {
                self.input_surname = text;
            },
            Message::SelectionChanged(index) => {
                self.names.select(index);
            },
            Message::CreatePressed => {
                let full = self.make_name();
                self.names.push(full.as_str());
            },
            Message::UpdatePressed => {
                let full = self.make_name();
                self.names.replace(full.as_str());
            },
            Message::DeletePressed => {
                self.names.remove();
            },
        }
    }
}

} // verus!
