use crate::document::{text_of, Document, DocumentView};
use crate::language_labels::{LangModule, LangProfile, LABEL_HOME};
use crate::laws::{lemma_appended_keeps_valid, lemma_remove_keeps_valid};
use crate::numerals::{decimal, decimal_string};
use vstd::prelude::*;
use vstd::string::StringExecFns;

verus! {

/// What a tab slot is: the one Home tab, or the tab of a document.
#[derive(Debug, Clone, Copy, PartialEq, Eq, Structural)]
pub enum TabKey {
    Home,
    DocumentTab,
}

impl Default for TabKey {
    fn default() -> (key: Self)
        ensures
            key == TabKey::Home,
    {
        TabKey::Home
    }
}

/// Why an intent changed nothing.
#[derive(Debug, Clone, Copy, PartialEq, Eq, Structural)]
pub enum SessionError {
    /// The user dismissed the picker.
    Cancelled,
    /// The intent does not fit the selected slot, or there is no slot at all.
    InvalidStateTransition,
}

/// What the central panel shows.
#[derive(Debug, Clone, Copy, PartialEq, Eq, Structural)]
pub enum Pane {
    /// There is no tab, so there is nothing to show.
    Nothing,
    /// The Home page.
    Home,
    /// The form of a document that is not committed yet.
    Form,
    /// The content of a committed document.
    Content,
}

/// An index one step to the left, which stops at the first slot.
pub open spec fn step_left(index: int) -> int {
    if index > 0 {
        index - 1
    } else {
        0
    }
}

/// The selected index as the repair rule leaves it when the slot at `index`
/// is about to go. A selected slot that goes hands over to the previous
/// one, which has moved left if it stood behind the slot. Otherwise the
/// selection moves left if the slot stood before it or was the previous one.
pub open spec fn repaired_selected(selected: int, previous: int, index: int) -> int {
    if selected == index {
        repaired_previous(selected, previous, index)
    } else if previous == index || selected > index {
        step_left(selected)
    } else {
        selected
    }
}

/// The previous index as the repair rule leaves it when the slot at `index`
/// is about to go.
pub open spec fn repaired_previous(selected: int, previous: int, index: int) -> int {
    if selected == index {
        if index < previous {
            step_left(previous)
        } else {
            previous
        }
    } else if previous == index || selected > index {
        step_left(previous)
    } else {
        previous
    }
}

/// `index`, pulled back to the last slot if it points past `len` slots.
pub open spec fn clamped(index: int, len: int) -> int {
    if len > 0 && index >= len {
        len - 1
    } else {
        index
    }
}

/// The tab registry as the rules see it: three sequences that run in
/// parallel, one entry per slot, and the two indices into them.
pub struct Registry {
    pub kinds: Seq<TabKey>,
    pub names: Seq<Seq<char>>,
    pub docs: Seq<DocumentView>,
    pub selected: int,
    pub previous: int,
}

impl Registry {
    /// The number of slots.
    pub open spec fn len(self) -> int {
        self.kinds.len() as int
    }

    /// The three sequences are equally long, at most one slot is Home, and
    /// both indices point at a slot, or are zero while there is none.
    pub open spec fn wf(self) -> bool {
        &&& self.names.len() == self.kinds.len()
        &&& self.docs.len() == self.kinds.len()
        &&& 0 <= self.selected
        &&& 0 <= self.previous
        &&& self.len() == 0 ==> self.selected == 0 && self.previous == 0
        &&& self.len() > 0 ==> self.selected < self.len() && self.previous < self.len()
        &&& forall|i: int, j: int|
            0 <= i < self.len() && 0 <= j < self.len() && self.kinds[i] == TabKey::Home
                && self.kinds[j] == TabKey::Home ==> i == j
    }

    /// A registry without slots.
    pub open spec fn empty() -> Registry {
        Registry {
            kinds: Seq::<TabKey>::empty(),
            names: Seq::<Seq<char>>::empty(),
            docs: Seq::<DocumentView>::empty(),
            selected: 0,
            previous: 0,
        }
    }

    /// Whether one of the slots is Home.
    pub open spec fn has_home(self) -> bool {
        self.kinds.contains(TabKey::Home)
    }

    /// A slot is appended and selected; the slot that was selected becomes
    /// the previous one.
    pub open spec fn appended(self, kind: TabKey, name: Seq<char>, doc: DocumentView) -> Registry {
        Registry {
            kinds: self.kinds.push(kind),
            names: self.names.push(name),
            docs: self.docs.push(doc),
            selected: self.len(),
            previous: self.selected,
        }
    }

    /// The Home intent: an existing Home slot is selected and nothing else
    /// changes; without one, a Home slot is appended.
    pub open spec fn show_home(self) -> Registry {
        if self.has_home() {
            Registry { selected: self.kinds.index_of(TabKey::Home), ..self }
        } else {
            self.appended(TabKey::Home, "Home"@, DocumentView::empty())
        }
    }

    /// The New intent: an empty document that carries `name` is appended
    /// under that display name.
    pub open spec fn add_document(self, name: Seq<char>) -> Registry {
        self.appended(TabKey::DocumentTab, name, DocumentView::empty().named(name))
    }

    /// The record of a document opened from the file at `file_path`.
    pub open spec fn opened(file_path: Seq<char>) -> DocumentView {
        DocumentView::empty().inferred_from(file_path).committed()
    }

    /// The Open intent: the document read off `file_path` is appended,
    /// committed, under the name of the file's stem.
    pub open spec fn add_from_file(self, file_path: Seq<char>) -> Registry {
        let doc = Self::opened(file_path);
        self.appended(TabKey::DocumentTab, doc.name, doc)
    }

    /// The slot at `index` is removed from all three sequences. Both
    /// indices follow the repair rule and are then pulled back into what is
    /// left.
    pub open spec fn remove(self, index: int) -> Registry {
        Registry {
            kinds: self.kinds.remove(index),
            names: self.names.remove(index),
            docs: self.docs.remove(index),
            selected: clamped(
                repaired_selected(self.selected, self.previous, index),
                self.len() - 1,
            ),
            previous: clamped(
                repaired_previous(self.selected, self.previous, index),
                self.len() - 1,
            ),
        }
    }

    /// The slot at `index` is selected.
    pub open spec fn select(self, index: int) -> Registry {
        Registry { selected: index, ..self }
    }

    /// Whether the selected index points at a slot.
    pub open spec fn on_slot(self) -> bool {
        0 <= self.selected < self.len()
    }

    /// Whether the selected slot exists and is a document.
    pub open spec fn on_document(self) -> bool {
        0 <= self.selected < self.len() && self.kinds[self.selected] == TabKey::DocumentTab
    }

    /// The Submit intent: the selected document is committed and its tab is
    /// named after its file.
    pub open spec fn submit(self) -> Registry {
        Registry {
            names: self.names.update(self.selected, self.docs[self.selected].file_name()),
            docs: self.docs.update(self.selected, self.docs[self.selected].committed()),
            ..self
        }
    }

    /// The record at the selected slot gets the answer of a folder picker.
    pub open spec fn set_directory(self, picked: Option<Seq<char>>) -> Registry {
        Registry {
            docs: self.docs.update(
                self.selected,
                self.docs[self.selected].with_directory(picked),
            ),
            ..self
        }
    }

    /// The name that the next empty document gets: the word New, a space,
    /// and the number of slots there are.
    pub open spec fn fresh_name(self) -> Seq<char> {
        "New "@ + decimal(self.kinds.len())
    }

    /// What the tab of the slot at `index` reads: the word for Home, which
    /// the label table gives, or the display name of a document.
    pub open spec fn label(self, index: int, home: Seq<char>) -> Seq<char> {
        if self.kinds[index] == TabKey::Home {
            home
        } else {
            self.names[index]
        }
    }

    /// What the central panel shows for this registry.
    pub open spec fn pane(self) -> Pane {
        if !(0 <= self.selected < self.len()) {
            Pane::Nothing
        } else if self.kinds[self.selected] == TabKey::Home {
            Pane::Home
        } else if self.docs[self.selected].init {
            Pane::Content
        } else {
            Pane::Form
        }
    }
}

/// The session: the label table, the tab registry as three vectors that
/// run in parallel, and the selected and the previous index.
#[derive(Debug, Clone)]
pub struct App {
    pub language: LangModule,
    pub tabs: Vec<TabKey>,
    pub tab_names: Vec<String>,
    pub documents: Vec<Document>,
    pub show_home_tab_on_startup: bool,
    pub selected_tab: usize,
    pub previous_tab: usize,
}

impl View for App {
    type V = Registry;

    open spec fn view(&self) -> Registry {
        Registry {
            kinds: self.tabs@,
            names: self.tab_names@.map_values(|name: String| name@),
            docs: self.documents@.map_values(|doc: Document| doc@),
            selected: self.selected_tab as int,
            previous: self.previous_tab as int,
        }
    }
}

impl Default for App {
    /// A session without tabs, whose label table is still empty.
    fn default() -> (app: Self)
        ensures
            app@ == Registry::empty(),
            app@.wf(),
            !app.show_home_tab_on_startup,
            app.language.lang_profile == LangProfile::English,
            forall|role: int|
                0 <= role < 10 ==> (#[trigger] app.language.labels@[role])@ == Seq::<char>::empty(),
    {
        let app = App {
            language: LangModule::default(),
            tabs: Vec::new(),
            tab_names: Vec::new(),
            documents: Vec::new(),
            show_home_tab_on_startup: false,
            selected_tab: 0,
            previous_tab: 0,
        };
        assert(app@.names =~= Seq::<Seq<char>>::empty());
        assert(app@.docs =~= Seq::<DocumentView>::empty());
        app
    }
}

impl App {
    /// Whether the label table and the startup choice are those of `other`.
    pub open spec fn same_settings(&self, other: App) -> bool {
        &&& self.language == other.language
        &&& self.show_home_tab_on_startup == other.show_home_tab_on_startup
    }

    /// Starts a session without tabs, with the English labels loaded.
    pub fn new() -> (app: App)
        ensures
            app@ == Registry::empty(),
            app@.wf(),
            !app.show_home_tab_on_startup,
            app.language.lang_profile == LangProfile::English,
            app.language.in_step(),
    {
        let app = App {
            language: LangModule::new(LangProfile::English),
            tabs: Vec::new(),
            tab_names: Vec::new(),
            documents: Vec::new(),
            show_home_tab_on_startup: false,
            selected_tab: 0,
            previous_tab: 0,
        };
        assert(app@.names =~= Seq::<Seq<char>>::empty());
        assert(app@.docs =~= Seq::<DocumentView>::empty());
        app
    }

    /// Tells whether the session is valid: the three vectors equally long,
    /// at most one Home slot, both indices at a slot or zero without one.
    pub fn is_valid(&self) -> (valid: bool)
        ensures
            valid == self@.wf(),
    {
        let len = self.tabs.len();
        if self.tab_names.len() != len || self.documents.len() != len {
            return false;
        }
        if len == 0 {
            return self.selected_tab == 0 && self.previous_tab == 0;
        }
        if self.selected_tab >= len || self.previous_tab >= len {
            return false;
        }
        let mut home: Option<usize> = None;
        let mut i: usize = 0;
        while i < len
            invariant
                len == self.tabs.len(),
                i <= len,
                home matches Some(at) ==> at < i && self.tabs@[at as int] == TabKey::Home,
                forall|k: int|
                    0 <= k < i && self.tabs@[k] == TabKey::Home ==> home == Some(k as usize),
            decreases len - i,
        {
            if self.tabs[i] == TabKey::Home {
                match home {
                    Some(at) => {
                        assert(self@.kinds[at as int] == TabKey::Home);
                        assert(self@.kinds[i as int] == TabKey::Home);
                        return false;
                    },
                    None => {
                        home = Some(i);
                    },
                }
            }
            i += 1;
        }
        true
    }

    /// Moves the selected index one slot to the left, unless it is the first.
    pub fn decrease_selected(&mut self)
        ensures
            final(self)@ == (Registry { selected: step_left(old(self)@.selected), ..old(self)@ }),
            final(self).same_settings(*old(self)),
    {
        if self.selected_tab != 0 {
            self.selected_tab = self.selected_tab - 1;
        }
    }

    /// Moves the previous index one slot to the left, unless it is the first.
    pub fn decrease_previous(&mut self)
        ensures
            final(self)@ == (Registry { previous: step_left(old(self)@.previous), ..old(self)@ }),
            final(self).same_settings(*old(self)),
    {
        if self.previous_tab != 0 {
            self.previous_tab = self.previous_tab - 1;
        }
    }

    /// Appends a slot to all three vectors and selects it.
    fn append_slot(&mut self, kind: TabKey, name: String, doc: Document)
        requires
            old(self)@.wf(),
            kind == TabKey::Home ==> !old(self)@.has_home(),
        ensures
            final(self)@ == old(self)@.appended(kind, name@, doc@),
            final(self)@.wf(),
            final(self).same_settings(*old(self)),
    {
        self.tabs.push(kind);
        self.documents.push(doc);
        self.tab_names.push(name);
        self.previous_tab = self.selected_tab;
        self.selected_tab = self.tabs.len() - 1;
        proof {
            let after = old(self)@.appended(kind, name@, doc@);
            lemma_appended_keeps_valid(old(self)@, kind, name@, doc@);
            assert(self@.names =~= after.names);
            assert(self@.docs =~= after.docs);
        }
    }

    /// The Home intent: selects the Home tab, which is appended first if
    /// there is none yet.
    pub fn show_home_tab(&mut self)
        requires
            old(self)@.wf(),
        ensures
            final(self)@ == old(self)@.show_home(),
            final(self)@.wf(),
            final(self).same_settings(*old(self)),
    {
        let mut found: Option<usize> = None;
        let mut i: usize = 0;
        while i < self.tabs.len()
            invariant
                i <= self.tabs.len(),
                *self == *old(self),
                found matches Some(at) ==> at < i && self.tabs@[at as int] == TabKey::Home,
                found is None ==> forall|k: int| 0 <= k < i ==> self.tabs@[k] != TabKey::Home,
            decreases self.tabs.len() - i,
        {
            if self.tabs[i] == TabKey::Home {
                found = Some(i);
            }
            i += 1;
        }
        match found {
            Some(at) => {
                proof {
                    let kinds = self@.kinds;
                    assert(kinds[at as int] == TabKey::Home);
                    assert(kinds.contains(TabKey::Home));
                    let chosen = kinds.index_of(TabKey::Home);
                    assert(0 <= chosen < kinds.len() && kinds[chosen] == TabKey::Home);
                }
                self.selected_tab = at;
            },
            None => {
                proof {
                    let kinds = self@.kinds;
                    if kinds.contains(TabKey::Home) {
                        let k = choose|k: int| 0 <= k < kinds.len() && kinds[k] == TabKey::Home;
                        assert(kinds[k] != TabKey::Home);
                    }
                }
                self.append_slot(TabKey::Home, String::from_str("Home"), Document::default());
            },
        }
    }

    /// Returns the name for the next empty document.
    pub fn fresh_name(&self) -> (name: String)
        ensures
            name@ == self@.fresh_name(),
    {
        let mut name = String::from_str("New ");
        let count = decimal_string(self.tabs.len());
        name.append(count.as_str());
        name
    }

    /// The New intent: appends an empty document that carries
    /// `initial_name`, under that display name, and selects it.
    pub fn add_new_tab(&mut self, initial_name: &str)
        requires
            old(self)@.wf(),
        ensures
            final(self)@ == old(self)@.add_document(initial_name@),
            final(self)@.wf(),
            final(self).same_settings(*old(self)),
    {
        let mut doc = Document::default();
        doc.name = String::from_str(initial_name);
        self.append_slot(TabKey::DocumentTab, String::from_str(initial_name), doc);
    }

    /// The Open intent for a file that was picked: appends the document
    /// read off `file_path`, committed, and selects it.
    pub fn open_file(&mut self, file_path: &str)
        requires
            old(self)@.wf(),
        ensures
            final(self)@ == old(self)@.add_from_file(file_path@),
            final(self)@.wf(),
            final(self).same_settings(*old(self)),
    {
        let mut doc = Document::default();
        doc.infer_from_path(file_path);
        doc.init_doc();
        let name = doc.name.clone();
        self.append_slot(TabKey::DocumentTab, name, doc);
    }

    /// The Open intent with the answer of a file picker: a picked file is
    /// opened, a dismissed picker changes nothing.
    pub fn pick_file(&mut self, picked: Option<String>) -> (outcome: Result<(), SessionError>)
        requires
            old(self)@.wf(),
        ensures
            picked matches Some(file) ==> outcome == Ok::<(), SessionError>(())
                && final(self)@ == old(self)@.add_from_file(file@),
            picked is None ==> outcome == Err::<(), SessionError>(SessionError::Cancelled)
                && *final(self) == *old(self),
            final(self)@.wf(),
            final(self).same_settings(*old(self)),
    {
        match picked {
            Some(file) => {
                self.open_file(file.as_str());
                Ok(())
            },
            None => Err(SessionError::Cancelled),
        }
    }

    /// The Close All intent: no slot is left, and both indices are zero.
    pub fn close_all(&mut self)
        ensures
            final(self)@ == Registry::empty(),
            final(self)@.wf(),
            final(self).same_settings(*old(self)),
    {
        self.tabs.clear();
        self.tab_names.clear();
        self.documents.clear();
        self.selected_tab = 0;
        self.previous_tab = 0;
        proof {
            assert(self@.names =~= Seq::<Seq<char>>::empty());
            assert(self@.docs =~= Seq::<DocumentView>::empty());
        }
    }

    /// Selects the slot at `index`; the previous index stays.
    pub fn select(&mut self, index: usize)
        requires
            old(self)@.wf(),
            index < old(self).tabs.len(),
        ensures
            final(self)@ == old(self)@.select(index as int),
            final(self)@.wf(),
            final(self).same_settings(*old(self)),
    {
        self.selected_tab = index;
    }

    /// Closes the tab at `i`: repairs both indices, removes the slot from
    /// all three vectors, and pulls the indices back into what is left.
    pub fn remove_tab(&mut self, i: usize)
        requires
            old(self)@.wf(),
            i < old(self).tabs.len(),
        ensures
            final(self)@ == old(self)@.remove(i as int),
            final(self)@.wf(),
            final(self).same_settings(*old(self)),
    {
        if self.selected_tab == i {
            if i < self.previous_tab {
                self.decrease_previous();
            }
            self.selected_tab = self.previous_tab;
        } else if self.previous_tab == i || self.selected_tab > i {
            self.decrease_previous();
            self.decrease_selected();
        }
        self.tabs.remove(i);
        self.tab_names.remove(i);
        self.documents.remove(i);
        let len = self.tabs.len();
        if len > 0 {
            if self.selected_tab >= len {
                self.selected_tab = len - 1;
            }
            if self.previous_tab >= len {
                self.previous_tab = len - 1;
            }
        }
        proof {
            let after = old(self)@.remove(i as int);
            lemma_remove_keeps_valid(old(self)@, i as int);
            assert(self@.names =~= after.names);
            assert(self@.docs =~= after.docs);
        }
    }

    /// The Submit intent: commits the selected document and names its tab
    /// after its file. Where no document is selected nothing changes, and
    /// the caller is told so.
    pub fn init_doc(&mut self) -> (outcome: Result<(), SessionError>)
        requires
            old(self)@.wf(),
        ensures
            old(self)@.on_document() ==> outcome == Ok::<(), SessionError>(())
                && final(self)@ == old(self)@.submit(),
            !old(self)@.on_document() ==> outcome == Err::<(), SessionError>(
                SessionError::InvalidStateTransition,
            ) && *final(self) == *old(self),
            final(self)@.wf(),
            final(self).same_settings(*old(self)),
    {
        let at = self.selected_tab;
        if at >= self.tabs.len() || self.tabs[at] == TabKey::Home {
            return Err(SessionError::InvalidStateTransition);
        }
        let name = self.documents[at].file_name();
        self.documents[at].init_doc();
        self.tab_names[at] = name;
        proof {
            let after = old(self)@.submit();
            assert(self@.names =~= after.names);
            assert(self@.docs =~= after.docs);
        }
        Ok(())
    }

    /// Takes the answer of a folder picker as the directory of the record
    /// at the selected slot, whatever the slot is. Where the picker was
    /// dismissed, or there is no slot at all, nothing changes, and the
    /// caller is told so.
    pub fn save_dir(&mut self, picked: Option<String>) -> (outcome: Result<(), SessionError>)
        requires
            old(self)@.wf(),
        ensures
            !old(self)@.on_slot() ==> outcome == Err::<(), SessionError>(
                SessionError::InvalidStateTransition,
            ),
            old(self)@.on_slot() && picked is None ==> outcome == Err::<(), SessionError>(
                SessionError::Cancelled,
            ),
            old(self)@.on_slot() && picked is Some ==> outcome == Ok::<(), SessionError>(())
                && final(self)@ == old(self)@.set_directory(text_of(picked)),
            outcome is Err ==> *final(self) == *old(self),
            final(self)@.wf(),
            final(self).same_settings(*old(self)),
    {
        let at = self.selected_tab;
        if at >= self.tabs.len() {
            return Err(SessionError::InvalidStateTransition);
        }
        if picked.is_none() {
            return Err(SessionError::Cancelled);
        }
        self.documents[at].set_dir(picked);
        proof {
            let after = old(self)@.set_directory(text_of(picked));
            assert(self@.names =~= after.names);
            assert(self@.docs =~= after.docs);
        }
        Ok(())
    }

    /// Returns what the tab of the slot at `index` reads.
    pub fn tab_label(&self, index: usize) -> (label: String)
        requires
            self@.wf(),
            index < self.tabs.len(),
        ensures
            label@ == self@.label(index as int, self.language.labels@[LABEL_HOME as int]@),
    {
        if self.tabs[index] == TabKey::Home {
            self.language.labels[LABEL_HOME].to_owned()
        } else {
            self.tab_names[index].clone()
        }
    }

    /// Tells what the central panel shows: nothing without tabs, the Home
    /// page, or the selected document's form or content.
    pub fn current_pane(&self) -> (pane: Pane)
        requires
            self@.wf(),
        ensures
            pane == self@.pane(),
    {
        let at = self.selected_tab;
        if at >= self.tabs.len() {
            Pane::Nothing
        } else if self.tabs[at] == TabKey::Home {
            Pane::Home
        } else if self.documents[at].init {
            Pane::Content
        } else {
            Pane::Form
        }
    }
}

} // verus!
