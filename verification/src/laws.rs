use crate::document::{DocumentKind, DocumentView};
use crate::session::{Registry, TabKey};
use vstd::prelude::*;

verus! {

/// One way of adding a document tab: empty under a given name, or read off
/// a file path.
pub enum Addition {
    Named(Seq<char>),
    FromFile(Seq<char>),
}

/// Whether the three sequences of `registry` are equally long.
pub open spec fn in_lockstep(registry: Registry) -> bool {
    registry.names.len() == registry.kinds.len() && registry.docs.len() == registry.kinds.len()
}

/// The registry after one addition.
pub open spec fn added(registry: Registry, addition: Addition) -> Registry {
    match addition {
        Addition::Named(name) => registry.add_document(name),
        Addition::FromFile(file_path) => registry.add_from_file(file_path),
    }
}

/// The registry after a run of additions, first to last.
pub open spec fn added_all(registry: Registry, additions: Seq<Addition>) -> Registry
    decreases additions.len(),
{
    if additions.len() == 0 {
        registry
    } else {
        added(added_all(registry, additions.drop_last()), additions.last())
    }
}

/// Whatever run of document tabs is added, by name or from files, the
/// three sequences stay equally long, and grow by one slot per addition.
pub proof fn lemma_additions_keep_lockstep(registry: Registry, additions: Seq<Addition>)
    requires
        in_lockstep(registry),
    ensures
        in_lockstep(added_all(registry, additions)),
        added_all(registry, additions).len() == registry.len() + additions.len(),
    decreases additions.len(),
{
    if additions.len() > 0 {
        lemma_additions_keep_lockstep(registry, additions.drop_last());
    }
}

/// Whatever run of document tabs is added to a valid registry, the
/// registry stays valid, after every one of them.
pub proof fn lemma_additions_keep_valid(registry: Registry, additions: Seq<Addition>)
    requires
        registry.wf(),
    ensures
        added_all(registry, additions).wf(),
    decreases additions.len(),
{
    if additions.len() > 0 {
        lemma_additions_keep_valid(registry, additions.drop_last());
        let before = added_all(registry, additions.drop_last());
        lemma_append_document_keeps_valid(before, additions.last());
    }
}

/// A slot appended to a valid registry leaves it valid, as long as it is
/// not a second Home.
pub proof fn lemma_appended_keeps_valid(
    registry: Registry,
    kind: TabKey,
    name: Seq<char>,
    doc: DocumentView,
)
    requires
        registry.wf(),
        kind == TabKey::Home ==> !registry.has_home(),
    ensures
        registry.appended(kind, name, doc).wf(),
        registry.appended(kind, name, doc).len() == registry.len() + 1,
{
    let after = registry.appended(kind, name, doc);
    assert forall|i: int, j: int|
        0 <= i < after.len() && 0 <= j < after.len() && after.kinds[i] == TabKey::Home
            && after.kinds[j] == TabKey::Home implies i == j by {
        if i < registry.len() {
            assert(registry.kinds[i] == TabKey::Home);
            assert(registry.kinds.contains(TabKey::Home));
        }
        if j < registry.len() {
            assert(registry.kinds[j] == TabKey::Home);
            assert(registry.kinds.contains(TabKey::Home));
        }
    }
}

/// One added document tab leaves a valid registry valid.
pub proof fn lemma_append_document_keeps_valid(registry: Registry, addition: Addition)
    requires
        registry.wf(),
    ensures
        added(registry, addition).wf(),
{
    match addition {
        Addition::Named(name) => {
            lemma_appended_keeps_valid(
                registry,
                TabKey::DocumentTab,
                name,
                DocumentView::empty().named(name),
            );
        },
        Addition::FromFile(file_path) => {
            let doc = Registry::opened(file_path);
            lemma_appended_keeps_valid(registry, TabKey::DocumentTab, doc.name, doc);
        },
    }
}

/// A file that carries the suffix of a kind is read as a document of that
/// kind, whatever kind the record had before.
pub proof fn lemma_suffix_decides_kind(doc: DocumentView, kind: DocumentKind)
    ensures
        doc.kind_for(Some(kind.suffix())) == kind,
        doc.kind_for(None) == doc.kind,
{
    reveal_strlit("txt");
    reveal_strlit("bmp");
    assert("txt"@[0] != "bmp"@[0]);
}

/// Removing a slot from a valid registry leaves a valid registry.
pub proof fn lemma_remove_keeps_valid(registry: Registry, index: int)
    requires
        registry.wf(),
        0 <= index < registry.len(),
    ensures
        registry.remove(index).wf(),
        registry.remove(index).len() == registry.len() - 1,
{
    let after = registry.remove(index);
    assert forall|a: int, b: int|
        0 <= a < after.len() && 0 <= b < after.len() && after.kinds[a] == TabKey::Home
            && after.kinds[b] == TabKey::Home implies a == b by {
        let a0 = if a < index { a } else { a + 1 };
        let b0 = if b < index { b } else { b + 1 };
        assert(registry.kinds[a0] == TabKey::Home);
        assert(registry.kinds[b0] == TabKey::Home);
    }
}

/// While a slot is left after a removal, the selected and the previous
/// index both point at one of the slots that are left, wherever they
/// pointed before.
pub proof fn lemma_remove_keeps_indices_in_range(registry: Registry, index: int)
    requires
        0 <= registry.selected,
        0 <= registry.previous,
        0 <= index < registry.len(),
        registry.len() > 1,
    ensures
        registry.remove(index).len() == registry.len() - 1,
        0 <= registry.remove(index).selected < registry.remove(index).len(),
        0 <= registry.remove(index).previous < registry.remove(index).len(),
{
}

/// Removing the selected slot makes the selection fall back: afterwards
/// the selected index is the previous index.
pub proof fn lemma_remove_selected_falls_back(registry: Registry)
    requires
        0 <= registry.selected < registry.len(),
    ensures
        registry.remove(registry.selected).selected == registry.remove(registry.selected).previous,
{
}

/// After the Home intent exactly one slot is Home, and it is the selected
/// one.
pub proof fn lemma_show_home_gives_one_home(registry: Registry)
    requires
        registry.wf(),
    ensures
        registry.show_home().wf(),
        registry.show_home().has_home(),
        registry.show_home().kinds[registry.show_home().selected] == TabKey::Home,
        forall|i: int|
            0 <= i < registry.show_home().len() && registry.show_home().kinds[i] == TabKey::Home
                ==> i == registry.show_home().selected,
{
    let once = registry.show_home();
    if registry.has_home() {
        let at = registry.kinds.index_of(TabKey::Home);
        assert(0 <= at < registry.len() && registry.kinds[at] == TabKey::Home);
        assert(once.kinds == registry.kinds);
    } else {
        lemma_appended_keeps_valid(registry, TabKey::Home, "Home"@, DocumentView::empty());
        assert(once.kinds[registry.len()] == TabKey::Home);
    }
}

/// The Home intent twice in a row gives what it gives once: the second
/// time no slot is added, renamed or replaced, and the Home slot, the one
/// there is, stays selected.
pub proof fn lemma_show_home_twice(registry: Registry)
    requires
        registry.wf(),
    ensures
        registry.show_home().show_home() == registry.show_home(),
        registry.show_home().show_home().kinds == registry.show_home().kinds,
        registry.show_home().show_home().names == registry.show_home().names,
        registry.show_home().show_home().docs == registry.show_home().docs,
{
    lemma_show_home_gives_one_home(registry);
    let once = registry.show_home();
    let at = once.kinds.index_of(TabKey::Home);
    assert(0 <= at < once.len() && once.kinds[at] == TabKey::Home);
}

/// The Submit intent twice in a row gives what it gives once: the same
/// display name, and a committed document.
pub proof fn lemma_submit_twice(registry: Registry)
    requires
        registry.wf(),
        registry.on_document(),
    ensures
        registry.submit().wf(),
        registry.submit().on_document(),
        registry.submit().docs[registry.selected].init,
        registry.submit().names[registry.selected] == registry.docs[registry.selected].file_name(),
        registry.submit().submit() == registry.submit(),
{
    let once = registry.submit();
    let twice = once.submit();
    assert(once.docs[registry.selected] == registry.docs[registry.selected].committed());
    assert(twice.names =~= once.names);
    assert(twice.docs =~= once.docs);
}

} // verus!
