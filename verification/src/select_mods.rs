//! The package-selection stage: the static catalog of installable packages,
//! the user's selection set, and the single focused package driving the
//! detail panel.

use vstd::prelude::*;

use crate::context::opt_str_view;

verus! {

/// Mathematical model of a catalog entry.
pub ghost struct ModModel {
    pub id: Seq<char>,
    pub name: Seq<char>,
    pub description: Seq<char>,
}

/// One catalog entry: an installable package with its display metadata.
#[derive(Debug, Clone)]
pub struct Mod {
    /// Stable identifier, the key everything else refers to the package by.
    pub id: String,
    /// Display name.
    pub name: String,
    /// Display description.
    pub description: String,
}

impl View for Mod {
    type V = ModModel;

    open spec fn view(&self) -> ModModel {
        ModModel { id: self.id@, name: self.name@, description: self.description@ }
    }
}

/// The static catalog of packages offered for installation.
pub fn catalog() -> (r: Vec<Mod>)
    ensures
        r@.len() == 1,
        r@[0]@.id == "korabli-lesta-l10n"@,
        r@[0]@.name == "澪刻战舰世界汉化"@,
        r@[0]@.description == "基本汉化包"@,
{
    let mut v: Vec<Mod> = Vec::new();
    v.push(
        Mod {
            id: String::from_str("korabli-lesta-l10n"),
            name: String::from_str("澪刻战舰世界汉化"),
            description: String::from_str("基本汉化包"),
        },
    );
    v
}

/// The first catalog position whose entry carries the identifier, if any.
/// A miss for an identifier that came out of the selection set is an
/// invariant violation, not a user-facing condition: selected identifiers
/// only ever originate from the catalog.
pub fn find_mod_index(mods: &Vec<Mod>, id: &String) -> (r: Option<usize>)
    ensures
        match r {
            Some(i) => i < mods@.len() && mods@[i as int]@.id == id@ && (forall|j: int|
                0 <= j < i ==> mods@[j]@.id != id@),
            None => forall|j: int| 0 <= j < mods@.len() ==> mods@[j]@.id != id@,
        },
{
    let mut i: usize = 0;
    while i < mods.len()
        invariant
            i <= mods@.len(),
            forall|j: int| 0 <= j < i ==> mods@[j]@.id != id@,
        decreases mods@.len() - i,
    {
        let entry = &mods[i];
        if entry.id == *id {
            return Some(i);
        }
        i = i + 1;
    }
    None
}

/// The class of one package row in the sidebar: checked rows are marked.
pub fn mods_item_class(checked: bool) -> (r: String)
    ensures
        checked ==> r@ == "mods-sidebar-item checked"@,
        !checked ==> r@ == "mods-sidebar-item"@,
{
    if checked {
        String::from_str("mods-sidebar-item checked")
    } else {
        String::from_str("mods-sidebar-item")
    }
}

/// The element identifier of the checkbox controlling one package.
pub fn mod_input_id(id: &String) -> (r: String)
    ensures
        r@ == "select-mod-"@ + id@,
{
    String::from_str("select-mod-").concat(id.as_str())
}

/// Mathematical model of the stage's local state.
#[verifier::ext_equal]
pub ghost struct SelectionModel {
    pub selected: Seq<Seq<char>>,
    pub focus: Option<Seq<char>>,
}

/// The transition a checkbox change makes on the stage state. Checking a
/// package adds it to the selection and focuses it; unchecking removes it
/// and clears the focus only when the unchecked package was the focused one.
pub open spec fn toggle_model(m: SelectionModel, id: Seq<char>, checked: bool) -> SelectionModel {
    if checked {
        SelectionModel {
            selected: if m.selected.contains(id) {
                m.selected
            } else {
                m.selected.push(id)
            },
            focus: Some(id),
        }
    } else {
        SelectionModel {
            selected: m.selected.remove_value(id),
            focus: if m.focus == Some(id) {
                Option::None
            } else {
                m.focus
            },
        }
    }
}

/// Local state of the package-selection stage.
#[derive(Debug, Clone)]
pub struct SelectModsState {
    /// Identifiers of the checked packages, duplicate-free.
    pub selected: Vec<String>,
    /// The package shown in the detail panel, if any.
    pub focus: Option<String>,
}

impl View for SelectModsState {
    type V = SelectionModel;

    open spec fn view(&self) -> SelectionModel {
        SelectionModel { selected: self.selected.deep_view(), focus: opt_str_view(self.focus) }
    }
}

/// Append one owned copy of a string to a vector, on the level of views.
fn push_string(v: &mut Vec<String>, s: &String)
    ensures
        final(v).deep_view() == old(v).deep_view().push(s@),
{
    let ghost pre = v.deep_view();
    v.push(s.clone());
    proof {
        assert forall|j: int| 0 <= j < v.deep_view().len() implies v.deep_view()[j] == pre.push(
            s@,
        )[j] by {
            if j < pre.len() {
                assert(v@[j] == old(v)@[j]);
            }
        }
        assert(v.deep_view() =~= pre.push(s@));
    }
}

/// Remove the entry at one position, on the level of views.
fn remove_string_at(v: &mut Vec<String>, i: usize)
    requires
        i < old(v)@.len(),
    ensures
        final(v).deep_view() == old(v).deep_view().remove(i as int),
{
    let ghost pre = v.deep_view();
    v.remove(i);
    proof {
        old(v)@.remove_ensures(i as int);
        pre.remove_ensures(i as int);
        assert forall|j: int| 0 <= j < v.deep_view().len() implies v.deep_view()[j] == pre.remove(
            i as int,
        )[j] by {
            if j < i {
                assert(v@[j] == old(v)@[j]);
                assert(pre.remove(i as int)[j] == pre[j]);
            } else {
                assert(v@[j] == old(v)@[j + 1]);
                assert(pre.remove(i as int)[j] == pre[j + 1]);
            }
        }
        assert(v.deep_view() =~= pre.remove(i as int));
    }
}

/// The first position of a string in a vector, by view equality.
fn index_of_string(v: &Vec<String>, id: &String) -> (r: Option<usize>)
    ensures
        match r {
            Some(i) => i < v@.len() && v.deep_view()[i as int] == id@ && (forall|j: int|
                0 <= j < i ==> v.deep_view()[j] != id@),
            None => !v.deep_view().contains(id@),
        },
{
    let mut i: usize = 0;
    while i < v.len()
        invariant
            i <= v@.len(),
            forall|j: int| 0 <= j < i ==> v.deep_view()[j] != id@,
        decreases v@.len() - i,
    {
        let entry = &v[i];
        if *entry == *id {
            return Some(i);
        }
        i = i + 1;
    }
    proof {
        assert(forall|j: int| 0 <= j < v.deep_view().len() ==> v.deep_view()[j] != id@);
    }
    None
}

/// Appending a fresh element keeps a sequence duplicate-free.
proof fn lemma_push_keeps_no_duplicates<A>(s: Seq<A>, v: A)
    requires
        s.no_duplicates(),
        !s.contains(v),
    ensures
        s.push(v).no_duplicates(),
{
    assert forall|a: int, b: int| 0 <= a < b < s.push(v).len() implies s.push(v)[a] != s.push(
        v,
    )[b] by {
        if b < s.len() {
            assert(s.push(v)[a] == s[a] && s.push(v)[b] == s[b]);
        } else {
            assert(s.push(v)[a] == s[a] && s.push(v)[b] == v);
        }
    }
}

/// Removing one position keeps a sequence duplicate-free.
proof fn lemma_remove_keeps_no_duplicates<A>(s: Seq<A>, i: int)
    requires
        s.no_duplicates(),
        0 <= i < s.len(),
    ensures
        s.remove(i).no_duplicates(),
{
    s.remove_ensures(i);
    assert forall|a: int, b: int| 0 <= a < b < s.remove(i).len() implies s.remove(i)[a] != s.remove(
        i,
    )[b] by {
        if a < i && b < i {
            assert(s.remove(i)[a] == s[a] && s.remove(i)[b] == s[b]);
        } else if a < i {
            assert(s.remove(i)[a] == s[a] && s.remove(i)[b] == s[b + 1]);
        } else {
            assert(s.remove(i)[a] == s[a + 1] && s.remove(i)[b] == s[b + 1]);
        }
    }
}

impl SelectModsState {
    /// The selection set never holds an identifier twice.
    pub open spec fn inv(&self) -> bool {
        self@.selected.no_duplicates()
    }

    /// Fresh stage state: nothing selected, nothing focused.
    pub fn new() -> (st: SelectModsState)
        ensures
            st@.selected.len() == 0,
            st@.focus is None,
            st.inv(),
    {
        SelectModsState { selected: Vec::new(), focus: None }
    }

    /// React to the checkbox of `id` changing: the executable refinement of
    /// [`toggle_model`].
    pub fn set_checked(&mut self, id: &String, checked: bool)
        requires
            old(self).inv(),
        ensures
            final(self)@ == toggle_model(old(self)@, id@, checked),
            final(self).inv(),
    {
        let ghost pre = self@;
        if checked {
            match index_of_string(&self.selected, id) {
                Some(_) => {},
                None => {
                    proof {
                        lemma_push_keeps_no_duplicates(pre.selected, id@);
                    }
                    push_string(&mut self.selected, id);
                },
            }
            self.focus = Some(id.clone());
            proof {
                assert(self@ =~~= toggle_model(pre, id@, true));
            }
        } else {
            let clear_focus = match &self.focus {
                Some(f) => *f == *id,
                None => false,
            };
            if clear_focus {
                self.focus = None;
            }
            match index_of_string(&self.selected, id) {
                Some(i) => {
                    proof {
                        pre.selected.index_of_first_ensures(id@);
                        assert(pre.selected.index_of_first(id@) == Some(i as int));
                        lemma_remove_keeps_no_duplicates(pre.selected, i as int);
                    }
                    remove_string_at(&mut self.selected, i);
                },
                None => {
                    proof {
                        pre.selected.index_of_first_ensures(id@);
                    }
                },
            }
            proof {
                assert(self@ =~~= toggle_model(pre, id@, false));
            }
        }
    }

    /// Whether the confirmation ("next") control is offered: exactly when
    /// the selection set is non-empty.
    pub fn next_available(&self) -> (r: bool)
        ensures
            r == (self@.selected.len() > 0),
    {
        self.selected.len() > 0
    }

    /// The selected identifiers, to be recorded in the context on
    /// confirmation. Order is the insertion order; it carries no meaning.
    pub fn confirm(&self) -> (r: Vec<String>)
        ensures
            r.deep_view() == self@.selected,
    {
        let mut out: Vec<String> = Vec::new();
        let mut i: usize = 0;
        proof {
            assert(out.deep_view() =~~= self@.selected.subrange(0, 0));
        }
        while i < self.selected.len()
            invariant
                i <= self.selected@.len(),
                self@.selected.len() == self.selected@.len(),
                out.deep_view() == self@.selected.subrange(0, i as int),
            decreases self.selected@.len() - i,
        {
            push_string(&mut out, &self.selected[i]);
            proof {
                assert(out.deep_view() =~= self@.selected.subrange(0, i + 1));
            }
            i = i + 1;
        }
        proof {
            assert(self@.selected.subrange(0, self@.selected.len() as int) =~= self@.selected);
        }
        out
    }
}

/// The focus discipline of the stage: after a package is checked (and so
/// focused), unchecking that same package clears the focus, while unchecking
/// any other package leaves the focus on it.
pub proof fn lemma_focus_follows_unchecking(m: SelectionModel, a: Seq<char>, b: Seq<char>)
    requires
        a != b,
    ensures
        toggle_model(toggle_model(m, a, true), a, false).focus is None,
        toggle_model(toggle_model(m, a, true), b, false).focus == Some(a),
{
}

} // verus!
