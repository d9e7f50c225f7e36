//! The registry of keyboard shortcuts the shell subsystems own: each shortcut has a unique id,
//! an owner, a description, a default binding, and a trigger.

#[allow(unused_imports)]
use vstd::prelude::*;
use crate::text::eq_lit;

verus! {

/// When a shortcut fires.
#[derive(Clone, Copy, Debug, PartialEq, Eq, Structural)]
pub enum ShortcutTrigger {
    /// On the key press.
    Press,
    /// While the keys are held.
    Hold,
}

/// One registered shortcut.
#[derive(Clone, Debug, PartialEq, Eq)]
pub struct ShortcutSpec {
    pub id: String,
    pub owner: String,
    pub description: String,
    pub default_binding: String,
    pub trigger: ShortcutTrigger,
}

/// A shortcut by its text.
pub struct ShortcutView {
    pub id: Seq<char>,
    pub owner: Seq<char>,
    pub description: Seq<char>,
    pub default_binding: Seq<char>,
    pub trigger: ShortcutTrigger,
}

impl ShortcutSpec {
    /// The shortcut by its text.
    pub open spec fn text(self) -> ShortcutView {
        ShortcutView {
            id: self.id@,
            owner: self.owner@,
            description: self.description@,
            default_binding: self.default_binding@,
            trigger: self.trigger,
        }
    }

    /// A shortcut from its parts.
    pub fn new(id: &str, owner: &str, description: &str, default_binding: &str, trigger: ShortcutTrigger) -> (spec: Self)
        ensures
            spec.text() == (ShortcutView {
                id: id@,
                owner: owner@,
                description: description@,
                default_binding: default_binding@,
                trigger,
            }),
    {
        ShortcutSpec {
            id: id.to_owned(),
            owner: owner.to_owned(),
            description: description.to_owned(),
            default_binding: default_binding.to_owned(),
            trigger,
        }
    }
}

/// Why a registration was refused.
#[derive(Clone, Debug, PartialEq, Eq)]
pub struct DuplicateShortcut {
    pub id: String,
}

/// The registered shortcuts, in registration order.
#[derive(Clone, Debug, PartialEq, Eq)]
pub struct ShortcutRegistry {
    specs: Vec<ShortcutSpec>,
}

/// Whether a shortcut with the given id is among `shortcuts`.
pub open spec fn has_id(shortcuts: Seq<ShortcutView>, id: Seq<char>) -> bool {
    exists|i: int| 0 <= i < shortcuts.len() && shortcuts[i].id == id
}

/// Whether no two shortcuts share an id.
pub open spec fn ids_unique(shortcuts: Seq<ShortcutView>) -> bool {
    forall|i: int, j: int| 0 <= i < j < shortcuts.len() ==> shortcuts[i].id != shortcuts[j].id
}

impl ShortcutRegistry {
    /// The registered shortcuts by their text.
    pub closed spec fn view(&self) -> Seq<ShortcutView> {
        self.specs@.map_values(|spec: ShortcutSpec| spec.text())
    }

    /// An empty registry.
    pub fn new() -> (registry: Self)
        ensures
            registry.view().len() == 0,
    {
        let registry = ShortcutRegistry { specs: Vec::new() };
        assert(registry.view() =~= Seq::<ShortcutView>::empty());
        registry
    }

    /// Number of registered shortcuts.
    pub fn len(&self) -> (count: usize)
        ensures
            count == self.view().len(),
    {
        self.specs.len()
    }

    fn find(&self, id: &str) -> (index: Option<usize>)
        ensures
            match index {
                Some(i) => i < self.view().len() && self.view()[i as int].id == id@,
                None => !has_id(self.view(), id@),
            },
    {
        let mut i: usize = 0;
        while i < self.specs.len()
            invariant
                i <= self.specs@.len(),
                forall|j: int| 0 <= j < i ==> self.view()[j].id != id@,
            decreases self.specs.len() - i,
        {
            if eq_lit(&self.specs[i].id, id) {
                return Some(i);
            }
            i += 1;
        }
        None
    }

    /// Whether a shortcut with the given id is registered.
    pub fn contains(&self, id: &str) -> (found: bool)
        ensures
            found == has_id(self.view(), id@),
    {
        self.find(id).is_some()
    }

    /// The default binding of the shortcut with the given id.
    pub fn default_binding(&self, id: &str) -> (binding: Option<String>)
        ensures
            ids_unique(self.view()) ==> match binding {
                Some(binding) => exists|i: int|
                    0 <= i < self.view().len() && self.view()[i].id == id@
                        && self.view()[i].default_binding == binding@,
                None => !has_id(self.view(), id@),
            },
    {
        match self.find(id) {
            Some(i) => Some(self.specs[i].default_binding.clone()),
            None => None,
        }
    }

    /// Registers a shortcut: refused when its id is taken, else appended.
    pub fn register(&mut self, spec: ShortcutSpec) -> (result: Result<(), DuplicateShortcut>)
        ensures
            match result {
                Ok(()) => !has_id(old(self).view(), spec.id@) && final(self).view() == old(self).view().push(spec.text()),
                Err(duplicate) => has_id(old(self).view(), spec.id@) && duplicate.id@ == spec.id@
                    && final(self).view() == old(self).view(),
            },
            ids_unique(old(self).view()) ==> ids_unique(final(self).view()),
    {
        if self.find(spec.id.as_str()).is_some() {
            return Err(DuplicateShortcut { id: spec.id });
        }
        let ghost before = self.view();
        self.specs.push(spec);
        assert(self.view() =~= before.push(spec.text()));
        Ok(())
    }
}

/// Registers one built-in shortcut whose id is known to be free.
pub fn register_builtin(
    registry: &mut ShortcutRegistry,
    id: &str,
    owner: &str,
    description: &str,
    default_binding: &str,
    trigger: ShortcutTrigger,
)
    requires
        !has_id(old(registry).view(), id@),
    ensures
        final(registry).view() == old(registry).view().push(
            ShortcutView { id: id@, owner: owner@, description: description@, default_binding: default_binding@, trigger },
        ),
        ids_unique(old(registry).view()) ==> ids_unique(final(registry).view()),
{
    let result = registry.register(ShortcutSpec::new(id, owner, description, default_binding, trigger));
    match result {
        Ok(()) => {},
        Err(_) => {},
    }
}

/// The shortcut ids among `shortcuts`, in order.
pub open spec fn shortcut_ids(shortcuts: Seq<ShortcutView>) -> Seq<Seq<char>> {
    shortcuts.map_values(|shortcut: ShortcutView| shortcut.id)
}

/// Registering shortcuts one by one keeps the ids unique, and a refused registration changes
/// nothing.
pub proof fn law_registry_ids_stay_unique(before: Seq<ShortcutView>, spec: ShortcutView)
    requires
        ids_unique(before),
        !has_id(before, spec.id),
    ensures
        ids_unique(before.push(spec)),
        has_id(before.push(spec), spec.id),
{
    assert(before.push(spec)[before.len() as int].id == spec.id);
}

} // verus!
