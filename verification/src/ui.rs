use vstd::prelude::*;

verus! {

/// A window of the user interface, implemented by users of the library.
pub trait Window {
    /// The name the window is known by.
    spec fn spec_name(&self) -> Seq<char>;

    fn render(&self);

    /// The name the window is known by.
    fn get_name(&self) -> (r: String)
        ensures
            r@ == self.spec_name();

    fn keep_open(&self) -> bool;

    fn close(&self);
}

/// The open windows of a user interface, by name.
pub struct Ui<W: Window> {
    windows: Vec<(String, W)>,
}

pub open spec fn other_name(name: Seq<char>) -> spec_fn(Seq<char>) -> bool {
    |n: Seq<char>| n != name
}

/// The entries not named `name`.
pub open spec fn other_entry<W>(name: Seq<char>) -> spec_fn((Seq<char>, W)) -> bool {
    |e: (Seq<char>, W)| e.0 != name
}

impl<W: Window> Ui<W> {
    /// The names of the open windows, in the order they were opened.
    pub closed spec fn spec_names(&self) -> Seq<Seq<char>> {
        self.windows@.map_values(|w: (String, W)| w.0@)
    }

    /// The open windows with their names, in the order they were opened.
    pub closed spec fn spec_entries(&self) -> Seq<(Seq<char>, W)> {
        self.windows@.map_values(|w: (String, W)| (w.0@, w.1))
    }

    /// No interface has no window.
    pub fn new() -> (r: Ui<W>)
        ensures
            r.spec_names() == Seq::<Seq<char>>::empty(),
            r.spec_entries() == Seq::<(Seq<char>, W)>::empty(),
    {
        let r = Ui { windows: Vec::new() };
        assert(r.spec_names() =~= Seq::<Seq<char>>::empty());
        assert(r.spec_entries() =~= Seq::<(Seq<char>, W)>::empty());
        r
    }

    fn remove_named(&mut self, name: &String)
        ensures
            final(self).spec_names() == old(self).spec_names().filter(other_name(name@)),
            final(self).spec_entries() == old(self).spec_entries().filter(other_entry(name@)),
    {
        let ghost before = self.spec_names();
        let ghost entries = self.spec_entries();
        let mut kept: Vec<(String, W)> = Vec::new();
        let mut windows: Vec<(String, W)> = Vec::new();
        std::mem::swap(&mut windows, &mut self.windows);
        let ghost all = windows@;
        assert(all.map_values(|w: (String, W)| w.0@) == before);
        assert(all.len() == windows.len());
        let mut i: usize = 0;
        while windows.len() > 0
            invariant
                i + windows@.len() == all.len(),
                all.len() <= usize::MAX,
                windows@ == all.subrange(i as int, all.len() as int),
                kept@.map_values(|w: (String, W)| w.0@) == before.take(i as int).filter(other_name(name@)),
                kept@.map_values(|w: (String, W)| (w.0@, w.1)) == entries.take(i as int).filter(other_entry(name@)),
                before == all.map_values(|w: (String, W)| w.0@),
                entries == all.map_values(|w: (String, W)| (w.0@, w.1)),
            decreases windows@.len(),
        {
            let entry = windows.remove(0);
            proof {
                assert(entry == all[i as int]);
                assert(before.take(i + 1) =~= before.take(i as int).push(before[i as int]));
                assert(entries.take(i + 1) =~= entries.take(i as int).push(entries[i as int]));
                before.take(i as int).lemma_filter_push(before[i as int], other_name(name@));
                entries.take(i as int).lemma_filter_push(entries[i as int], other_entry(name@));
            }
            let same = string_eq(&entry.0, name);
            let ghost kept_before = kept@;
            if !same {
                kept.push(entry);
                assert(kept@.map_values(|w: (String, W)| w.0@) =~= kept_before.map_values(|w: (String, W)| w.0@).push(before[i as int]));
                assert(kept@.map_values(|w: (String, W)| (w.0@, w.1)) =~= kept_before.map_values(|w: (String, W)| (w.0@, w.1)).push(entries[i as int]));
            }
            i = i + 1;
            assert(windows@ =~= all.subrange(i as int, all.len() as int));
        }
        assert(before.take(i as int) =~= before);
        assert(entries.take(i as int) =~= entries);
        self.windows = kept;
    }

    /// Opens `window` under `name`, in place of any open window of that name.
    pub fn open_named_window(&mut self, name: String, window: W)
        ensures
            final(self).spec_names() == old(self).spec_names().filter(other_name(name@)).push(name@),
            final(self).spec_entries() == old(self).spec_entries().filter(other_entry(name@)).push((name@, window)),
    {
        let ghost spec_name = name@;
        let ghost w = window;
        self.remove_named(&name);
        let ghost names = self.spec_names();
        let ghost kept = self.spec_entries();
        let mut windows: Vec<(String, W)> = Vec::new();
        std::mem::swap(&mut windows, &mut self.windows);
        let ghost before = windows@;
        assert(before.map_values(|w: (String, W)| w.0@) == names);
        let entry = (name, window);
        assert(windows@ == before);
        windows.push(entry);
        assert(windows@.len() == before.len() + 1);
        assert(windows@[before.len() as int].0@ == spec_name);
        self.windows = windows;
        assert(self.spec_names() =~= names.push(spec_name));
        assert(self.spec_entries() =~= kept.push((spec_name, w)));
    }

    /// Opens `window`, in place of any open window of the same name; the name is the one the
    /// window reports.
    pub fn open_window(&mut self, window: W)
        ensures
            final(self).spec_names() == old(self).spec_names().filter(other_name(window.spec_name())).push(
                window.spec_name(),
            ),
            final(self).spec_entries() == old(self).spec_entries().filter(other_entry(window.spec_name())).push(
                (window.spec_name(), window),
            ),
    {
        let name = window.get_name();
        self.open_named_window(name, window);
    }

    /// The names of the open windows, in the order they were opened.
    pub fn names(&self) -> (r: Vec<String>)
        ensures
            r@.map_values(|n: String| n@) == self.spec_names(),
    {
        let mut out: Vec<String> = Vec::new();
        let mut i: usize = 0;
        while i < self.windows.len()
            invariant
                i <= self.windows.len(),
                out@.map_values(|n: String| n@) =~= self.spec_names().take(i as int),
            decreases self.windows.len() - i,
        {
            let name = self.windows[i].0.clone();
            let ghost before = out@;
            out.push(name);
            assert(out@.map_values(|n: String| n@) =~= before.map_values(|n: String| n@).push(self.spec_names()[i as int]));
            assert(self.spec_names().take(i + 1) =~= self.spec_names().take(i as int).push(self.spec_names()[i as int]));
            i = i + 1;
        }
        assert(self.spec_names().take(self.windows.len() as int) =~= self.spec_names());
        out
    }

    /// Renders every open window.
    pub fn render_window(&self) {
        let mut i: usize = 0;
        while i < self.windows.len()
            invariant
                i <= self.windows.len(),
            decreases self.windows.len() - i,
        {
            self.windows[i].1.render();
            i = i + 1;
        }
    }

    /// Closes the open windows named `name`.
    pub fn close_named_window(&mut self, name: &String)
        ensures
            final(self).spec_names() == old(self).spec_names().filter(other_name(name@)),
            final(self).spec_entries() == old(self).spec_entries().filter(other_entry(name@)),
    {
        self.remove_named(name);
    }

    /// Closes the open windows named as `window` reports it is.
    pub fn close_window<V: Window>(&mut self, window: &V)
        ensures
            final(self).spec_names() == old(self).spec_names().filter(other_name(window.spec_name())),
            final(self).spec_entries() == old(self).spec_entries().filter(other_entry(window.spec_name())),
    {
        let name = window.get_name();
        self.remove_named(&name);
    }
}

fn string_eq(a: &String, b: &String) -> (r: bool)
    ensures
        r == (a@ == b@),
{
    *a == *b
}

/// A user interface context: the native context (known by the number its owner gave it) and
/// the windows of the interface.
pub struct ImGuiContext<W: Window> {
    raw: usize,
    ui: Ui<W>,
}

/// A context that is not the current one.
pub struct SuspendedContext<W: Window> {
    active: ImGuiContext<W>,
}

impl<W: Window> ImGuiContext<W> {
    pub closed spec fn spec_raw(&self) -> usize {
        self.raw
    }

    pub closed spec fn spec_ui(&self) -> &Ui<W> {
        &self.ui
    }

    /// A context for the native context `raw`, with no window.
    pub fn new(raw: usize) -> (r: ImGuiContext<W>)
        ensures
            r.spec_raw() == raw,
            r.spec_ui().spec_names() == Seq::<Seq<char>>::empty(),
    {
        ImGuiContext { raw, ui: Ui::new() }
    }

    /// The native context.
    pub fn raw(&self) -> (r: usize)
        ensures
            r == self.spec_raw(),
    {
        self.raw
    }

    pub fn ui(&self) -> (r: &Ui<W>)
        ensures
            r == self.spec_ui(),
    {
        &self.ui
    }

    pub fn ui_mut(&mut self) -> (r: &mut Ui<W>)
        ensures
            *r == *old(self).spec_ui(),
            final(self).spec_raw() == old(self).spec_raw(),
            *final(self).spec_ui() == *final(r),
    {
        &mut self.ui
    }

    /// Sets this context aside.
    pub fn suspend(self) -> (r: SuspendedContext<W>)
        ensures
            r.spec_context() == self,
    {
        SuspendedContext { active: self }
    }
}

impl<W: Window> SuspendedContext<W> {
    pub closed spec fn spec_context(&self) -> ImGuiContext<W> {
        self.active
    }

    /// Takes this context back; its native context is to be made the current one.
    pub fn activate(self) -> (r: ImGuiContext<W>)
        ensures
            r == self.spec_context(),
    {
        self.active
    }
}

/// The context that is current, with the number of its owner.
pub struct ActiveContext<W: Window> {
    pub owner: usize,
    pub context: ImGuiContext<W>,
}

/// The contexts of all user interfaces: at most one is current, the others are set aside by
/// their owner.
pub struct ContextRegistry<W: Window> {
    active: Option<ActiveContext<W>>,
    suspended: Vec<Option<SuspendedContext<W>>>,
}

/// Where the context of an owner is.
pub enum Placement {
    Active,
    Suspended,
    Missing,
}

impl<W: Window> ContextRegistry<W> {
    pub closed spec fn spec_owners(&self) -> nat {
        self.suspended@.len()
    }

    /// The owner of the current context, if one is current.
    pub closed spec fn spec_active_owner(&self) -> Option<usize> {
        match self.active {
            Some(a) => Some(a.owner),
            None => None,
        }
    }

    pub closed spec fn spec_placement(&self, owner: int) -> Placement {
        if self.active is Some && self.active.unwrap().owner == owner {
            Placement::Active
        } else if 0 <= owner < self.suspended@.len() && self.suspended@[owner] is Some {
            Placement::Suspended
        } else {
            Placement::Missing
        }
    }

    /// The raw context of an owner, wherever it is.
    pub closed spec fn spec_raw_of(&self, owner: int) -> usize {
        if self.active is Some && self.active.unwrap().owner == owner {
            self.active.unwrap().context.spec_raw()
        } else {
            self.suspended@[owner].unwrap().spec_context().spec_raw()
        }
    }

    /// The interface of an owner's context, wherever it is.
    pub closed spec fn spec_ui_of(&self, owner: int) -> Ui<W> {
        if self.active is Some && self.active.unwrap().owner == owner {
            self.active.unwrap().context.ui
        } else {
            self.suspended@[owner].unwrap().spec_context().ui
        }
    }

    /// Every owner's context is in exactly one place: current, or set aside by its owner.
    pub closed spec fn wf(&self) -> bool {
        &&& self.active matches Some(a) ==> a.owner < self.suspended@.len() && self.suspended@[a.owner as int] is None
        &&& forall|i: int| 0 <= i < self.suspended@.len() ==> (self.suspended@[i] is Some || (self.active matches Some(a) && a.owner == i))
    }

    /// No context yet.
    pub fn new() -> (r: ContextRegistry<W>)
        ensures
            r.wf(),
            r.spec_owners() == 0,
            r.spec_active_owner() is None,
    {
        ContextRegistry { active: None, suspended: Vec::new() }
    }

    /// The owner of the current context, if one is current.
    pub fn active_owner(&self) -> (r: Option<usize>)
        ensures
            r == self.spec_active_owner(),
    {
        match &self.active {
            Some(a) => Some(a.owner),
            None => None,
        }
    }

    /// Sets `context` aside for a new owner, whose number is returned.
    pub fn register(&mut self, context: ImGuiContext<W>) -> (owner: usize)
        requires
            old(self).wf(),
        ensures
            final(self).wf(),
            owner == old(self).spec_owners(),
            final(self).spec_owners() == old(self).spec_owners() + 1,
            final(self).spec_active_owner() == old(self).spec_active_owner(),
            final(self).spec_placement(owner as int) is Suspended,
            final(self).spec_raw_of(owner as int) == context.spec_raw(),
            forall|i: int| 0 <= i < old(self).spec_owners() ==> final(self).spec_placement(i) == old(self).spec_placement(i)
                && final(self).spec_raw_of(i) == old(self).spec_raw_of(i),
    {
        let owner = self.suspended.len();
        let ghost old_self = *self;
        self.suspended.push(Some(context.suspend()));
        proof {
            assert forall|i: int| 0 <= i < old_self.suspended@.len() implies self.suspended@[i] == old_self.suspended@[i] by {}
        }
        owner
    }

    /// Makes the context of `owner` the current one: a context of another owner that is
    /// current is set aside first. Returns the native context to make current when it
    /// changed, `None` when it already was.
    pub fn activate(&mut self, owner: usize) -> (r: Option<usize>)
        requires
            old(self).wf(),
            owner < old(self).spec_owners(),
        ensures
            final(self).wf(),
            final(self).spec_owners() == old(self).spec_owners(),
            final(self).spec_active_owner() == Some(owner),
            r is None <==> old(self).spec_active_owner() == Some(owner),
            r matches Some(raw) ==> raw == old(self).spec_raw_of(owner as int),
            forall|i: int| 0 <= i < old(self).spec_owners() && i != owner ==> final(self).spec_placement(i) is Suspended,
            forall|i: int| 0 <= i < old(self).spec_owners() ==> final(self).spec_raw_of(i) == old(self).spec_raw_of(i),
    {
        let ghost old_self = *self;
        if let Some(active) = self.active.take() {
            if active.owner != owner {
                let previous = active.owner;
                self.suspended.set(previous, Some(active.context.suspend()));
            } else {
                self.active = Some(active);
                proof {
                    assert forall|i: int| 0 <= i < old_self.spec_owners() && i != owner implies self.spec_placement(i) is Suspended by {
                        assert(old_self.suspended@[i] is Some || old_self.active.unwrap().owner == i);
                    }
                }
                return None;
            }
        }
        let ghost mid = *self;
        assert(mid.suspended@[owner as int] is Some);
        let mut slot: Option<SuspendedContext<W>> = None;
        std::mem::swap(&mut slot, &mut self.suspended[owner]);
        let context = slot.unwrap().activate();
        let raw = context.raw();
        self.active = Some(ActiveContext { owner, context });
        proof {
            assert forall|i: int| 0 <= i < old_self.spec_owners() && i != owner implies self.spec_placement(i) is Suspended by {
                assert(self.suspended@[i] == mid.suspended@[i]);
                assert(old_self.suspended@[i] is Some || old_self.active.unwrap().owner == i);
            }
            assert forall|i: int| 0 <= i < old_self.spec_owners() implies self.spec_raw_of(i) == old_self.spec_raw_of(i) by {
                if i != owner {
                    assert(self.suspended@[i] == mid.suspended@[i]);
                }
            }
        }
        Some(raw)
    }

    /// Sets the current context, which must be the one of `owner`, aside.
    pub fn suspend(&mut self, owner: usize)
        requires
            old(self).wf(),
            old(self).spec_active_owner() == Some(owner),
        ensures
            final(self).wf(),
            final(self).spec_owners() == old(self).spec_owners(),
            final(self).spec_active_owner() is None,
            forall|i: int| 0 <= i < old(self).spec_owners() ==> final(self).spec_placement(i) is Suspended,
            forall|i: int| 0 <= i < old(self).spec_owners() ==> final(self).spec_raw_of(i) == old(self).spec_raw_of(i),
    {
        let ghost old_self = *self;
        let active = self.active.take().unwrap();
        self.suspended.set(active.owner, Some(active.context.suspend()));
        proof {
            assert forall|i: int| 0 <= i < old_self.spec_owners() implies self.spec_placement(i) is Suspended by {
                if i != owner {
                    assert(old_self.suspended@[i] is Some);
                }
            }
        }
    }

    /// The interface of the current context, which must be the one of `owner`.
    pub fn ui(&self, owner: usize) -> (r: &Ui<W>)
        requires
            self.spec_active_owner() == Some(owner),
        ensures
            *r == self.spec_ui_of(owner as int),
    {
        &self.active.as_ref().unwrap().context.ui
    }

    /// The interface of the current context, to be changed; it must be the one of `owner`.
    pub fn ui_mut(&mut self, owner: usize) -> (r: &mut Ui<W>)
        requires
            old(self).wf(),
            old(self).spec_active_owner() == Some(owner),
        ensures
            final(self).wf(),
            final(self).spec_active_owner() == Some(owner),
            final(self).spec_owners() == old(self).spec_owners(),
            *r == old(self).spec_ui_of(owner as int),
            final(self).spec_ui_of(owner as int) == *final(r),
            final(self).spec_raw_of(owner as int) == old(self).spec_raw_of(owner as int),
    {
        let active = self.active.as_mut().unwrap();
        &mut active.context.ui
    }
}

/// Filtering out a name twice is filtering it out once.
proof fn lemma_filter_twice(names: Seq<Seq<char>>, name: Seq<char>)
    ensures
        names.filter(other_name(name)).filter(other_name(name)) == names.filter(other_name(name)),
    decreases names.len(),
{
    reveal_with_fuel(Seq::filter, 1);
    if names.len() > 0 {
        lemma_filter_twice(names.drop_last(), name);
        let rest = names.drop_last().filter(other_name(name));
        if other_name(name)(names.last()) {
            rest.lemma_filter_push(names.last(), other_name(name));
        }
    }
}

/// Closing a window right after opening one under the same name leaves the other windows as
/// they were, without any window of that name.
pub proof fn lemma_open_then_close(names: Seq<Seq<char>>, name: Seq<char>)
    ensures
        names.filter(other_name(name)).push(name).filter(other_name(name)) == names.filter(other_name(name)),
{
    names.filter(other_name(name)).lemma_filter_push(name, other_name(name));
    lemma_filter_twice(names, name);
}

/// Opening a window twice under the same name gives the windows that opening it once gives.
pub proof fn lemma_open_twice(names: Seq<Seq<char>>, name: Seq<char>)
    ensures
        names.filter(other_name(name)).push(name).filter(other_name(name)).push(name) == names.filter(
            other_name(name),
        ).push(name),
{
    lemma_open_then_close(names, name);
}

} // verus!
