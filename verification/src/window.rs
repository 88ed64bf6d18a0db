//! Per-window metadata keyed by window id, and the window-level decisions.

use std::collections::HashMap;

use vstd::prelude::*;
use vstd::std_specs::hash::spec_hash_map_iter;
use vstd::std_specs::iter::IteratorSpec;

verus! {

broadcast use vstd::std_specs::hash::group_hash_axioms;

/// A window's id as the caller numbers it.
pub type WindowId = u64;

#[derive(Debug, Clone, Copy, PartialEq, Eq, Structural)]
pub enum WindowKind {
    Main,
    About,
    /// Borderless launcher summoned by the global hotkey; kept alive across
    /// summons and toggled hidden / shown.
    Magnify,
}

/// Window state the app's decisions read. The logical size stays with the
/// caller.
#[derive(Debug, Clone, Copy, PartialEq, Eq, Structural)]
pub struct WindowInfo {
    pub kind: WindowKind,
    pub fullscreen: bool,
    pub maximized: bool,
    pub always_on_top: bool,
}

impl WindowInfo {
    pub fn new(kind: WindowKind) -> (w: Self)
        ensures
            w == (WindowInfo { kind, fullscreen: false, maximized: false, always_on_top: false }),
    {
        WindowInfo { kind, fullscreen: false, maximized: false, always_on_top: false }
    }
}

/// Some open window is of kind `kind`.
pub open spec fn has_kind(windows: Map<WindowId, WindowInfo>, kind: WindowKind) -> bool {
    exists|id: WindowId| windows.contains_key(id) && (#[trigger] windows[id]).kind == kind
}

/// The open windows by id: the main window, the launcher, and any others.
pub struct Windows {
    pub main: WindowId,
    pub magnify: WindowId,
    pub windows: HashMap<WindowId, WindowInfo>,
    /// The main window has keyboard focus.
    pub main_focused: bool,
}

impl Windows {
    pub fn new(main: WindowId, magnify: WindowId) -> (w: Self)
        ensures
            w.main == main,
            w.magnify == magnify,
            w.windows@ == Map::<WindowId, WindowInfo>::empty()
                .insert(main, WindowInfo::new_spec(WindowKind::Main))
                .insert(magnify, WindowInfo::new_spec(WindowKind::Magnify)),
            w.main_focused,
    {
        let mut windows: HashMap<WindowId, WindowInfo> = HashMap::new();
        windows.insert(main, WindowInfo::new(WindowKind::Main));
        windows.insert(magnify, WindowInfo::new(WindowKind::Magnify));
        Windows { main, magnify, windows, main_focused: true }
    }

    /// The recorded state of window `id`.
    pub fn info(&self, id: WindowId) -> (r: Option<WindowInfo>)
        ensures
            r == self.windows@.get(id),
    {
        match self.windows.get(&id) {
            Some(w) => Some(*w),
            None => None,
        }
    }

    /// An open About window, when there is one.
    pub fn about_window_id(&self) -> (r: Option<WindowId>)
        ensures
            r matches Some(id) ==> self.windows@.contains_key(id) && self.windows@[id].kind == WindowKind::About,
            r is None ==> !has_kind(self.windows@, WindowKind::About),
    {
        let m = &self.windows;
        let ghost v = spec_hash_map_iter(m).remaining();
        for entry in it: m.iter()
            invariant
                m@ == self.windows@,
                it.seq() == v,
                forall|j: int| 0 <= j < it.index() ==> (*(#[trigger] it.seq()[j]).1).kind != WindowKind::About,
        {
            let (id, info) = entry;
            if info.kind == WindowKind::About {
                proof {
                    let k = it.index() as int;
                    assert(entry == v[k]);
                    assert(m@.contains_key(*v[k].0));
                    assert(m@[*v[k].0] == *v[k].1);
                }
                return Some(*id);
            }
        }
        proof {
            assert forall|id: WindowId| m@.contains_key(id) implies (#[trigger] m@[id]).kind != WindowKind::About by {
                assert(v.contains((&id, &m@[id])));
                let j = choose|j: int| 0 <= j < v.len() && v[j] == (&id, &m@[id]);
                assert((*v[j].1).kind != WindowKind::About);
            }
        }
        None
    }

    /// The main window is maximized.
    pub fn main_window_maximized(&self) -> (r: bool)
        ensures
            r == (self.windows@.get(self.main) matches Some(w) && w.maximized),
    {
        match self.info(self.main) {
            Some(w) => w.maximized,
            None => false,
        }
    }

    /// Register a newly opened window; an entry already under `id` is
    /// replaced, so a later lookup of `id` reads `info`.
    pub fn insert(&mut self, id: WindowId, info: WindowInfo)
        ensures
            final(self).windows@ == old(self).windows@.insert(id, info),
            final(self).main == old(self).main,
            final(self).magnify == old(self).magnify,
            final(self).main_focused == old(self).main_focused,
    {
        let _ = self.windows.insert(id, info);
    }

    /// Forget a closed window; returns whether it was the main window.
    pub fn remove(&mut self, id: WindowId) -> (was_main: bool)
        ensures
            was_main == (id == old(self).main),
            final(self).windows@ == old(self).windows@.remove(id),
            final(self).main == old(self).main,
            final(self).magnify == old(self).magnify,
            final(self).main_focused == old(self).main_focused,
    {
        let _ = self.windows.remove(&id);
        id == self.main
    }

    /// Flip `flag` on window `id` and return its new value; `None` when the
    /// window is unknown.
    pub fn toggle(&mut self, id: WindowId, flag: WindowFlag) -> (r: Option<bool>)
        ensures
            final(self).main == old(self).main,
            final(self).magnify == old(self).magnify,
            final(self).main_focused == old(self).main_focused,
            (match old(self).windows@.get(id) {
                Some(w) => {
                    &&& r == Some(!flag.get(w))
                    &&& final(self).windows@ == old(self).windows@.insert(id, flag.flipped(w))
                },
                None => r is None && final(self).windows@ == old(self).windows@,
            }),
    {
        match self.info(id) {
            Some(w) => {
                let next = flag.flip(w);
                let _ = self.windows.insert(id, next);
                Some(flag.read(next))
            },
            None => None,
        }
    }
}

/// The togglable per-window flags.
#[derive(Debug, Clone, Copy, PartialEq, Eq, Structural)]
pub enum WindowFlag {
    Fullscreen,
    Maximized,
    AlwaysOnTop,
}

impl WindowFlag {
    pub open spec fn get(self, w: WindowInfo) -> bool {
        match self {
            WindowFlag::Fullscreen => w.fullscreen,
            WindowFlag::Maximized => w.maximized,
            WindowFlag::AlwaysOnTop => w.always_on_top,
        }
    }

    pub open spec fn flipped(self, w: WindowInfo) -> WindowInfo {
        match self {
            WindowFlag::Fullscreen => WindowInfo { fullscreen: !w.fullscreen, ..w },
            WindowFlag::Maximized => WindowInfo { maximized: !w.maximized, ..w },
            WindowFlag::AlwaysOnTop => WindowInfo { always_on_top: !w.always_on_top, ..w },
        }
    }

    pub fn read(self, w: WindowInfo) -> (b: bool)
        ensures
            b == self.get(w),
    {
        match self {
            WindowFlag::Fullscreen => w.fullscreen,
            WindowFlag::Maximized => w.maximized,
            WindowFlag::AlwaysOnTop => w.always_on_top,
        }
    }

    pub fn flip(self, w: WindowInfo) -> (r: WindowInfo)
        ensures
            r == self.flipped(w),
    {
        match self {
            WindowFlag::Fullscreen => WindowInfo { fullscreen: !w.fullscreen, ..w },
            WindowFlag::Maximized => WindowInfo { maximized: !w.maximized, ..w },
            WindowFlag::AlwaysOnTop => WindowInfo { always_on_top: !w.always_on_top, ..w },
        }
    }
}

impl WindowInfo {
    pub open spec fn new_spec(kind: WindowKind) -> WindowInfo {
        WindowInfo { kind, fullscreen: false, maximized: false, always_on_top: false }
    }
}

/// Flipping a flag twice restores the window, and a flip touches no other
/// field.
pub proof fn lemma_flag_flip_restores(flag: WindowFlag, w: WindowInfo)
    ensures
        flag.flipped(flag.flipped(w)) == w,
        flag.get(flag.flipped(w)) == !flag.get(w),
        flag.flipped(w).kind == w.kind,
{
}

/// After a window is forgotten it reads as unknown, and every other window
/// reads as before.
pub proof fn lemma_removed_window_is_gone(windows: Map<WindowId, WindowInfo>, id: WindowId, other: WindowId)
    ensures
        windows.remove(id).get(id) is None,
        other != id ==> windows.remove(id).get(other) == windows.get(other),
{
}

/// What a lookup gives back after a registration: the registered state
/// under its id, every other window as before.
pub proof fn lemma_read_after_insert(windows: Map<WindowId, WindowInfo>, id: WindowId, info: WindowInfo, other: WindowId)
    ensures
        windows.insert(id, info).get(id) == Some(info),
        other != id ==> windows.insert(id, info).get(other) == windows.get(other),
{
}

} // verus!
