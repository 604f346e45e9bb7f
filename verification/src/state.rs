//! The topology snapshot and the event ingestor.
//!
//! The snapshot holds the latest full tab list, the latest full pane
//! manifest, the last observed focused-tab position, the preset table and the
//! debug flag. The ingestor consumes host-pushed topology events: a tab event
//! replaces the tab list wholesale and runs the focus-transition cleanup, a
//! pane event replaces the manifest wholesale. Both handlers are total and
//! never reject a payload.

use vstd::prelude::*;

use crate::codec::strip;
use crate::codec::strip_spec;

verus! {

/// One tab of the workspace, as the host reports it: its 0-based position
/// (unique within one snapshot), its label, whether it is the active tab, and
/// whether its panes are synchronized.
pub struct Tab {
    pub position: u32,
    pub name: String,
    pub active: bool,
    pub sync_panes_active: bool,
}

/// One pane: an opaque identifier, here the host's pane id rendered in
/// decimal. The owning tab is given by the manifest entry the pane sits in.
pub struct PaneRecord {
    pub id: String,
}

/// The panes of one tab: a manifest is a sequence of these, keyed by the
/// 0-based tab position.
pub struct TabPanes {
    pub position: u32,
    pub panes: Vec<PaneRecord>,
}

/// One preset: a key that a request may name as its payload, and the
/// annotation glyph that the key stands for.
pub struct Preset {
    pub key: String,
    pub glyph: String,
}

/// A rename instruction for the host: the 1-based index of the tab to rename
/// (the 0-based position plus one, a fixed contract with the host) and the
/// new label.
pub struct Rename {
    pub index: u64,
    pub name: String,
}

/// An inbound notification request: the command name, the optional preset
/// key, and the recognized routing arguments. A pane id and a tab position
/// arrive as text and are matched or parsed as text.
pub struct Request {
    pub name: String,
    pub payload: Option<String>,
    pub pane_id: Option<String>,
    pub tab_position: Option<String>,
}

/// A host-pushed topology event. Either kind replaces its part of the
/// snapshot wholesale; there is no incremental diff.
pub enum Event {
    TabUpdate(Vec<Tab>),
    PaneUpdate(Vec<TabPanes>),
}

/// The topology snapshot: the latest tab list, the last observed focused-tab
/// position, the latest pane manifest (absent until the first pane event),
/// the preset table and the debug flag.
pub struct State {
    pub tabs: Vec<Tab>,
    pub focused: Option<u32>,
    pub manifest: Option<Vec<TabPanes>>,
    pub presets: Vec<Preset>,
    pub debug: bool,
}

/// The first tab marked active in a tab list, if any.
pub open spec fn first_active(tabs: Seq<Tab>) -> Option<Tab>
    decreases tabs.len(),
{
    if tabs.len() == 0 {
        None
    } else if tabs[0].active {
        Some(tabs[0])
    } else {
        first_active(tabs.drop_first())
    }
}

/// The focused-tab position after a tab event: the active tab's position if
/// one is present, otherwise the stored position, unchanged.
pub open spec fn focus_after(focused: Option<u32>, tabs: Seq<Tab>) -> Option<u32> {
    match first_active(tabs) {
        Some(t) => Some(t.position),
        None => focused,
    }
}

/// Whether a tab event carrying `tabs`, arriving while `focused` is stored,
/// is a focus transition whose cleanup emits a rename: there is an active
/// tab, its position differs from the stored one, and its label is not
/// already clean.
pub open spec fn tab_update_emits(focused: Option<u32>, tabs: Seq<Tab>) -> bool {
    match first_active(tabs) {
        Some(t) => Some(t.position) != focused && strip_spec(t.name@) != t.name@,
        None => false,
    }
}

/// What a tab event does to the snapshot and what it emits.
pub open spec fn tab_update_post(pre: State, post: State, tabs: Seq<Tab>, r: Option<Rename>) -> bool {
    &&& post.tabs@ == tabs
    &&& post.manifest == pre.manifest
    &&& post.presets == pre.presets
    &&& post.debug == pre.debug
    &&& post.focused == focus_after(pre.focused, tabs)
    &&& r is Some <==> tab_update_emits(pre.focused, tabs)
    &&& match first_active(tabs) {
        Some(t) => r is Some ==> r->0.index == t.position + 1 && r->0.name@ == strip_spec(
            t.name@,
        ),
        None => true,
    }
}

/// What a pane event does to the snapshot: it stores the manifest and touches
/// nothing else.
pub open spec fn pane_update_post(pre: State, post: State, manifest: Seq<TabPanes>) -> bool {
    &&& post.manifest is Some && post.manifest->0@ == manifest
    &&& post.tabs == pre.tabs
    &&& post.focused == pre.focused
    &&& post.presets == pre.presets
    &&& post.debug == pre.debug
}

impl State {
    /// The snapshot at plugin load: no tabs, no focus, no manifest, no
    /// presets, debug off.
    pub fn new() -> (s: State)
        ensures
            s.tabs@.len() == 0,
            s.focused is None,
            s.manifest is None,
            s.presets@.len() == 0,
            s.debug == false,
    {
        State {
            tabs: Vec::new(),
            focused: None,
            manifest: None,
            presets: Vec::new(),
            debug: false,
        }
    }

    /// Ingest a tab-topology event: replace the stored tab list, and if the
    /// active tab's position differs from the stored focus, record the new
    /// focus and emit at most one cleanup rename — none when the label is
    /// already clean, which is what keeps a rename from feeding back into an
    /// endless rename loop.
    pub fn handle_tab_update(&mut self, tabs: Vec<Tab>) -> (r: Option<Rename>)
        ensures
            tab_update_post(*old(self), *final(self), tabs@, r),
    {
        let ghost pre_focused = self.focused;
        self.tabs = tabs;
        let n = self.tabs.len();
        let mut i: usize = 0;
        proof {
            assert(self.tabs@.skip(0) =~= self.tabs@);
        }
        loop
            invariant_except_break
                i <= n,
                n == self.tabs@.len(),
                first_active(self.tabs@) == first_active(self.tabs@.skip(i as int)),
            ensures
                match first_active(self.tabs@) {
                    Some(t) => i < n && self.tabs@[i as int] == t,
                    None => i == n,
                },
            decreases n - i,
        {
            if i == n {
                proof {
                    assert(self.tabs@.skip(n as int) =~= Seq::<Tab>::empty());
                }
                break;
            }
            if self.tabs[i].active {
                proof {
                    assert(self.tabs@.skip(i as int)[0] == self.tabs@[i as int]);
                }
                break;
            }
            proof {
                assert(self.tabs@.skip(i as int).drop_first() =~= self.tabs@.skip(i + 1));
            }
            i = i + 1;
        }
        if i == n {
            return None;
        }
        let pos = self.tabs[i].position;
        let is_new = match self.focused {
            Some(p) => p != pos,
            None => true,
        };
        if !is_new {
            return None;
        }
        self.focused = Some(pos);
        let cleaned = strip(self.tabs[i].name.as_str());
        if cleaned == self.tabs[i].name {
            return None;
        }
        Some(Rename { index: pos as u64 + 1, name: cleaned })
    }

    /// Ingest a pane-topology event: replace the stored manifest. No side
    /// effects; the manifest only serves later pane lookups.
    pub fn handle_pane_update(&mut self, manifest: Vec<TabPanes>)
        ensures
            pane_update_post(*old(self), *final(self), manifest@),
    {
        self.manifest = Some(manifest);
    }

    /// Ingest one topology event, dispatching on its kind.
    pub fn update(&mut self, event: Event) -> (r: Option<Rename>)
        ensures
            match event {
                Event::TabUpdate(tabs) => tab_update_post(*old(self), *final(self), tabs@, r),
                Event::PaneUpdate(manifest) => pane_update_post(
                    *old(self),
                    *final(self),
                    manifest@,
                ) && r is None,
            },
    {
        match event {
            Event::TabUpdate(tabs) => self.handle_tab_update(tabs),
            Event::PaneUpdate(manifest) => {
                self.handle_pane_update(manifest);
                None
            },
        }
    }
}

/// Focus-transition cleanup fires at most once per transition: after a tab
/// event has been ingested, a repeat of the same event finds the focus
/// already on the active tab, so it emits no further rename and moves the
/// focus nowhere. Repeated by induction, any number of repeats emit nothing.
pub proof fn lemma_cleanup_once(focused: Option<u32>, tabs: Seq<Tab>)
    ensures
        !tab_update_emits(focus_after(focused, tabs), tabs),
        focus_after(focus_after(focused, tabs), tabs) == focus_after(focused, tabs),
{
}

} // verus!
