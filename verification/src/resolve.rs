//! The notification resolver.
//!
//! Given an inbound request and the current snapshot, the resolver filters on
//! the command name, picks the glyph for the requested preset, runs a
//! three-tier fallback chain to choose the target tab, and computes the label
//! mutation: strip the old annotation, append the new glyph, and hand the
//! host a rename instruction with the tab's 1-based index. Every miss along
//! the way drops the request silently; nothing here fails.

use vstd::prelude::*;

use crate::codec::annotate;
use crate::codec::annotate_spec;
use crate::codec::strip;
use crate::codec::strip_spec;
use crate::state::first_active;
use crate::state::PaneRecord;
use crate::state::Preset;
use crate::state::Rename;
use crate::state::Request;
use crate::state::State;
use crate::state::Tab;
use crate::state::TabPanes;

verus! {

/// The reserved command name: a request whose name differs is ignored.
pub open spec fn notify_name() -> Seq<char> {
    "notify"@
}

/// The built-in glyph used when the request carries no preset key.
pub open spec fn default_glyph() -> Seq<char> {
    seq!['\u{2705}']
}

/// The built-in glyph used when the preset key is unknown; distinct from the
/// default, so that a misconfigured key stays visible.
pub open spec fn fallback_glyph() -> Seq<char> {
    seq!['\u{2753}']
}

/// The glyph of the first preset whose key equals `key`, if any.
pub open spec fn preset_lookup(presets: Seq<Preset>, key: Seq<char>) -> Option<Seq<char>>
    decreases presets.len(),
{
    if presets.len() == 0 {
        None
    } else if presets[0].key@ == key {
        Some(presets[0].glyph@)
    } else {
        preset_lookup(presets.drop_first(), key)
    }
}

/// The glyph a request's payload resolves to: the default when the payload is
/// absent or empty, the preset's glyph on a hit, the fallback on a miss.
pub open spec fn glyph_for(presets: Seq<Preset>, payload: Option<Seq<char>>) -> Seq<char> {
    match payload {
        None => default_glyph(),
        Some(key) => if key.len() == 0 {
            default_glyph()
        } else {
            match preset_lookup(presets, key) {
                Some(glyph) => glyph,
                None => fallback_glyph(),
            }
        },
    }
}

/// Whether some pane in the list carries the identifier `id`.
pub open spec fn panes_contain(panes: Seq<PaneRecord>, id: Seq<char>) -> bool {
    exists|j: int| 0 <= j < panes.len() && panes[j].id@ == id
}

/// The position of the first manifest entry holding a pane with identifier
/// `id`, scanning entries in order.
pub open spec fn find_pane_tab(manifest: Seq<TabPanes>, id: Seq<char>) -> Option<u32>
    decreases manifest.len(),
{
    if manifest.len() == 0 {
        None
    } else if panes_contain(manifest[0].panes@, id) {
        Some(manifest[0].position)
    } else {
        find_pane_tab(manifest.drop_first(), id)
    }
}

/// The digits of `s` read as a decimal number, left to right, on top of the
/// accumulator: mirrors how the standard unsigned parse consumes its input,
/// failing on a non-digit and on overflow.
pub open spec fn parse_digits(s: Seq<char>, acc: u32) -> Option<u32>
    decreases s.len(),
{
    if s.len() == 0 {
        Some(acc)
    } else if !(48 <= s[0] as u32 <= 57) {
        None
    } else if acc as int * 10 + (s[0] as u32 - 48) > u32::MAX as int {
        None
    } else {
        parse_digits(s.drop_first(), (acc as int * 10 + (s[0] as u32 - 48)) as u32)
    }
}

/// What the standard unsigned parse accepts: an optional leading plus sign,
/// then one or more decimal digits whose value fits the type.
pub open spec fn parse_pos_spec(s: Seq<char>) -> Option<u32> {
    let digits = if s.len() > 0 && s[0] == '+' {
        s.drop_first()
    } else {
        s
    };
    if digits.len() == 0 {
        None
    } else {
        parse_digits(digits, 0)
    }
}

/// The three-tier fallback chain. A present pane id is authoritative: it is
/// matched against the manifest and a miss abandons the request rather than
/// escalating. Else an explicit tab position that parses as a non-negative
/// integer is used unchecked — its existence is validated at mutation time —
/// while one that does not parse leaves that tier inapplicable. Else the tab
/// currently marked active in the stored list is the target, if there is one.
pub open spec fn resolve_target_spec(st: State, req: Request) -> Option<u32> {
    if req.pane_id is Some {
        match st.manifest {
            Some(manifest) => find_pane_tab(manifest@, req.pane_id->0@),
            None => None,
        }
    } else {
        let parsed = match req.tab_position {
            Some(text) => parse_pos_spec(text@),
            None => None,
        };
        match parsed {
            Some(pos) => Some(pos),
            None => match first_active(st.tabs@) {
                Some(t) => Some(t.position),
                None => None,
            },
        }
    }
}

/// The first tab in the list standing at position `pos`, if any.
pub open spec fn find_tab(tabs: Seq<Tab>, pos: u32) -> Option<Tab>
    decreases tabs.len(),
{
    if tabs.len() == 0 {
        None
    } else if tabs[0].position == pos {
        Some(tabs[0])
    } else {
        find_tab(tabs.drop_first(), pos)
    }
}

/// What a request makes the resolver emit. A foreign command name, an
/// unresolved target and a target absent from the tab list all emit nothing;
/// otherwise exactly one rename comes out, carrying the target's 1-based
/// index and its label re-annotated with the resolved glyph.
pub open spec fn pipe_post(st: State, req: Request, r: Option<Rename>) -> bool {
    if req.name@ != notify_name() {
        r is None
    } else {
        match resolve_target_spec(st, req) {
            None => r is None,
            Some(pos) => match find_tab(st.tabs@, pos) {
                None => r is None,
                Some(t) => {
                    &&& r is Some
                    &&& r->0.index == pos + 1
                    &&& r->0.name@ == annotate_spec(
                        strip_spec(t.name@),
                        glyph_for(st.presets@, req.payload.deep_view()),
                    )
                },
            },
        }
    }
}

/// Parse a decimal position as the standard unsigned parse would: an optional
/// plus sign, then digits, rejecting anything else and any overflowing value.
#[verifier::loop_isolation(false)]
pub fn parse_position(s: &str) -> (r: Option<u32>)
    ensures
        r == parse_pos_spec(s@),
{
    let len = s.unicode_len();
    let mut i: usize = 0;
    if len > 0 && s.get_char(0) == '+' {
        i = 1;
    }
    if i == len {
        return None;
    }
    let mut acc: u32 = 0;
    proof {
        if i == 1 {
            assert(s@.skip(1) =~= s@.drop_first());
        } else {
            assert(s@.skip(0) =~= s@);
        }
    }
    while i < len
        invariant
            i <= len,
            len == s@.len(),
            parse_pos_spec(s@) == parse_digits(s@.skip(i as int), acc),
        decreases len - i,
    {
        let c = s.get_char(i);
        let d = c as u32;
        assert(s@.skip(i as int)[0] == c);
        if d < 48 || d > 57 {
            return None;
        }
        let wide: u64 = acc as u64 * 10 + (d - 48) as u64;
        if wide > u32::MAX as u64 {
            return None;
        }
        proof {
            assert(s@.skip(i as int).drop_first() =~= s@.skip(i + 1));
        }
        acc = wide as u32;
        i = i + 1;
    }
    proof {
        assert(s@.skip(len as int) =~= Seq::<char>::empty());
    }
    Some(acc)
}

impl State {
    /// The glyph the request's payload stands for: the default glyph for an
    /// absent or empty payload, the preset's glyph for a known key, the
    /// fallback glyph for an unknown one.
    #[verifier::loop_isolation(false)]
    pub fn glyph_for_payload(&self, payload: &Option<String>) -> (g: String)
        ensures
            g@ == glyph_for(self.presets@, payload.deep_view()),
    {
        proof {
            reveal_strlit("\u{2705}");
            reveal_strlit("\u{2753}");
        }
        match payload {
            None => String::from_str("\u{2705}"),
            Some(key) => {
                if key.as_str().is_empty() {
                    return String::from_str("\u{2705}");
                }
                let n = self.presets.len();
                let mut i: usize = 0;
                proof {
                    assert(self.presets@.skip(0) =~= self.presets@);
                }
                while i < n
                    invariant
                        i <= n,
                        n == self.presets@.len(),
                        preset_lookup(self.presets@, key@) == preset_lookup(
                            self.presets@.skip(i as int),
                            key@,
                        ),
                    decreases n - i,
                {
                    assert(self.presets@.skip(i as int)[0] == self.presets@[i as int]);
                    if self.presets[i].key == *key {
                        return self.presets[i].glyph.clone();
                    }
                    proof {
                        assert(self.presets@.skip(i as int).drop_first() =~= self.presets@.skip(
                            i + 1,
                        ));
                    }
                    i = i + 1;
                }
                proof {
                    assert(self.presets@.skip(n as int) =~= Seq::<Preset>::empty());
                }
                String::from_str("\u{2753}")
            },
        }
    }

    /// Scan the stored manifest for the pane carrying `id`; the first match
    /// names the target tab position.
    #[verifier::loop_isolation(false)]
    fn find_pane(&self, id: &String) -> (r: Option<u32>)
        requires
            self.manifest is Some,
        ensures
            r == find_pane_tab(self.manifest->0@, id@),
    {
        let manifest = match &self.manifest {
            Some(m) => m,
            None => {
                return None;
            },
        };
        let n = manifest.len();
        let mut i: usize = 0;
        proof {
            assert(manifest@.skip(0) =~= manifest@);
        }
        while i < n
            invariant
                i <= n,
                n == manifest@.len(),
                manifest == self.manifest->0,
                find_pane_tab(self.manifest->0@, id@) == find_pane_tab(
                    manifest@.skip(i as int),
                    id@,
                ),
            decreases n - i,
        {
            assert(manifest@.skip(i as int)[0] == manifest@[i as int]);
            let panes = &manifest[i].panes;
            let m = panes.len();
            let mut j: usize = 0;
            while j < m
                invariant
                    j <= m,
                    forall|k: int| 0 <= k < j ==> panes@[k].id@ != id@,
                decreases m - j,
            {
                if panes[j].id == *id {
                    assert(panes_contain(manifest@[i as int].panes@, id@));
                    return Some(manifest[i].position);
                }
                j = j + 1;
            }
            assert(!panes_contain(manifest@[i as int].panes@, id@));
            proof {
                assert(manifest@.skip(i as int).drop_first() =~= manifest@.skip(i + 1));
            }
            i = i + 1;
        }
        proof {
            assert(manifest@.skip(n as int) =~= Seq::<TabPanes>::empty());
        }
        None
    }

    /// The position of the tab currently marked active in the stored list.
    #[verifier::loop_isolation(false)]
    fn active_tab_position(&self) -> (r: Option<u32>)
        ensures
            r == match first_active(self.tabs@) {
                Some(t) => Some(t.position),
                None => None::<u32>,
            },
    {
        let n = self.tabs.len();
        let mut i: usize = 0;
        proof {
            assert(self.tabs@.skip(0) =~= self.tabs@);
        }
        while i < n
            invariant
                i <= n,
                n == self.tabs@.len(),
                first_active(self.tabs@) == first_active(self.tabs@.skip(i as int)),
            decreases n - i,
        {
            assert(self.tabs@.skip(i as int)[0] == self.tabs@[i as int]);
            if self.tabs[i].active {
                return Some(self.tabs[i].position);
            }
            proof {
                assert(self.tabs@.skip(i as int).drop_first() =~= self.tabs@.skip(i + 1));
            }
            i = i + 1;
        }
        proof {
            assert(self.tabs@.skip(n as int) =~= Seq::<Tab>::empty());
        }
        None
    }

    /// Run the three-tier fallback chain for one request: an explicit tab
    /// position takes the position tier only when it parses; otherwise
    /// resolution falls through to the focus tier.
    fn resolve_target(&self, req: &Request) -> (r: Option<u32>)
        ensures
            r == resolve_target_spec(*self, *req),
    {
        match &req.pane_id {
            Some(id) => match &self.manifest {
                Some(_) => self.find_pane(id),
                None => None,
            },
            None => {
                let parsed = match &req.tab_position {
                    Some(text) => parse_position(text.as_str()),
                    None => None,
                };
                match parsed {
                    Some(pos) => Some(pos),
                    None => self.active_tab_position(),
                }
            },
        }
    }

    /// Handle one notification request against the current snapshot. Reads
    /// only; the single effect is the rename instruction handed back, if the
    /// request routes to a tab that the snapshot holds.
    #[verifier::loop_isolation(false)]
    pub fn pipe(&self, req: &Request) -> (r: Option<Rename>)
        ensures
            pipe_post(*self, *req, r),
    {
        if !(req.name == String::from_str("notify")) {
            return None;
        }
        let glyph = self.glyph_for_payload(&req.payload);
        let target = self.resolve_target(req);
        let pos = match target {
            Some(pos) => pos,
            None => {
                return None;
            },
        };
        let n = self.tabs.len();
        let mut i: usize = 0;
        proof {
            assert(self.tabs@.skip(0) =~= self.tabs@);
        }
        while i < n
            invariant
                i <= n,
                n == self.tabs@.len(),
                find_tab(self.tabs@, pos) == find_tab(self.tabs@.skip(i as int), pos),
            decreases n - i,
        {
            assert(self.tabs@.skip(i as int)[0] == self.tabs@[i as int]);
            if self.tabs[i].position == pos {
                let cleaned = strip(self.tabs[i].name.as_str());
                let renamed = annotate(cleaned.as_str(), glyph.as_str());
                return Some(Rename { index: pos as u64 + 1, name: renamed });
            }
            proof {
                assert(self.tabs@.skip(i as int).drop_first() =~= self.tabs@.skip(i + 1));
            }
            i = i + 1;
        }
        proof {
            assert(self.tabs@.skip(n as int) =~= Seq::<Tab>::empty());
        }
        None
    }
}

/// Tier precedence: when a request carries a pane id that the manifest
/// resolves, that tier's answer is the target, whatever tab position the
/// request may also carry.
pub proof fn lemma_pane_tier_precedence(st: State, req: Request, pos: u32)
    requires
        req.pane_id is Some,
        st.manifest is Some,
        find_pane_tab(st.manifest->0@, req.pane_id->0@) == Some(pos),
    ensures
        resolve_target_spec(st, req) == Some(pos),
{
}

/// An unknown, non-empty preset key yields the fallback glyph — which is not
/// the default glyph, so a misconfigured key stays visible — and the choice
/// of glyph never decides whether a request is dropped.
pub proof fn lemma_unknown_preset(presets: Seq<Preset>, key: Seq<char>)
    requires
        key.len() > 0,
        preset_lookup(presets, key) is None,
    ensures
        glyph_for(presets, Some(key)) == fallback_glyph(),
        fallback_glyph() != default_glyph(),
{
    assert(fallback_glyph()[0] != default_glyph()[0]);
}

} // verus!
