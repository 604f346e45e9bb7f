//! Configuration loading.
//!
//! The host hands the plugin a key-to-value table at load time. The `debug`
//! entry is a boolean rendered as text; the `presets` entry is a JSON object
//! mapping each preset key to an object whose `emoji` field holds the glyph.
//! Absent or malformed configuration degrades to defaults — an empty preset
//! table and debug off — and never fails.

use vstd::prelude::*;

use crate::state::Preset;
use crate::state::State;

verus! {

/// What the JSON text of the `presets` entry parses to: for well-formed input
/// (an object of objects of strings), the entries in key order, each a key
/// and its field list; for anything else, nothing. Named rather than spelled
/// out: the grammar lives in the JSON library.
pub uninterp spec fn presets_json(s: Seq<char>) -> Option<
    Seq<(Seq<char>, Seq<(Seq<char>, Seq<char>)>)>,
>;

/// The value of the first pair whose key equals `key`, if any.
pub open spec fn kv_lookup(pairs: Seq<(Seq<char>, Seq<char>)>, key: Seq<char>) -> Option<Seq<char>>
    decreases pairs.len(),
{
    if pairs.len() == 0 {
        None
    } else if pairs[0].0 == key {
        Some(pairs[0].1)
    } else {
        kv_lookup(pairs.drop_first(), key)
    }
}

/// The field that carries a preset's glyph.
pub open spec fn glyph_field() -> Seq<char> {
    "emoji"@
}

/// The preset table drawn from parsed entries: each entry must carry the
/// glyph field; one entry without it rejects the whole table.
pub open spec fn presets_of_entries(
    entries: Seq<(Seq<char>, Seq<(Seq<char>, Seq<char>)>)>,
) -> Option<Seq<(Seq<char>, Seq<char>)>>
    decreases entries.len(),
{
    if entries.len() == 0 {
        Some(Seq::empty())
    } else {
        match kv_lookup(entries[0].1, glyph_field()) {
            None => None,
            Some(glyph) => match presets_of_entries(entries.drop_first()) {
                None => None,
                Some(rest) => Some(seq![(entries[0].0, glyph)] + rest),
            },
        }
    }
}

/// The preset table that a `presets` configuration value yields: empty when
/// the text does not parse or an entry lacks its glyph field.
pub open spec fn preset_table_of(s: Seq<char>) -> Seq<(Seq<char>, Seq<char>)> {
    match presets_json(s) {
        None => Seq::empty(),
        Some(entries) => match presets_of_entries(entries) {
            None => Seq::empty(),
            Some(table) => table,
        },
    }
}

/// A preset list seen as its table of key and glyph pairs.
pub open spec fn presets_view(presets: Seq<Preset>) -> Seq<(Seq<char>, Seq<char>)> {
    presets.map_values(|p: Preset| (p.key@, p.glyph@))
}

/// Relies on serde_json::from_str, deserializing into a map of maps of
/// strings: acceptance and content depend on the input text alone, and the
/// entries come out keyed uniquely, in key order.
#[verifier::external_body]
fn parse_presets_json(s: &str) -> (r: Option<Vec<(String, Vec<(String, String)>)>>)
    ensures
        match r {
            None => presets_json(s@) is None,
            Some(entries) => presets_json(s@) == Some(entries.deep_view()),
        },
{
    let parsed: Result<
        std::collections::BTreeMap<String, std::collections::BTreeMap<String, String>>,
        serde_json::Error,
    > = serde_json::from_str(s);
    match parsed {
        Ok(map) => Some(
            map.into_iter().map(|(key, fields)| (key, fields.into_iter().collect())).collect(),
        ),
        Err(_) => None,
    }
}

/// Find the value of the first pair carrying `key`, as `kv_lookup` reads it.
#[verifier::loop_isolation(false)]
fn kv_get<'a>(pairs: &'a Vec<(String, String)>, key: &String) -> (r: Option<&'a String>)
    ensures
        match kv_lookup(pairs.deep_view(), key@) {
            None => r is None,
            Some(value) => r is Some && r->0@ == value,
        },
{
    let n = pairs.len();
    let mut i: usize = 0;
    proof {
        assert(pairs.deep_view().skip(0) =~= pairs.deep_view());
    }
    while i < n
        invariant
            i <= n,
            kv_lookup(pairs.deep_view(), key@) == kv_lookup(
                pairs.deep_view().skip(i as int),
                key@,
            ),
        decreases n - i,
    {
        proof {
            assert(pairs.deep_view().skip(i as int)[0] == pairs.deep_view()[i as int]);
        }
        if pairs[i].0 == *key {
            return Some(&pairs[i].1);
        }
        proof {
            assert(pairs.deep_view().skip(i as int).drop_first() =~= pairs.deep_view().skip(i + 1));
        }
        i = i + 1;
    }
    proof {
        assert(pairs.deep_view().skip(n as int) =~= Seq::<(Seq<char>, Seq<char>)>::empty());
    }
    None
}

/// Build the preset table from parsed entries: take each entry's glyph field,
/// and reject the whole table when one entry lacks it.
#[verifier::loop_isolation(false)]
pub fn presets_from_entries(entries: Vec<(String, Vec<(String, String)>)>) -> (r: Vec<Preset>)
    ensures
        presets_view(r@) == match presets_of_entries(entries.deep_view()) {
            None => Seq::<(Seq<char>, Seq<char>)>::empty(),
            Some(table) => table,
        },
{
    let n = entries.len();
    let field = String::from_str("emoji");
    let mut out: Vec<Preset> = Vec::new();
    let mut i: usize = 0;
    proof {
        assert(entries.deep_view().skip(0) =~= entries.deep_view());
        assert(presets_view(out@) =~= Seq::<(Seq<char>, Seq<char>)>::empty());
    }
    while i < n
        invariant
            i <= n,
            match presets_of_entries(entries.deep_view().skip(i as int)) {
                None => presets_of_entries(entries.deep_view()) is None,
                Some(rest) => presets_of_entries(entries.deep_view()) == Some(
                    presets_view(out@) + rest,
                ),
            },
        decreases n - i,
    {
        proof {
            assert(entries.deep_view().skip(i as int)[0] == entries.deep_view()[i as int]);
        }
        let glyph = match kv_get(&entries[i].1, &field) {
            Some(glyph) => glyph.clone(),
            None => {
                return Vec::new();
            },
        };
        let key = entries[i].0.clone();
        let ghost before = out@;
        out.push(Preset { key, glyph });
        proof {
            let d = entries.deep_view();
            let pair = (key@, glyph@);
            assert(d[i as int] == (entries@[i as int].0@, entries@[i as int].1.deep_view()));
            assert(presets_view(out@) =~= presets_view(before).push(pair));
            assert(d.skip(i as int).drop_first() =~= d.skip(i + 1));
            match presets_of_entries(d.skip(i + 1)) {
                Some(rest) => {
                    assert(presets_of_entries(d.skip(i as int)) == Some(seq![pair] + rest));
                    assert(presets_view(before).push(pair) + rest =~= presets_view(before) + (
                    seq![pair] + rest));
                },
                None => {},
            }
        }
        i = i + 1;
    }
    proof {
        assert(entries.deep_view().skip(n as int) =~= Seq::<
            (Seq<char>, Seq<(Seq<char>, Seq<char>)>),
        >::empty());
    }
    out
}

impl State {
    /// Load the configuration handed over at plugin start: the debug flag is
    /// on exactly when the `debug` entry reads `true`, and the preset table
    /// is drawn from the `presets` entry — empty when that entry is absent,
    /// does not parse, or holds an entry without its glyph field. The
    /// topology part of the snapshot is untouched.
    pub fn load(&mut self, config: Vec<(String, String)>)
        ensures
            final(self).tabs == old(self).tabs,
            final(self).focused == old(self).focused,
            final(self).manifest == old(self).manifest,
            final(self).debug == (kv_lookup(config.deep_view(), "debug"@) == Some("true"@)),
            presets_view(final(self).presets@) == match kv_lookup(
                config.deep_view(),
                "presets"@,
            ) {
                None => Seq::<(Seq<char>, Seq<char>)>::empty(),
                Some(text) => preset_table_of(text),
            },
    {
        proof {
            assert(presets_view(Seq::<Preset>::empty()) =~= Seq::<(Seq<char>, Seq<char>)>::empty());
        }
        let debug_key = String::from_str("debug");
        let true_word = String::from_str("true");
        self.debug = match kv_get(&config, &debug_key) {
            Some(value) => *value == true_word,
            None => false,
        };
        let presets_key = String::from_str("presets");
        self.presets = match kv_get(&config, &presets_key) {
            Some(text) => match parse_presets_json(text.as_str()) {
                Some(entries) => presets_from_entries(entries),
                None => Vec::new(),
            },
            None => Vec::new(),
        };
    }
}

} // verus!
