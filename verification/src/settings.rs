//! Per-entity settings and their resolution.
//!
//! A skeleton entity may carry a settings component; a material pass looks the
//! settings up by entity id and falls back to the default configuration when
//! none are found, so a missing entry never fails a frame.

use vstd::prelude::*;
use crate::store::seq_get;

verus! {

/// Settings of one skeleton instance read by the material passes.
#[derive(Clone, Copy, Debug, PartialEq, Eq, Structural)]
pub struct SpineSettings {
    /// Whether the built-in materials may attach to this skeleton's segments.
    pub default_materials: bool,
}

/// The configuration used for entities without a settings component.
pub open spec fn spec_default_settings() -> SpineSettings {
    SpineSettings { default_materials: true }
}

impl Default for SpineSettings {
    /// By default the built-in materials are enabled.
    fn default() -> (r: Self)
        ensures
            r == spec_default_settings(),
    {
        SpineSettings { default_materials: true }
    }
}

/// Read-only lookup of [`SpineSettings`] by skeleton entity id, as a material
/// pass sees it. The first entry with a matching id wins.
#[derive(Debug)]
pub struct SpineSettingsQuery {
    /// Settings components present this frame, keyed by entity id.
    pub entries: Vec<(u64, SpineSettings)>,
}

impl SpineSettingsQuery {
    /// The settings stored for `entity`, if any.
    pub open spec fn spec_lookup(&self, entity: u64) -> Option<SpineSettings> {
        seq_get(self.entries@, entity)
    }

    /// The settings a pass acts on for `entity`: the stored ones, or the
    /// default configuration when none are stored.
    pub open spec fn spec_resolve(&self, entity: u64) -> SpineSettings {
        match self.spec_lookup(entity) {
            Some(s) => s,
            None => spec_default_settings(),
        }
    }

    /// A query with no settings components.
    pub fn new() -> (r: Self)
        ensures
            r.entries@.len() == 0,
    {
        SpineSettingsQuery { entries: Vec::new() }
    }

    /// Records the settings component of one entity.
    pub fn push(&mut self, entity: u64, settings: SpineSettings)
        ensures
            final(self).entries@ == old(self).entries@.push((entity, settings)),
    {
        self.entries.push((entity, settings));
    }

    /// Looks the settings of `entity` up.
    pub fn get(&self, entity: u64) -> (r: Option<SpineSettings>)
        ensures
            r == self.spec_lookup(entity),
    {
        let n = self.entries.len();
        proof {
            assert(self.entries@.subrange(0, n as int) =~= self.entries@);
        }
        let mut i: usize = 0;
        while i < n
            invariant
                n == self.entries@.len(),
                i <= n,
                seq_get(self.entries@, entity) == seq_get(self.entries@.subrange(i as int, n as int), entity),
            decreases n - i,
        {
            let (key, value) = self.entries[i];
            proof {
                let tail = self.entries@.subrange(i as int, n as int);
                assert(tail[0] == self.entries@[i as int]);
                assert(tail.subrange(1, tail.len() as int) =~= self.entries@.subrange(
                    i as int + 1,
                    n as int,
                ));
            }
            if key == entity {
                return Some(value);
            }
            i = i + 1;
        }
        proof {
            assert(self.entries@.subrange(n as int, n as int).len() == 0);
        }
        None
    }

    /// Resolves the settings a pass acts on for `entity`, falling back to the
    /// default configuration when the lookup misses.
    pub fn resolve(&self, entity: u64) -> (r: SpineSettings)
        ensures
            r == self.spec_resolve(entity),
    {
        match self.get(entity) {
            Some(s) => s,
            None => SpineSettings::default(),
        }
    }
}

} // verus!
