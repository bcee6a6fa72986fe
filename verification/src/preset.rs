//! Preset records, the catalog that holds them, and the eligibility filter.

use vstd::prelude::*;
use crate::text::opt_chars;

verus! {

/// One named build configuration.
#[derive(Debug, Clone, PartialEq, Eq)]
pub struct Preset {
    /// Stable identifier, handed to the configure phase.
    pub name: String,
    /// Human label; the name stands in where it is absent.
    pub display_name: Option<String>,
    /// Directory the build phase builds into; a preset without one is a template.
    pub binary_dir: Option<String>,
    /// Hidden presets are never offered.
    pub hidden: bool,
}

/// The catalog: presets in the order of the source document.
#[derive(Debug, Clone, PartialEq, Eq)]
pub struct Presets {
    pub configure_presets: Vec<Preset>,
}

/// Mathematical model of a [`Preset`].
pub struct PresetView {
    pub name: Seq<char>,
    pub display_name: Option<Seq<char>>,
    pub binary_dir: Option<Seq<char>>,
    pub hidden: bool,
}

impl PresetView {
    /// A preset can be chosen when it is not hidden and declares where it builds.
    pub open spec fn is_eligible(self) -> bool {
        !self.hidden && self.binary_dir is Some
    }

    /// The display name, or else the name.
    pub open spec fn label(self) -> Seq<char> {
        match self.display_name {
            Some(text) => text,
            None => self.name,
        }
    }
}

impl View for Preset {
    type V = PresetView;

    open spec fn view(&self) -> PresetView {
        PresetView {
            name: self.name@,
            display_name: opt_chars(self.display_name),
            binary_dir: opt_chars(self.binary_dir),
            hidden: self.hidden,
        }
    }
}

/// The models of a sequence of presets, in order.
pub open spec fn preset_views(presets: Seq<Preset>) -> Seq<PresetView> {
    presets.map_values(|p: Preset| p@)
}

impl View for Presets {
    type V = Seq<PresetView>;

    open spec fn view(&self) -> Seq<PresetView> {
        preset_views(self.configure_presets@)
    }
}

/// The eligible presets of a catalog, in catalog order.
pub open spec fn eligible_views(catalog: Seq<PresetView>) -> Seq<PresetView> {
    catalog.filter(|p: PresetView| p.is_eligible())
}

/// The positions of the eligible presets of a catalog, ascending.
pub open spec fn eligible_positions(catalog: Seq<PresetView>) -> Seq<int>
    decreases catalog.len(),
{
    if catalog.len() == 0 {
        Seq::empty()
    } else {
        let earlier = eligible_positions(catalog.drop_last());
        if catalog.last().is_eligible() {
            earlier.push(catalog.len() - 1)
        } else {
            earlier
        }
    }
}

/// The eligible presets of a catalog are the records at its eligible
/// positions: none of them is hidden or without a build directory, they stand
/// in the order the catalog has them in, and no eligible record is missing.
pub proof fn eligible_keeps_catalog_order(catalog: Seq<PresetView>)
    ensures
        eligible_views(catalog).len() == eligible_positions(catalog).len(),
        forall|k: int|
            0 <= k < eligible_positions(catalog).len() ==> {
                let position = #[trigger] eligible_positions(catalog)[k];
                &&& 0 <= position < catalog.len()
                &&& eligible_views(catalog)[k] == catalog[position]
                &&& !catalog[position].hidden
                &&& catalog[position].binary_dir is Some
            },
        forall|j: int, k: int|
            0 <= j < k < eligible_positions(catalog).len() ==> eligible_positions(catalog)[j]
                < eligible_positions(catalog)[k],
        forall|i: int|
            0 <= i < catalog.len() && catalog[i].is_eligible() ==> eligible_positions(
                catalog,
            ).contains(i),
    decreases catalog.len(),
{
    reveal(Seq::filter);
    if catalog.len() > 0 {
        let front = catalog.drop_last();
        eligible_keeps_catalog_order(front);
        let earlier = eligible_positions(front);
        let all = eligible_positions(catalog);
        assert forall|i: int| 0 <= i < catalog.len() && catalog[i].is_eligible() implies all.contains(
            i,
        ) by {
            if i < catalog.len() - 1 {
                assert(front[i] == catalog[i]);
                assert(earlier.contains(i));
                let k = choose|k: int| 0 <= k < earlier.len() && earlier[k] == i;
                assert(all[k] == i);
            } else {
                assert(all[all.len() - 1] == i);
            }
        }
    }
}

impl Preset {
    /// Whether the preset may be offered for selection.
    pub fn is_eligible(&self) -> (r: bool)
        ensures
            r == self@.is_eligible(),
    {
        !self.hidden && self.binary_dir.is_some()
    }

    /// The text shown for the preset.
    pub fn label(&self) -> (r: &str)
        ensures
            r@ == self@.label(),
    {
        match &self.display_name {
            Some(text) => text.as_str(),
            None => self.name.as_str(),
        }
    }
}

/// Keeps the presets that are not hidden and have a build directory,
/// in the order the catalog lists them.
pub fn eligible(presets: Presets) -> (r: Vec<Preset>)
    ensures
        preset_views(r@) == eligible_views(presets@),
        forall|i: int| 0 <= i < r@.len() ==> (#[trigger] r@[i])@.is_eligible(),
{
    let mut kept: Vec<Preset> = Vec::new();
    let ghost all = presets.configure_presets@;
    proof {
        reveal(Seq::filter);
        assert(preset_views(all.take(0)) =~= Seq::<PresetView>::empty());
    }
    for preset in it: presets.configure_presets
        invariant
            all == presets.configure_presets@,
            preset_views(kept@) == eligible_views(preset_views(all.take(it.index() as int))),
    {
        let ghost done = it.index() as int;
        proof {
            let before = preset_views(all.take(done));
            let after = preset_views(all.take(done + 1));
            assert(after =~= before.push(preset@));
            before.lemma_filter_push(preset@, |p: PresetView| p.is_eligible());
        }
        if preset.is_eligible() {
            proof {
                assert(preset_views(kept@.push(preset)) =~= preset_views(kept@).push(preset@));
            }
            kept.push(preset);
        }
    }
    proof {
        assert(all.take(all.len() as int) =~= all);
        assert forall|i: int| 0 <= i < kept@.len() implies (#[trigger] kept@[i])@.is_eligible() by {
            assert(preset_views(kept@)[i] == kept@[i]@);
            presets@.lemma_filter_pred(|p: PresetView| p.is_eligible(), i);
        }
    }
    kept
}

} // verus!
