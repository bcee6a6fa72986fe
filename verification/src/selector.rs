//! The two computations around the interactive checklist: what is shown,
//! with which boxes ticked, and which presets the confirmed boxes stand for.

use vstd::prelude::*;
use crate::preset::{Preset, PresetView, preset_views};
use crate::text::strings;

verus! {

/// One line of the checklist: the label and whether it starts ticked.
pub open spec fn checklist_line(preset: PresetView, selected: Seq<Seq<char>>) -> (Seq<char>, bool) {
    (preset.label(), selected.contains(preset.name))
}

/// The checklist for `visible`, seeded from the names chosen last time.
pub open spec fn checklist_lines(visible: Seq<PresetView>, selected: Seq<Seq<char>>) -> Seq<
    (Seq<char>, bool),
> {
    visible.map_values(|preset: PresetView| checklist_line(preset, selected))
}

/// The model of a checklist as handed out: label characters and tick.
pub open spec fn line_views(lines: Seq<(&str, bool)>) -> Seq<(Seq<char>, bool)> {
    lines.map_values(|line: (&str, bool)| (line.0@, line.1))
}

/// Whether the box at `position` is among the confirmed ones.
pub open spec fn is_ticked(chosen: Seq<usize>, position: int) -> bool {
    exists|k: int| 0 <= k < chosen.len() && chosen[k] == position
}

/// The positions below `count` that occur in `chosen`, ascending.
pub open spec fn chosen_positions(count: nat, chosen: Seq<usize>) -> Seq<int>
    decreases count,
{
    if count == 0 {
        Seq::empty()
    } else {
        let earlier = chosen_positions((count - 1) as nat, chosen);
        if is_ticked(chosen, count - 1) {
            earlier.push(count - 1)
        } else {
            earlier
        }
    }
}

/// The items at the chosen positions, in the order of `items`.
pub open spec fn picked<T>(items: Seq<T>, chosen: Seq<usize>) -> Seq<T> {
    chosen_positions(items.len(), chosen).map_values(|position: int| items[position])
}

/// What a sequence of references refers to.
pub open spec fn referents(refs: Seq<&Preset>) -> Seq<Preset> {
    refs.map_values(|preset: &Preset| *preset)
}

/// Whether `name` is one of `selected`.
pub fn is_selected(selected: &Vec<String>, name: &String) -> (r: bool)
    ensures
        r == strings(selected@).contains(name@),
{
    let mut i: usize = 0;
    while i < selected.len()
        invariant
            i <= selected.len(),
            forall|j: int| 0 <= j < i ==> strings(selected@)[j] != name@,
        decreases selected.len() - i,
    {
        if selected[i] == *name {
            assert(strings(selected@)[i as int] == name@);
            return true;
        }
        i += 1;
    }
    false
}

/// Whether `position` is one of `chosen`.
pub fn is_chosen(chosen: &Vec<usize>, position: usize) -> (r: bool)
    ensures
        r == is_ticked(chosen@, position as int),
{
    let mut i: usize = 0;
    while i < chosen.len()
        invariant
            i <= chosen.len(),
            forall|j: int| 0 <= j < i ==> chosen@[j] != position,
        decreases chosen.len() - i,
    {
        if chosen[i] == position {
            return true;
        }
        i += 1;
    }
    false
}

/// The checklist to present: one line per visible preset, in order, showing
/// its label, ticked exactly when its name was selected last time.
pub fn checklist<'a>(visible_presets: &'a Vec<Preset>, selected: &Vec<String>) -> (r: Vec<
    (&'a str, bool),
>)
    ensures
        line_views(r@) == checklist_lines(preset_views(visible_presets@), strings(selected@)),
        r@.len() == visible_presets@.len(),
        forall|i: int|
            0 <= i < r@.len() ==> {
                &&& (#[trigger] r@[i]).0@ == visible_presets@[i]@.label()
                &&& r@[i].1 <==> strings(selected@).contains(visible_presets@[i].name@)
            },
{
    let mut lines: Vec<(&'a str, bool)> = Vec::new();
    let mut i: usize = 0;
    while i < visible_presets.len()
        invariant
            i <= visible_presets.len(),
            line_views(lines@) == checklist_lines(
                preset_views(visible_presets@.take(i as int)),
                strings(selected@),
            ),
        decreases visible_presets.len() - i,
    {
        let preset = &visible_presets[i];
        let line = (preset.label(), is_selected(selected, &preset.name));
        proof {
            let shown = preset_views(visible_presets@.take(i as int));
            let next = preset_views(visible_presets@.take(i + 1));
            assert(next =~= shown.push(preset@));
            assert(checklist_lines(next, strings(selected@)) =~= checklist_lines(
                shown,
                strings(selected@),
            ).push(checklist_line(preset@, strings(selected@))));
            assert(line_views(lines@.push(line)) =~= line_views(lines@).push((line.0@, line.1)));
        }
        lines.push(line);
        i += 1;
    }
    proof {
        assert(visible_presets@.take(i as int) =~= visible_presets@);
        assert forall|k: int| 0 <= k < lines@.len() implies {
            &&& (#[trigger] lines@[k]).0@ == visible_presets@[k]@.label()
            &&& lines@[k].1 <==> strings(selected@).contains(visible_presets@[k].name@)
        } by {
            assert(line_views(lines@)[k] == (lines@[k].0@, lines@[k].1));
            assert(preset_views(visible_presets@)[k] == visible_presets@[k]@);
        }
    }
    lines
}

/// The presets that the confirmed checklist positions stand for, in the order
/// of `visible_presets`, whatever the order of `chosen`. A position that
/// names no preset stands for none, and one listed twice counts once.
pub fn select_presets<'a>(visible_presets: &'a Vec<Preset>, chosen: &Vec<usize>) -> (r: Vec<
    &'a Preset,
>)
    ensures
        referents(r@) == picked(visible_presets@, chosen@),
        forall|k: int| 0 <= k < r@.len() ==> visible_presets@.contains(*#[trigger] r@[k]),
{
    let mut kept: Vec<&'a Preset> = Vec::new();
    let ghost mut positions: Seq<int> = Seq::empty();
    let mut i: usize = 0;
    while i < visible_presets.len()
        invariant
            i <= visible_presets.len(),
            positions == chosen_positions(i as nat, chosen@),
            forall|k: int| 0 <= k < positions.len() ==> 0 <= #[trigger] positions[k] < i,
            referents(kept@) == positions.map_values(|position: int| visible_presets@[position]),
        decreases visible_presets.len() - i,
    {
        if is_chosen(chosen, i) {
            proof {
                let preset = &visible_presets[i as int];
                assert(referents(kept@.push(preset)) =~= referents(kept@).push(*preset));
                assert(positions.push(i as int).map_values(
                    |position: int| visible_presets@[position],
                ) =~= positions.map_values(|position: int| visible_presets@[position]).push(
                    visible_presets@[i as int],
                ));
                positions = positions.push(i as int);
            }
            kept.push(&visible_presets[i]);
        }
        i += 1;
    }
    proof {
        assert forall|k: int| 0 <= k < kept@.len() implies visible_presets@.contains(
            *#[trigger] kept@[k],
        ) by {
            assert(referents(kept@)[k] == *kept@[k]);
            assert(visible_presets@[positions[k]] == *kept@[k]);
        }
    }
    kept
}

/// The selection is made of presets of the list it was made from, each taken
/// once, at positions that only go forward; and it holds a preset for every
/// chosen position that names one.
pub proof fn selection_keeps_catalog_order<T>(items: Seq<T>, chosen: Seq<usize>)
    ensures
        picked(items, chosen).len() == chosen_positions(items.len(), chosen).len(),
        forall|k: int|
            0 <= k < picked(items, chosen).len() ==> {
                let position = #[trigger] chosen_positions(items.len(), chosen)[k];
                &&& 0 <= position < items.len()
                &&& is_ticked(chosen, position)
                &&& picked(items, chosen)[k] == items[position]
            },
        forall|j: int, k: int|
            0 <= j < k < chosen_positions(items.len(), chosen).len() ==> chosen_positions(
                items.len(),
                chosen,
            )[j] < chosen_positions(items.len(), chosen)[k],
        forall|i: int|
            0 <= i < items.len() && is_ticked(chosen, i) ==> chosen_positions(
                items.len(),
                chosen,
            ).contains(i),
{
    positions_ascend(items.len(), chosen);
}

/// A selection made from eligible presets holds eligible presets only, so
/// each of them has a build directory.
pub proof fn selection_of_eligible_is_eligible(items: Seq<Preset>, chosen: Seq<usize>)
    requires
        forall|i: int| 0 <= i < items.len() ==> (#[trigger] items[i])@.is_eligible(),
    ensures
        forall|k: int|
            0 <= k < picked(items, chosen).len() ==> {
                &&& (#[trigger] picked(items, chosen)[k])@.is_eligible()
                &&& picked(items, chosen)[k].binary_dir is Some
            },
{
    positions_ascend(items.len(), chosen);
}

/// The positions are below `count`, chosen, strictly ascending, and none
/// that is chosen is left out.
pub proof fn positions_ascend(count: nat, chosen: Seq<usize>)
    ensures
        forall|k: int|
            0 <= k < chosen_positions(count, chosen).len() ==> {
                let position = #[trigger] chosen_positions(count, chosen)[k];
                0 <= position < count && is_ticked(chosen, position)
            },
        forall|j: int, k: int|
            0 <= j < k < chosen_positions(count, chosen).len() ==> chosen_positions(
                count,
                chosen,
            )[j] < chosen_positions(count, chosen)[k],
        forall|i: int|
            0 <= i < count && is_ticked(chosen, i) ==> chosen_positions(
                count,
                chosen,
            ).contains(i),
    decreases count,
{
    if count > 0 {
        let earlier = chosen_positions((count - 1) as nat, chosen);
        positions_ascend((count - 1) as nat, chosen);
        let all = chosen_positions(count, chosen);
        assert forall|i: int| 0 <= i < count && is_ticked(chosen, i) implies all.contains(
            i,
        ) by {
            if i < count - 1 {
                let k = choose|k: int| 0 <= k < earlier.len() && earlier[k] == i;
                assert(all[k] == i);
            } else {
                assert(all[all.len() - 1] == i);
            }
        }
    }
}

/// Two confirmations that tick the same boxes select the same presets,
/// however the ticks were ordered or repeated.
pub proof fn selection_ignores_toggle_order<T>(items: Seq<T>, first: Seq<usize>, second: Seq<usize>)
    requires
        first.to_set() == second.to_set(),
    ensures
        picked(items, first) == picked(items, second),
{
    positions_ignore_toggle_order(items.len(), first, second);
}

/// A box is ticked exactly when its position is a member of the confirmed set.
pub proof fn ticked_is_membership(chosen: Seq<usize>, position: int)
    ensures
        is_ticked(chosen, position) <==> 0 <= position <= usize::MAX && chosen.to_set().contains(
            position as usize,
        ),
{
    if is_ticked(chosen, position) {
        let k = choose|k: int| 0 <= k < chosen.len() && chosen[k] == position;
        assert(chosen.contains(chosen[k]));
    }
    if 0 <= position <= usize::MAX && chosen.to_set().contains(position as usize) {
        assert(chosen.contains(position as usize));
    }
}

/// The positions depend on which boxes are ticked, not on the order of the ticks.
pub proof fn positions_ignore_toggle_order(count: nat, first: Seq<usize>, second: Seq<usize>)
    requires
        first.to_set() == second.to_set(),
    ensures
        chosen_positions(count, first) == chosen_positions(count, second),
    decreases count,
{
    if count > 0 {
        positions_ignore_toggle_order((count - 1) as nat, first, second);
        ticked_is_membership(first, count - 1);
        ticked_is_membership(second, count - 1);
    }
}

} // verus!
