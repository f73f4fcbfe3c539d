use vstd::prelude::*;

verus! {

/// The selected layer after layer `removed` was deleted from a list that
/// now holds `remaining` layers: a removed selection moves to the layer
/// before it (or to none when no layer is left), a selection after the
/// removed layer moves down by one, and one before it stays.
pub open spec fn spec_selection_after_removal(current: Option<usize>, removed: usize, remaining: usize) -> Option<usize> {
    match current {
        None => None,
        Some(c) => if c == removed {
            if remaining == 0 {
                None
            } else {
                Some(if removed == 0 { 0usize } else { (removed - 1) as usize })
            }
        } else if c > removed {
            Some((c - 1) as usize)
        } else {
            Some(c)
        },
    }
}

/// The selected layer after layer `removed` was deleted and `remaining`
/// layers are left.
pub fn selection_after_removal(current: Option<usize>, removed: usize, remaining: usize) -> (s: Option<usize>)
    ensures
        s == spec_selection_after_removal(current, removed, remaining),
{
    match current {
        None => None,
        Some(current_idx) => {
            if current_idx == removed {
                if remaining == 0 {
                    None
                } else {
                    Some(removed.saturating_sub(1))
                }
            } else if current_idx > removed {
                Some(current_idx - 1)
            } else {
                Some(current_idx)
            }
        }
    }
}

/// The selected layer after a layer was appended: the new, last one.
pub fn selection_after_add(len_after: usize) -> (s: Option<usize>)
    requires
        len_after >= 1,
    ensures
        s == Some((len_after - 1) as usize),
{
    Some(len_after - 1)
}

/// Deleting a layer keeps a valid selection valid: when the selection
/// pointed into the list before the deletion, it points into the list
/// after it, or is empty only because the list became empty.
pub proof fn lemma_selection_stays_in_range(current: Option<usize>, removed: usize, remaining: usize)
    requires
        removed <= remaining,
        current is Some ==> current->0 <= remaining,
    ensures
        ({
            let s = spec_selection_after_removal(current, removed, remaining);
            &&& s is Some ==> s->0 < remaining
            &&& (current is Some && remaining > 0) ==> s is Some
        }),
{
}

/// Deleting a layer keeps the same layer selected when it was not the
/// deleted one: the layer the selection points at after deleting layer
/// `removed` from `layers` is the layer it pointed at before, whether it
/// stood before or after the deleted one. When the selected layer itself
/// is deleted, the one before it (the new first one, for the first)
/// becomes selected, and nothing once no layer is left.
pub proof fn lemma_removal_keeps_selected_layer<T>(layers: Seq<T>, selected: usize, removed: usize)
    requires
        selected < layers.len(),
        removed < layers.len(),
        layers.len() <= usize::MAX,
    ensures
        ({
            let after = layers.remove(removed as int);
            let s = spec_selection_after_removal(Some(selected), removed, after.len() as usize);
            &&& selected != removed ==> {
                &&& s is Some
                &&& s->0 < after.len()
                &&& after[s->0 as int] == layers[selected as int]
            }
            &&& selected < removed ==> s == Some(selected)
            &&& selected > removed ==> s == Some((selected - 1) as usize)
            &&& (selected == removed && after.len() == 0) ==> s is None
            &&& (selected == removed && after.len() > 0) ==> {
                &&& s is Some
                &&& s->0 < after.len()
                &&& after[s->0 as int] == layers[if removed == 0 { 1int } else { removed - 1 }]
            }
        }),
{
    let after = layers.remove(removed as int);
    assert(after.len() == layers.len() - 1);
    assert(forall|j: int| 0 <= j < removed ==> after[j] == layers[j]);
    assert(forall|j: int| removed <= j < after.len() ==> after[j] == layers[j + 1]);
    let s = spec_selection_after_removal(Some(selected), removed, after.len() as usize);
    if selected < removed {
        assert(s == Some(selected));
        assert(after[selected as int] == layers[selected as int]);
    } else if selected > removed {
        assert(s == Some((selected - 1) as usize));
        assert(after[selected - 1] == layers[selected as int]);
    } else if after.len() > 0 {
        if removed == 0 {
            assert(s == Some(0usize));
            assert(after[0] == layers[1]);
        } else {
            assert(s == Some((removed - 1) as usize));
            assert(after[removed - 1] == layers[removed - 1]);
        }
    }
}

/// The effect layers of the animator, in drawing order, and which one
/// the controls show.
pub struct LayerStack<T> {
    pub layers: Vec<T>,
    pub selected: Option<usize>,
}

impl<T> LayerStack<T> {
    /// The selection points at a layer, when there is one.
    pub open spec fn wf(&self) -> bool {
        self.selected is Some ==> self.selected->0 < self.layers@.len()
    }

    /// No layers and nothing selected.
    pub fn new() -> (s: Self)
        ensures
            s.layers@.len() == 0,
            s.selected is None,
            s.wf(),
    {
        LayerStack { layers: Vec::new(), selected: None }
    }

    /// Appends `layer` on top and selects it.
    pub fn add(&mut self, layer: T)
        ensures
            final(self).layers@ == old(self).layers@.push(layer),
            final(self).selected == Some(old(self).layers@.len() as usize),
            final(self).wf(),
    {
        self.layers.push(layer);
        self.selected = selection_after_add(self.layers.len());
    }

    /// Selects layer `index`.
    pub fn select(&mut self, index: usize)
        requires
            index < old(self).layers@.len(),
        ensures
            final(self).layers@ == old(self).layers@,
            final(self).selected == Some(index),
            final(self).wf(),
    {
        self.selected = Some(index);
    }

    /// Deletes layer `index`; the selection follows the rule of
    /// `selection_after_removal`, so a valid selection stays valid.
    pub fn remove(&mut self, index: usize) -> (removed: T)
        requires
            index < old(self).layers@.len(),
        ensures
            removed == old(self).layers@[index as int],
            final(self).layers@ == old(self).layers@.remove(index as int),
            final(self).selected == spec_selection_after_removal(
                old(self).selected,
                index,
                final(self).layers@.len() as usize,
            ),
            old(self).wf() ==> final(self).wf(),
            (old(self).wf() && old(self).selected is Some && old(self).selected->0 != index) ==> {
                &&& final(self).selected is Some
                &&& final(self).layers@[final(self).selected->0 as int]
                    == old(self).layers@[old(self).selected->0 as int]
            },
    {
        proof {
            if old(self).wf() && old(self).selected is Some {
                assert(old(self).layers@.len() == old(self).layers.len());
                lemma_removal_keeps_selected_layer(old(self).layers@, old(self).selected->0, index);
            }
        }
        let removed = self.layers.remove(index);
        let remaining = self.layers.len();
        proof {
            lemma_selection_stays_in_range(
                if old(self).wf() { self.selected } else { None },
                index,
                remaining,
            );
        }
        self.selected = selection_after_removal(self.selected, index, remaining);
        removed
    }
}

} // verus!
