//! The recipe edit model.
//!
//! Two lists drive it: a read-only catalogue of module templates and the
//! mutable active recipe. Edit commands clone a template into a fresh,
//! independently configured instance (new identity, default parameters),
//! remove an instance, or reorder the recipe; reordering preserves the
//! moved instance and its identity. The invariant kept throughout: no two
//! instances, in the recipe or across recipe and catalogue, share an
//! identity.

use vstd::prelude::*;
use vstd::utf8::encode_utf8;

use crate::errors::spec_message;
use crate::module::spec_description;
use crate::module::spec_has_default_params;
use crate::module::spec_id;
use crate::module::spec_name;
use crate::module::spec_same_kind;
use crate::module::ModuleInstance;
use crate::pipeline::display_output;
use crate::pipeline::spec_execute;

verus! {

/// No two instances of `s` share an identity.
pub open spec fn spec_unique_ids(s: Seq<ModuleInstance>) -> bool {
    forall|i: int, j: int|
        0 <= i < j < s.len() ==> spec_id(#[trigger] s[i]) != spec_id(#[trigger] s[j])
}

/// Every identity of `s` is below `bound`.
pub open spec fn spec_ids_below(s: Seq<ModuleInstance>, bound: u64) -> bool {
    forall|i: int| 0 <= i < s.len() ==> spec_id(#[trigger] s[i]) < bound
}

/// No instance of `a` shares an identity with one of `b`.
pub open spec fn spec_disjoint_ids(a: Seq<ModuleInstance>, b: Seq<ModuleInstance>) -> bool {
    forall|i: int, j: int|
        0 <= i < a.len() && 0 <= j < b.len() ==> spec_id(#[trigger] a[i]) != spec_id(
            #[trigger] b[j],
        )
}

proof fn lemma_remove_wf(avail: Seq<ModuleInstance>, s: Seq<ModuleInstance>, at: int, bound: u64)
    requires
        spec_unique_ids(s),
        spec_ids_below(s, bound),
        spec_disjoint_ids(avail, s),
        0 <= at < s.len(),
    ensures
        spec_unique_ids(s.remove(at)),
        spec_ids_below(s.remove(at), bound),
        spec_disjoint_ids(avail, s.remove(at)),
        forall|i: int|
            0 <= i < s.remove(at).len() ==> spec_id(#[trigger] s.remove(at)[i]) != spec_id(s[at]),
{
    let t = s.remove(at);
    assert forall|j: int| 0 <= j < t.len() implies spec_id(#[trigger] t[j]) != spec_id(s[at])
        && spec_id(t[j]) < bound && (forall|i: int|
        0 <= i < avail.len() ==> spec_id(#[trigger] avail[i]) != spec_id(t[j])) by {
        if j < at {
            assert(t[j] == s[j]);
        } else {
            assert(t[j] == s[j + 1]);
        }
    }
    assert forall|i: int, j: int| 0 <= i < j < t.len() implies spec_id(#[trigger] t[i]) != spec_id(
        #[trigger] t[j],
    ) by {
        if i < at {
            assert(t[i] == s[i]);
        } else {
            assert(t[i] == s[i + 1]);
        }
        if j < at {
            assert(t[j] == s[j]);
        } else {
            assert(t[j] == s[j + 1]);
        }
    }
}

proof fn lemma_insert_wf(
    avail: Seq<ModuleInstance>,
    s: Seq<ModuleInstance>,
    at: int,
    m: ModuleInstance,
    bound: u64,
)
    requires
        spec_unique_ids(s),
        spec_ids_below(s, bound),
        spec_disjoint_ids(avail, s),
        0 <= at <= s.len(),
        spec_id(m) < bound,
        forall|i: int| 0 <= i < s.len() ==> spec_id(#[trigger] s[i]) != spec_id(m),
        forall|i: int| 0 <= i < avail.len() ==> spec_id(#[trigger] avail[i]) != spec_id(m),
    ensures
        spec_unique_ids(s.insert(at, m)),
        spec_ids_below(s.insert(at, m), bound),
        spec_disjoint_ids(avail, s.insert(at, m)),
{
    let t = s.insert(at, m);
    assert forall|j: int| 0 <= j < t.len() implies spec_id(#[trigger] t[j]) < bound && (forall|
        i: int,
    |
        0 <= i < avail.len() ==> spec_id(#[trigger] avail[i]) != spec_id(t[j])) by {
        if j < at {
            assert(t[j] == s[j]);
        } else if j == at {
            assert(t[j] == m);
        } else {
            assert(t[j] == s[j - 1]);
        }
    }
    assert forall|i: int, j: int| 0 <= i < j < t.len() implies spec_id(#[trigger] t[i]) != spec_id(
        #[trigger] t[j],
    ) by {
        if i < at {
            assert(t[i] == s[i]);
        } else if i == at {
            assert(t[i] == m);
        } else {
            assert(t[i] == s[i - 1]);
        }
        if j < at {
            assert(t[j] == s[j]);
        } else if j == at {
            assert(t[j] == m);
        } else {
            assert(t[j] == s[j - 1]);
        }
    }
}

/// The edit-model state: the fixed catalogue, the active recipe, the raw
/// input buffer, and the next identity to mint for a catalogue clone.
pub struct CyberCook {
    /// The read-only catalogue of module templates.
    pub available_module: Vec<ModuleInstance>,
    /// The active recipe, in application order.
    pub selected_module: Vec<ModuleInstance>,
    /// The raw input buffer the pipeline transforms.
    pub input: Vec<u8>,
    /// The identity handed to the next catalogue clone; above every
    /// identity already in use.
    pub next_id: u64,
}

/// After the edit, the recipe of `post` is that of `pre` with a fresh clone
/// of catalogue entry `catalog_index` inserted at `at`: same kind as the
/// template, identity `pre.next_id`, default parameters. Catalogue and
/// input are untouched.
pub open spec fn spec_cloned_into(
    pre: CyberCook,
    post: CyberCook,
    catalog_index: int,
    at: int,
) -> bool {
    &&& post.available_module == pre.available_module
    &&& post.input == pre.input
    &&& post.next_id == pre.next_id + 1
    &&& post.selected_module@.len() == pre.selected_module@.len() + 1
    &&& post.selected_module@.remove(at) == pre.selected_module@
    &&& spec_same_kind(post.selected_module@[at], pre.available_module@[catalog_index])
    &&& spec_id(post.selected_module@[at]) == pre.next_id
    &&& spec_has_default_params(post.selected_module@[at])
}

/// After the edit, the recipe of `post` is that of `pre` with the instance
/// at `index` removed. Catalogue, input and `next_id` are untouched.
pub open spec fn spec_removed(pre: CyberCook, post: CyberCook, index: int) -> bool {
    &&& post.available_module == pre.available_module
    &&& post.input == pre.input
    &&& post.next_id == pre.next_id
    &&& post.selected_module@ == pre.selected_module@.remove(index)
}

/// After the edit, the recipe of `post` is that of `pre` with the instance
/// at `from` taken out and put back in at `to`, itself unchanged.
/// Catalogue, input and `next_id` are untouched.
pub open spec fn spec_moved(pre: CyberCook, post: CyberCook, from: int, to: int) -> bool {
    &&& post.available_module == pre.available_module
    &&& post.input == pre.input
    &&& post.next_id == pre.next_id
    &&& post.selected_module@ == pre.selected_module@.remove(from).insert(
        to,
        pre.selected_module@[from],
    )
}

impl CyberCook {
    /// The state invariant: identities are unique within the recipe,
    /// distinct from every catalogue identity, and all below `next_id`.
    pub open spec fn wf(self) -> bool {
        spec_unique_ids(self.selected_module@) && spec_ids_below(
            self.selected_module@,
            self.next_id,
        ) && spec_ids_below(self.available_module@, self.next_id) && spec_disjoint_ids(
            self.available_module@,
            self.selected_module@,
        )
    }

    /// A fresh editor over the given catalogue: empty recipe, empty input.
    pub fn new(available_module: Vec<ModuleInstance>) -> (r: Self)
        requires
            forall|i: int|
                0 <= i < available_module@.len() ==> spec_id(#[trigger] available_module@[i])
                    < u64::MAX,
        ensures
            r.wf(),
            r.available_module == available_module,
            r.selected_module@.len() == 0,
            r.input@.len() == 0,
    {
        let mut next: u64 = 0;
        let mut i: usize = 0;
        while i < available_module.len()
            invariant
                i <= available_module@.len(),
                forall|k: int|
                    0 <= k < available_module@.len() ==> spec_id(#[trigger] available_module@[k])
                        < u64::MAX,
                forall|k: int|
                    0 <= k < i ==> spec_id(#[trigger] available_module@[k]) < next,
            decreases available_module@.len() - i,
        {
            let id = available_module[i].id();
            if id >= next {
                next = id + 1;
            }
            i += 1;
        }
        CyberCook {
            available_module,
            selected_module: Vec::new(),
            input: Vec::new(),
            next_id: next,
        }
    }

    /// Clones the catalogue template at `catalog_index` — fresh identity,
    /// default parameters — and appends it to the recipe.
    pub fn append_from_catalog(&mut self, catalog_index: usize)
        requires
            old(self).wf(),
            catalog_index < old(self).available_module@.len(),
            old(self).next_id < u64::MAX,
        ensures
            final(self).wf(),
            spec_cloned_into(
                *old(self),
                *final(self),
                catalog_index as int,
                old(self).selected_module@.len() as int,
            ),
    {
        let ghost pre = *self;
        let m = self.available_module[catalog_index].duplicate(self.next_id);
        self.selected_module.push(m);
        self.next_id = self.next_id + 1;
        proof {
            let at = pre.selected_module@.len() as int;
            assert(self.selected_module@ =~= pre.selected_module@.insert(at, m));
            assert(self.selected_module@.remove(at) =~= pre.selected_module@);
            lemma_insert_wf(
                pre.available_module@,
                pre.selected_module@,
                at,
                m,
                (pre.next_id + 1) as u64,
            );
        }
    }

    /// Clones the catalogue template at `catalog_index` — fresh identity,
    /// default parameters — and inserts it into the recipe at `to_index`.
    pub fn insert_from_catalog(&mut self, catalog_index: usize, to_index: usize)
        requires
            old(self).wf(),
            catalog_index < old(self).available_module@.len(),
            to_index <= old(self).selected_module@.len(),
            old(self).next_id < u64::MAX,
        ensures
            final(self).wf(),
            spec_cloned_into(*old(self), *final(self), catalog_index as int, to_index as int),
    {
        let ghost pre = *self;
        let m = self.available_module[catalog_index].duplicate(self.next_id);
        self.selected_module.insert(to_index, m);
        self.next_id = self.next_id + 1;
        proof {
            let at = to_index as int;
            assert(self.selected_module@.remove(at) =~= pre.selected_module@);
            lemma_insert_wf(
                pre.available_module@,
                pre.selected_module@,
                at,
                m,
                (pre.next_id + 1) as u64,
            );
        }
    }

    /// Removes the recipe instance at `recipe_index`; the instance is
    /// destroyed and its identity never reused.
    pub fn remove_from_recipe(&mut self, recipe_index: usize)
        requires
            old(self).wf(),
            recipe_index < old(self).selected_module@.len(),
        ensures
            final(self).wf(),
            spec_removed(*old(self), *final(self), recipe_index as int),
    {
        let ghost pre = *self;
        self.selected_module.remove(recipe_index);
        proof {
            lemma_remove_wf(
                pre.available_module@,
                pre.selected_module@,
                recipe_index as int,
                pre.next_id,
            );
        }
    }

    /// Moves the recipe instance at `from_index` so that it ends up at
    /// `to_index`, keeping its identity and parameter state. Moving item 2
    /// of a four-item recipe to 0 yields the order [2, 0, 1, 3]; moving
    /// item 0 to 3 yields [1, 2, 3, 0].
    pub fn move_within_recipe(&mut self, from_index: usize, to_index: usize)
        requires
            old(self).wf(),
            from_index < old(self).selected_module@.len(),
            to_index < old(self).selected_module@.len(),
        ensures
            final(self).wf(),
            spec_moved(*old(self), *final(self), from_index as int, to_index as int),
    {
        let ghost pre = *self;
        let m = self.selected_module.remove(from_index);
        self.selected_module.insert(to_index, m);
        proof {
            let s = pre.selected_module@;
            let from = from_index as int;
            lemma_remove_wf(pre.available_module@, s, from, pre.next_id);
            lemma_insert_wf(
                pre.available_module@,
                s.remove(from),
                to_index as int,
                s[from],
                pre.next_id,
            );
        }
    }

    /// Replaces the parameter state of the recipe instance at `index` with
    /// `m`, which must carry the same identity: the in-place parameter
    /// editing surface.
    pub fn set_module(&mut self, index: usize, m: ModuleInstance)
        requires
            old(self).wf(),
            index < old(self).selected_module@.len(),
            spec_id(m) == spec_id(old(self).selected_module@[index as int]),
        ensures
            final(self).wf(),
            final(self).selected_module@ == old(self).selected_module@.update(index as int, m),
            final(self).available_module == old(self).available_module,
            final(self).input == old(self).input,
            final(self).next_id == old(self).next_id,
    {
        let ghost pre = *self;
        self.selected_module.set(index, m);
        proof {
            let t = self.selected_module@;
            let s = pre.selected_module@;
            let at = index as int;
            assert forall|i: int, j: int|
                0 <= i < j < t.len() implies spec_id(#[trigger] t[i]) != spec_id(
                #[trigger] t[j],
            ) by {
                assert(spec_id(t[i]) == spec_id(s[i]));
                assert(spec_id(t[j]) == spec_id(s[j]));
            }
            assert forall|j: int| 0 <= j < t.len() implies spec_id(#[trigger] t[j]) < pre.next_id
                && (forall|i: int|
                0 <= i < pre.available_module@.len() ==> spec_id(
                    #[trigger] pre.available_module@[i],
                ) != spec_id(t[j])) by {
                assert(spec_id(t[j]) == spec_id(s[j]));
            }
        }
    }

    /// Replaces the raw input buffer.
    pub fn set_input(&mut self, bytes: Vec<u8>)
        requires
            old(self).wf(),
        ensures
            final(self).wf(),
            final(self).input == bytes,
            final(self).available_module == old(self).available_module,
            final(self).selected_module == old(self).selected_module,
            final(self).next_id == old(self).next_id,
    {
        self.input = bytes;
    }

    /// The bytes the output pane shows for the current recipe and input:
    /// the pipeline's final buffer, or the message text of the first error.
    /// Recomputed in full on every call; nothing is cached.
    pub fn current_output(&self) -> (r: Vec<u8>)
        ensures
            (match spec_execute(self.selected_module@, self.input@) {
                Ok(b) => r@ == b,
                Err(e) => r@ == encode_utf8(spec_message(e)),
            }),
    {
        display_output(&self.selected_module, &self.input)
    }

    /// The active recipe as the list pane shows it: identity, name and
    /// description of each instance, in application order.
    pub fn current_recipe(&self) -> (r: Vec<(u64, String, String)>)
        ensures
            r@.len() == self.selected_module@.len(),
            forall|i: int|
                0 <= i < r@.len() ==> (#[trigger] r@[i]).0 == spec_id(self.selected_module@[i])
                    && r@[i].1@ == spec_name(self.selected_module@[i]) && r@[i].2@
                    == spec_description(self.selected_module@[i]),
    {
        let mut r: Vec<(u64, String, String)> = Vec::new();
        let mut i: usize = 0;
        while i < self.selected_module.len()
            invariant
                i <= self.selected_module@.len(),
                r@.len() == i,
                forall|k: int|
                    0 <= k < i as int ==> (#[trigger] r@[k]).0 == spec_id(self.selected_module@[k])
                        && r@[k].1@ == spec_name(self.selected_module@[k]) && r@[k].2@
                        == spec_description(self.selected_module@[k]),
            decreases self.selected_module@.len() - i,
        {
            let m = &self.selected_module[i];
            r.push((m.id(), m.name().to_owned(), m.description().to_owned()));
            i += 1;
        }
        r
    }
}

/// One user edit command, as the external surface issues it.
pub enum EditOp {
    /// Append a fresh clone of a catalogue template to the recipe.
    AppendFromCatalog { catalog_index: usize },
    /// Remove the recipe instance at an index.
    RemoveFromRecipe { recipe_index: usize },
    /// Move a recipe instance so that it ends up at `to_index`.
    MoveWithinRecipe { from_index: usize, to_index: usize },
    /// Insert a fresh clone of a catalogue template at `to_index`.
    InsertFromCatalog { catalog_index: usize, to_index: usize },
    /// Delete a recipe instance: the drag-back-out gesture.
    DeleteRecipeInstance { recipe_index: usize },
}

/// The list a drag started from.
pub enum DragSource {
    Catalog,
    Recipe,
}

/// Where a drag was released.
pub enum DropTarget {
    /// Onto the recipe pane, at this raw insertion index (the recipe
    /// length means past the last item).
    RecipeAt { raw_index: usize },
    /// Onto the catalogue pane: the delete gesture.
    CatalogPane,
    /// Outside any recognised zone.
    Outside,
}

impl CyberCook {
    /// Whether the indices of `op` are in range for the current state:
    /// anything else is a programmer error, distinct from the module errors
    /// the pipeline reports.
    pub open spec fn spec_edit_valid(self, op: EditOp) -> bool {
        match op {
            EditOp::AppendFromCatalog { catalog_index } => catalog_index
                < self.available_module@.len() && self.next_id < u64::MAX,
            EditOp::RemoveFromRecipe { recipe_index } => recipe_index
                < self.selected_module@.len(),
            EditOp::MoveWithinRecipe { from_index, to_index } => from_index
                < self.selected_module@.len() && to_index < self.selected_module@.len(),
            EditOp::InsertFromCatalog { catalog_index, to_index } => catalog_index
                < self.available_module@.len() && to_index <= self.selected_module@.len()
                && self.next_id < u64::MAX,
            EditOp::DeleteRecipeInstance { recipe_index } => recipe_index
                < self.selected_module@.len(),
        }
    }

    /// Applies one edit command to the recipe.
    pub fn issue_edit(&mut self, op: EditOp)
        requires
            old(self).wf(),
            old(self).spec_edit_valid(op),
        ensures
            final(self).wf(),
            (match op {
                EditOp::AppendFromCatalog { catalog_index } => spec_cloned_into(
                    *old(self),
                    *final(self),
                    catalog_index as int,
                    old(self).selected_module@.len() as int,
                ),
                EditOp::RemoveFromRecipe { recipe_index } => spec_removed(
                    *old(self),
                    *final(self),
                    recipe_index as int,
                ),
                EditOp::MoveWithinRecipe { from_index, to_index } => spec_moved(
                    *old(self),
                    *final(self),
                    from_index as int,
                    to_index as int,
                ),
                EditOp::InsertFromCatalog { catalog_index, to_index } => spec_cloned_into(
                    *old(self),
                    *final(self),
                    catalog_index as int,
                    to_index as int,
                ),
                EditOp::DeleteRecipeInstance { recipe_index } => spec_removed(
                    *old(self),
                    *final(self),
                    recipe_index as int,
                ),
            }),
    {
        match op {
            EditOp::AppendFromCatalog { catalog_index } => self.append_from_catalog(catalog_index),
            EditOp::RemoveFromRecipe { recipe_index } => self.remove_from_recipe(recipe_index),
            EditOp::MoveWithinRecipe { from_index, to_index } => self.move_within_recipe(
                from_index,
                to_index,
            ),
            EditOp::InsertFromCatalog { catalog_index, to_index } => self.insert_from_catalog(
                catalog_index,
                to_index,
            ),
            EditOp::DeleteRecipeInstance { recipe_index } => self.remove_from_recipe(recipe_index),
        }
    }

    /// Whether the indices of a completed drag are in range for the
    /// current state.
    pub open spec fn spec_drop_valid(
        self,
        source: DragSource,
        source_index: int,
        target: DropTarget,
    ) -> bool {
        match (source, target) {
            (DragSource::Catalog, DropTarget::RecipeAt { raw_index }) => source_index
                < self.available_module@.len() && raw_index <= self.selected_module@.len()
                && self.next_id < u64::MAX,
            (DragSource::Recipe, DropTarget::RecipeAt { raw_index }) => source_index
                < self.selected_module@.len() && raw_index <= self.selected_module@.len(),
            (_, DropTarget::CatalogPane) => source_index < self.selected_module@.len(),
            (DragSource::Catalog, DropTarget::Outside) => source_index
                < self.available_module@.len() && self.next_id < u64::MAX,
            (DragSource::Recipe, DropTarget::Outside) => source_index
                < self.selected_module@.len(),
        }
    }

    /// Completes a drag that was released over `target`.
    ///
    /// A catalogue-sourced drop on the recipe inserts a fresh clone at the
    /// raw index; a recipe-sourced one moves the dragged instance there,
    /// with the destination shifted down by one when the source index lies
    /// strictly below the raw drop index (removal shifts the later items),
    /// so an instance dropped just past itself lands directly after its old
    /// neighbour. A drop on the catalogue pane deletes the recipe instance
    /// at the source index whatever list the drag began in, as the editor
    /// observably behaves. A drop outside every zone appends a clone or
    /// moves the instance to the end.
    pub fn apply_drop(&mut self, source: DragSource, source_index: usize, target: DropTarget)
        requires
            old(self).wf(),
            old(self).spec_drop_valid(source, source_index as int, target),
        ensures
            final(self).wf(),
            (match (source, target) {
                (DragSource::Catalog, DropTarget::RecipeAt { raw_index }) => spec_cloned_into(
                    *old(self),
                    *final(self),
                    source_index as int,
                    raw_index as int,
                ),
                (DragSource::Recipe, DropTarget::RecipeAt { raw_index }) => spec_moved(
                    *old(self),
                    *final(self),
                    source_index as int,
                    if source_index < raw_index {
                        raw_index - 1
                    } else {
                        raw_index as int
                    },
                ),
                (_, DropTarget::CatalogPane) => spec_removed(
                    *old(self),
                    *final(self),
                    source_index as int,
                ),
                (DragSource::Catalog, DropTarget::Outside) => spec_cloned_into(
                    *old(self),
                    *final(self),
                    source_index as int,
                    old(self).selected_module@.len() as int,
                ),
                (DragSource::Recipe, DropTarget::Outside) => spec_moved(
                    *old(self),
                    *final(self),
                    source_index as int,
                    old(self).selected_module@.len() - 1,
                ),
            }),
    {
        match (source, target) {
            (DragSource::Catalog, DropTarget::RecipeAt { raw_index }) => {
                self.insert_from_catalog(source_index, raw_index);
            },
            (DragSource::Recipe, DropTarget::RecipeAt { raw_index }) => {
                let to = if source_index < raw_index {
                    raw_index - 1
                } else {
                    raw_index
                };
                self.move_within_recipe(source_index, to);
            },
            (_, DropTarget::CatalogPane) => {
                self.remove_from_recipe(source_index);
            },
            (DragSource::Catalog, DropTarget::Outside) => {
                self.append_from_catalog(source_index);
            },
            (DragSource::Recipe, DropTarget::Outside) => {
                let to = self.selected_module.len() - 1;
                self.move_within_recipe(source_index, to);
            },
        }
    }
}

/// The midpoint rule for the insertion preview while dragging over the
/// recipe item at `index`: hovering the dragged item itself keeps its own
/// index; a pointer above an item's vertical centre previews insertion at
/// that item's index, below it at the next one.
pub fn insertion_preview_index(index: usize, is_self: bool, above_center: bool) -> (r: usize)
    requires
        index < usize::MAX,
    ensures
        r == (if is_self || above_center {
            index as int
        } else {
            index as int + 1
        }),
{
    if is_self || above_center {
        index
    } else {
        index + 1
    }
}

/// The fixed catalogue the application starts from: one template per
/// module kind, with identities 0 to 3.
pub fn default_catalog() -> (r: Vec<ModuleInstance>)
    ensures
        r@.len() == 4,
        (r@[0] matches ModuleInstance::Base64Encoder(_)) && spec_id(r@[0]) == 0,
        (r@[1] matches ModuleInstance::Base64Decoder(_)) && spec_id(r@[1]) == 1,
        (r@[2] matches ModuleInstance::AESEncrypt(_)) && spec_id(r@[2]) == 2,
        (r@[3] matches ModuleInstance::AESDecrypt(_)) && spec_id(r@[3]) == 3,
{
    let mut r: Vec<ModuleInstance> = Vec::new();
    r.push(ModuleInstance::Base64Encoder(crate::encoding::Base64Encoder { id: 0 }));
    r.push(ModuleInstance::Base64Decoder(crate::encoding::Base64Decoder { id: 1 }));
    r.push(ModuleInstance::AESEncrypt(crate::crypto::AESEncrypt::new(2)));
    r.push(ModuleInstance::AESDecrypt(crate::crypto::AESDecrypt::new(3)));
    r
}

} // verus!
