//! The mutable staging area populated while the document is traversed,
//! the identifier-keyed resource registry, and the resolution pass that
//! consumes the builders and produces the finalized entities.

use vstd::prelude::*;

use crate::item_type::ItemTypeV;
use crate::text::str_eq;
use crate::types::attr_or_empty;
use crate::types::General;
use crate::types::GeneralV;
use crate::types::Manifest;
use crate::types::ManifestV;
use crate::types::Module;
use crate::types::ModuleItem;
use crate::types::ModuleItemV;
use crate::types::ModuleV;
use crate::types::Resource;
use crate::types::ResourceV;

verus! {

// ---------------------------------------------------------------------
// Resource registry
// ---------------------------------------------------------------------
/// Registry of declared resources, keyed by identifier. Registering a
/// resource under an identifier that is already present overwrites the
/// earlier entry in place: the most recently registered resource is the
/// one that stays resolvable.
#[derive(Debug)]
pub struct ResourceRegistry {
    pub entries: Vec<Resource>,
}

impl View for ResourceRegistry {
    type V = Seq<ResourceV>;

    open spec fn view(&self) -> Seq<ResourceV> {
        Seq::new(self.entries@.len(), |i: int| self.entries@[i]@)
    }
}

/// The first index whose entry is keyed `id`, or `rs.len()` when no
/// entry is.
pub open spec fn reg_index(rs: Seq<ResourceV>, id: Seq<char>) -> int
    decreases rs.len(),
{
    if rs.len() == 0 {
        0
    } else if rs[0].identifier == id {
        0
    } else {
        1 + reg_index(rs.drop_first(), id)
    }
}

/// The resource registered under `id`, if any.
pub open spec fn reg_lookup(rs: Seq<ResourceV>, id: Seq<char>) -> Option<ResourceV> {
    let i = reg_index(rs, id);
    if i < rs.len() {
        Some(rs[i])
    } else {
        None
    }
}

/// Registering a resource: overwrite the entry already keyed by its
/// identifier, or append when the identifier is new.
pub open spec fn reg_insert(rs: Seq<ResourceV>, r: ResourceV) -> Seq<ResourceV> {
    let i = reg_index(rs, r.identifier);
    if i < rs.len() {
        rs.update(i, r)
    } else {
        rs.push(r)
    }
}

/// `reg_index` points at the first entry keyed `id`: everything before
/// it is keyed otherwise, and it is in bounds exactly when a match
/// exists.
pub proof fn lemma_reg_index(rs: Seq<ResourceV>, id: Seq<char>)
    ensures
        0 <= reg_index(rs, id) <= rs.len(),
        reg_index(rs, id) < rs.len() ==> rs[reg_index(rs, id)].identifier == id,
        forall|j: int| 0 <= j < reg_index(rs, id) ==> rs[j].identifier != id,
    decreases rs.len(),
{
    if rs.len() > 0 && rs[0].identifier != id {
        lemma_reg_index(rs.drop_first(), id);
        assert forall|j: int| 0 <= j < reg_index(rs, id) implies rs[j].identifier != id by {
            if j > 0 {
                assert(rs.drop_first()[j - 1] == rs[j]);
            }
        }
    }
}

impl ResourceRegistry {
    pub fn new() -> (r: ResourceRegistry)
        ensures
            r@ == Seq::<ResourceV>::empty(),
    {
        let r = ResourceRegistry { entries: Vec::new() };
        proof {
            assert(r@ =~= Seq::<ResourceV>::empty());
        }
        r
    }

    /// The number of registered resources.
    pub fn len(&self) -> (n: usize)
        ensures
            n == self@.len(),
    {
        self.entries.len()
    }

    /// The index `reg_index` describes, as a machine integer.
    fn index_of(&self, id: &str) -> (i: usize)
        ensures
            i as int == reg_index(self@, id@),
    {
        let mut i: usize = 0;
        while i < self.entries.len()
            invariant
                0 <= i <= self@.len(),
                self@.len() == self.entries@.len(),
                forall|j: int| 0 <= j < i ==> self@[j].identifier != id@,
            decreases self@.len() - i,
        {
            let hit = str_eq(self.entries[i].identifier.as_str(), id);
            if hit {
                proof {
                    lemma_reg_index(self@, id@);
                    let ri = reg_index(self@, id@);
                    assert(self@[i as int].identifier == id@);
                    if ri < i {
                        assert(self@[ri].identifier != id@);
                    }
                    if i < ri {
                        assert(self@[i as int].identifier != id@);
                    }
                }
                return i;
            }
            i = i + 1;
        }
        proof {
            lemma_reg_index(self@, id@);
            let ri = reg_index(self@, id@);
            if ri < self@.len() {
                assert(self@[ri].identifier != id@);
            }
        }
        i
    }

    /// Register a resource under its identifier; an earlier resource
    /// under the same identifier is overwritten.
    pub fn insert(&mut self, r: Resource)
        ensures
            final(self)@ == reg_insert(old(self)@, r@),
    {
        let i = self.index_of(r.identifier.as_str());
        if i < self.entries.len() {
            let slot = &mut self.entries[i];
            *slot = r;
            assert(self@ =~= reg_insert(old(self)@, r@));
        } else {
            self.entries.push(r);
            assert(self@ =~= reg_insert(old(self)@, r@));
        }
    }

    /// The resource registered under `id`, if any.
    pub fn get(&self, id: &str) -> (r: Option<&Resource>)
        ensures
            match r {
                Some(res) => reg_lookup(self@, id@) == Some(res@),
                None => reg_lookup(self@, id@) is None,
            },
    {
        let i = self.index_of(id);
        if i < self.entries.len() {
            Some(&self.entries[i])
        } else {
            None
        }
    }
}

/// Law: after registering `r`, it is exactly the resource resolvable
/// under its identifier, and lookups under every other identifier are
/// unchanged.
pub proof fn lemma_insert_lookup(rs: Seq<ResourceV>, r: ResourceV, id: Seq<char>)
    ensures
        reg_lookup(reg_insert(rs, r), r.identifier) == Some(r),
        id != r.identifier ==> reg_lookup(reg_insert(rs, r), id) == reg_lookup(rs, id),
{
    let rs2 = reg_insert(rs, r);
    lemma_reg_index(rs, r.identifier);
    lemma_reg_index(rs, id);
    lemma_reg_index(rs2, r.identifier);
    lemma_reg_index(rs2, id);
    let i = reg_index(rs, r.identifier);
    let k = reg_index(rs2, r.identifier);
    // Entries below `i` are unchanged and keyed otherwise; entry `i`
    // (update) or the appended entry (push) is `r` itself.
    assert(rs2[i].identifier == r.identifier);
    if k < i {
        assert(rs2[k] == rs[k]);
        assert(rs[k].identifier != r.identifier);
    }
    if i < k {
        assert(rs2[i].identifier != r.identifier);
    }
    assert(k == i);
    assert(rs2[i] == r);
    if id != r.identifier {
        let j = reg_index(rs, id);
        let j2 = reg_index(rs2, id);
        if j < rs.len() {
            // A match for `id` exists in `rs`, away from position `i`,
            // and survives unchanged.
            assert(rs[j].identifier == id);
            assert(j != i);
            assert(rs2[j] == rs[j]);
            if j2 < j {
                if j2 != i {
                    assert(rs2[j2] == rs[j2]);
                    assert(rs[j2].identifier != id);
                }
            }
            if j < j2 {
                assert(rs2[j].identifier != id);
            }
            assert(j2 == j);
        } else {
            // No entry of `rs` is keyed `id`, and the inserted `r` is
            // not either, so the lookup still fails.
            if j2 < rs2.len() {
                assert(rs2[j2].identifier == id);
                if j2 != i {
                    assert(rs2[j2] == rs[j2]);
                    assert(rs[j2].identifier != id);
                }
                assert(false);
            }
        }
    }
}

/// Law: duplicate resource identifiers — registering two resources
/// under the same identifier leaves only the most recently registered
/// one resolvable.
pub proof fn lemma_duplicate_identifier_last_wins(
    rs: Seq<ResourceV>,
    r1: ResourceV,
    r2: ResourceV,
)
    requires
        r1.identifier == r2.identifier,
    ensures
        reg_lookup(reg_insert(reg_insert(rs, r1), r2), r2.identifier) == Some(r2),
{
    lemma_insert_lookup(reg_insert(rs, r1), r2, r2.identifier);
}

// ---------------------------------------------------------------------
// Builders
// ---------------------------------------------------------------------
/// Staging area for the general metadata block.
#[derive(Debug)]
pub struct GeneralBuilder {
    title: String,
    description: String,
    copyright: String,
}

impl View for GeneralBuilder {
    type V = GeneralV;

    closed spec fn view(&self) -> GeneralV {
        GeneralV {
            title: self.title@,
            description: self.description@,
            copyright: self.copyright@,
        }
    }
}

impl GeneralBuilder {
    pub fn new() -> (g: GeneralBuilder)
        ensures
            g@ == (GeneralV {
                title: Seq::<char>::empty(),
                description: Seq::<char>::empty(),
                copyright: Seq::<char>::empty(),
            }),
    {
        GeneralBuilder { title: String::new(), description: String::new(), copyright: String::new() }
    }

    pub fn title(&mut self, title: String)
        ensures
            final(self)@ == (GeneralV { title: title@, ..old(self)@ }),
    {
        self.title = title;
    }

    pub fn copyright(&mut self, copyright: String)
        ensures
            final(self)@ == (GeneralV { copyright: copyright@, ..old(self)@ }),
    {
        self.copyright = copyright;
    }

    pub fn description(&mut self, desc: String)
        ensures
            final(self)@ == (GeneralV { description: desc@, ..old(self)@ }),
    {
        self.description = desc;
    }

    /// Move the staged text into the finalized metadata.
    pub fn finalize(self) -> (g: General)
        ensures
            g@ == self@,
    {
        General { title: self.title, description: self.description, copyright: self.copyright }
    }
}

/// Staging area for one module item: its title and the value of its
/// `identifierref` attribute, empty when the attribute was absent.
#[derive(Debug)]
pub struct ModuleItemBuilder {
    pub title: String,
    pub identifier_ref: String,
}

/// Mathematical image of `ModuleItemBuilder`.
#[verifier::ext_equal]
pub struct ModuleItemBuilderV {
    pub title: Seq<char>,
    pub identifier_ref: Seq<char>,
}

impl View for ModuleItemBuilder {
    type V = ModuleItemBuilderV;

    open spec fn view(&self) -> ModuleItemBuilderV {
        ModuleItemBuilderV { title: self.title@, identifier_ref: self.identifier_ref@ }
    }
}

/// The finalized item a builder resolves to: it keeps its title and
/// inherits the classified type of the referenced resource, or `NoType`
/// when the reference is not in the registry.
pub open spec fn resolve_item_spec(ib: ModuleItemBuilderV, rs: Seq<ResourceV>) -> ModuleItemV {
    ModuleItemV {
        title: ib.title,
        item_type: match reg_lookup(rs, ib.identifier_ref) {
            Some(res) => res.item_type,
            None => ItemTypeV::NoType,
        },
    }
}

impl ModuleItemBuilder {
    pub fn new(i_ref: Option<String>) -> (b: ModuleItemBuilder)
        ensures
            b@ == (ModuleItemBuilderV {
                title: Seq::<char>::empty(),
                identifier_ref: attr_or_empty(i_ref.deep_view()),
            }),
    {
        ModuleItemBuilder {
            title: String::new(),
            identifier_ref: match i_ref {
                Some(r) => r,
                None => String::new(),
            },
        }
    }

    pub fn title(&mut self, title: String)
        ensures
            final(self)@ == (ModuleItemBuilderV { title: title@, ..old(self)@ }),
    {
        self.title = title;
    }

    /// Resolve this item against the registry.
    pub fn finalize(self, resources: &ResourceRegistry) -> (m: ModuleItem)
        ensures
            m@ == resolve_item_spec(self@, resources@),
    {
        let i_type = match resources.get(self.identifier_ref.as_str()) {
            Some(resource) => resource.item_type.clone(),
            None => crate::item_type::ItemType::NoType,
        };
        ModuleItem::new(self.title, i_type)
    }
}

/// Staging area for one module: its title and its item builders in
/// document order.
#[derive(Debug)]
pub struct ModuleBuilder {
    pub title: String,
    pub items: Vec<ModuleItemBuilder>,
}

/// Mathematical image of `ModuleBuilder`.
#[verifier::ext_equal]
pub struct ModuleBuilderV {
    pub title: Seq<char>,
    pub items: Seq<ModuleItemBuilderV>,
}

impl View for ModuleBuilder {
    type V = ModuleBuilderV;

    open spec fn view(&self) -> ModuleBuilderV {
        ModuleBuilderV {
            title: self.title@,
            items: Seq::new(self.items@.len(), |i: int| self.items@[i]@),
        }
    }
}

/// The resolution pass over a module's item builders, in document
/// order: items whose resource reference is empty are dropped, every
/// other item is resolved against the registry.
pub open spec fn resolve_items_spec(items: Seq<ModuleItemBuilderV>, rs: Seq<ResourceV>) -> Seq<
    ModuleItemV,
>
    decreases items.len(),
{
    if items.len() == 0 {
        Seq::empty()
    } else {
        let rest = resolve_items_spec(items.drop_last(), rs);
        if items.last().identifier_ref.len() > 0 {
            rest.push(resolve_item_spec(items.last(), rs))
        } else {
            rest
        }
    }
}

/// The module a builder resolves to.
pub open spec fn resolve_module_spec(mb: ModuleBuilderV, rs: Seq<ResourceV>) -> ModuleV {
    ModuleV { title: mb.title, items: resolve_items_spec(mb.items, rs) }
}

/// Removing the front element of a vector whose element views form the
/// suffix `full.skip(p)` leaves the views of the rest as `full.skip(p + 1)`,
/// and the removed element's view is `full[p]`.
pub(crate) proof fn lemma_view_seq_remove_front<T: View>(pre: Seq<T>, post: Seq<T>, full: Seq<T::V>, p: int)
    requires
        pre.len() > 0,
        post == pre.remove(0),
        0 <= p,
        p + pre.len() == full.len(),
        Seq::new(pre.len(), |i: int| pre[i]@) == full.skip(p),
    ensures
        pre[0]@ == full[p],
        Seq::new(post.len(), |i: int| post[i]@) =~= full.skip(p + 1),
{
    assert(Seq::new(pre.len(), |i: int| pre[i]@)[0] == pre[0]@);
    assert(full.skip(p)[0] == full[p]);
    pre.remove_ensures(0);
    assert forall|i: int| 0 <= i < post.len() implies post[i]@ == full[p + 1 + i] by {
        assert(post[i] == pre[i + 1]);
        assert(Seq::new(pre.len(), |k: int| pre[k]@)[i + 1] == pre[i + 1]@);
        assert(full.skip(p)[i + 1] == full[p + i + 1]);
    }
    assert forall|i: int| 0 <= i < post.len() implies #[trigger] full.skip(p + 1)[i] == full[p + 1
        + i] by {}
}

impl ModuleBuilder {
    pub fn new() -> (b: ModuleBuilder)
        ensures
            b@.title == Seq::<char>::empty(),
            b@.items == Seq::<ModuleItemBuilderV>::empty(),
    {
        let b = ModuleBuilder { title: String::new(), items: Vec::new() };
        proof {
            assert(b@.items =~= Seq::<ModuleItemBuilderV>::empty());
        }
        b
    }

    pub fn title(&mut self, title: String)
        ensures
            final(self)@ == (ModuleBuilderV { title: title@, ..old(self)@ }),
    {
        self.title = title;
        proof {
            assert(self@.items =~= old(self)@.items);
        }
    }

    /// Consume the builder and resolve its items against the registry.
    pub fn finalize(self, resources: &ResourceRegistry) -> (m: Module)
        ensures
            m@ == resolve_module_spec(self@, resources@),
    {
        let ghost orig = self@;
        let ModuleBuilder { title, items } = self;
        let mut items = items;
        let mut out: Vec<ModuleItem> = Vec::new();
        let ghost total = orig.items.len() as int;
        while items.len() > 0
            invariant
                Seq::new(items@.len(), |i: int| items@[i]@) =~= orig.items.skip(
                    total - items@.len(),
                ),
                0 <= total - items@.len() <= total,
                total == orig.items.len(),
                Seq::new(out@.len(), |i: int| out@[i]@) =~= resolve_items_spec(
                    orig.items.take(total - items@.len()),
                    resources@,
                ),
            decreases items@.len(),
        {
            let ghost p = total - items@.len();
            let ghost pre = items@;
            let ib = items.remove(0);
            proof {
                lemma_view_seq_remove_front(pre, items@, orig.items, p);
                assert(ib@ == orig.items[p]);
                assert(orig.items.take(p + 1).drop_last() =~= orig.items.take(p));
                assert(orig.items.take(p + 1).last() == orig.items[p]);
            }
            let skip = ib.identifier_ref.as_str().is_empty();
            if !skip {
                let resolved = ib.finalize(resources);
                out.push(resolved);
            }
            proof {
                assert(Seq::new(out@.len(), |i: int| out@[i]@) =~= resolve_items_spec(
                    orig.items.take(p + 1),
                    resources@,
                ));
            }
        }
        proof {
            assert(orig.items.take(total) =~= orig.items);
        }
        Module::new(title, out)
    }
}

/// How many of a module's item builders declare a non-empty resource
/// reference.
pub open spec fn retained_count(items: Seq<ModuleItemBuilderV>) -> nat
    decreases items.len(),
{
    if items.len() == 0 {
        0
    } else {
        retained_count(items.drop_last()) + if items.last().identifier_ref.len() > 0 {
            1 as nat
        } else {
            0 as nat
        }
    }
}

/// Law: items with no resource reference are excluded — out of a module
/// whose builder holds any number of items, exactly those with a
/// non-empty reference survive resolution, so the resolved item count
/// equals the count of referencing items.
pub proof fn lemma_items_without_reference_excluded(
    items: Seq<ModuleItemBuilderV>,
    rs: Seq<ResourceV>,
)
    ensures
        resolve_items_spec(items, rs).len() == retained_count(items),
    decreases items.len(),
{
    if items.len() > 0 {
        lemma_items_without_reference_excluded(items.drop_last(), rs);
    }
}

/// Law: document order is preserved through resolution — a retained
/// item at source position `p` appears in the resolved sequence exactly
/// at position `retained_count(items.take(p))`, a position that grows
/// strictly with `p`; so any two retained items keep their relative
/// order.
pub proof fn lemma_resolution_preserves_order(
    items: Seq<ModuleItemBuilderV>,
    rs: Seq<ResourceV>,
    p: int,
)
    requires
        0 <= p < items.len(),
        items[p].identifier_ref.len() > 0,
    ensures
        retained_count(items.take(p)) < resolve_items_spec(items, rs).len(),
        resolve_items_spec(items, rs)[retained_count(items.take(p)) as int] == resolve_item_spec(
            items[p],
            rs,
        ),
        forall|q: int|
            0 <= q < p && items[q].identifier_ref.len() > 0 ==> retained_count(items.take(q))
                < retained_count(items.take(p)),
    decreases items.len(),
{
    lemma_items_without_reference_excluded(items, rs);
    if p == items.len() - 1 {
        assert(items.take(p) =~= items.drop_last());
        lemma_items_without_reference_excluded(items.drop_last(), rs);
        assert forall|q: int|
            0 <= q < p && items[q].identifier_ref.len() > 0 implies retained_count(items.take(q))
            < retained_count(items.take(p)) by {
            lemma_retained_count_monotonic(items, q, p);
        }
    } else {
        assert(items.drop_last().take(p) =~= items.take(p));
        assert forall|q: int| 0 <= q < items.len() - 1 implies items.drop_last()[q] == items[q] by {}
        lemma_resolution_preserves_order(items.drop_last(), rs, p);
        lemma_items_without_reference_excluded(items.drop_last(), rs);
        assert forall|q: int|
            0 <= q < p && items[q].identifier_ref.len() > 0 implies retained_count(items.take(q))
            < retained_count(items.take(p)) by {
            assert(items.drop_last().take(q) =~= items.take(q));
        }
    }
}

/// A retained item strictly advances the retained count between any two
/// positions that bracket it.
proof fn lemma_retained_count_monotonic(items: Seq<ModuleItemBuilderV>, q: int, p: int)
    requires
        0 <= q < p <= items.len(),
        items[q].identifier_ref.len() > 0,
    ensures
        retained_count(items.take(q)) < retained_count(items.take(p)),
    decreases p,
{
    if p == q + 1 {
        assert(items.take(p).drop_last() =~= items.take(q));
        assert(items.take(p).last() == items[q]);
    } else {
        lemma_retained_count_monotonic(items, q, p - 1);
        assert(items.take(p).drop_last() =~= items.take(p - 1));
    }
}

// ---------------------------------------------------------------------
// Manifest builder
// ---------------------------------------------------------------------
/// The whole staging area of one parse: general metadata, module
/// builders in document order, and the resource registry.
#[derive(Debug)]
pub struct ManifestBuilder {
    pub general: GeneralBuilder,
    pub modules: Vec<ModuleBuilder>,
    pub resources: ResourceRegistry,
}

/// Mathematical image of `ManifestBuilder`.
#[verifier::ext_equal]
pub struct ManifestBuilderV {
    pub general: GeneralV,
    pub modules: Seq<ModuleBuilderV>,
    pub resources: Seq<ResourceV>,
}

impl View for ManifestBuilder {
    type V = ManifestBuilderV;

    open spec fn view(&self) -> ManifestBuilderV {
        ManifestBuilderV {
            general: self.general@,
            modules: Seq::new(self.modules@.len(), |i: int| self.modules@[i]@),
            resources: self.resources@,
        }
    }
}

/// The manifest a finished staging area resolves to: metadata moved
/// over, every module builder resolved in order against the registry,
/// and the registered resources in registration order.
pub open spec fn finalize_spec(b: ManifestBuilderV) -> ManifestV {
    ManifestV {
        general: b.general,
        modules: b.modules.map_values(|mb: ModuleBuilderV| resolve_module_spec(mb, b.resources)),
        resources: b.resources,
    }
}

impl ManifestBuilder {
    pub fn new() -> (b: ManifestBuilder)
        ensures
            b@.general == (GeneralV {
                title: Seq::<char>::empty(),
                description: Seq::<char>::empty(),
                copyright: Seq::<char>::empty(),
            }),
            b@.modules == Seq::<ModuleBuilderV>::empty(),
            b@.resources == Seq::<ResourceV>::empty(),
    {
        let b = ManifestBuilder {
            general: GeneralBuilder::new(),
            modules: Vec::new(),
            resources: ResourceRegistry::new(),
        };
        proof {
            assert(b@.modules =~= Seq::<ModuleBuilderV>::empty());
        }
        b
    }

    /// The one-time, data-moving resolution pass: consume the staging
    /// area and produce the finalized manifest.
    pub fn finalize(self) -> (m: Manifest)
        ensures
            m@ == finalize_spec(self@),
    {
        let ghost orig = self@;
        let ManifestBuilder { general, modules, resources } = self;
        let mut modules = modules;
        let mut out: Vec<Module> = Vec::new();
        let ghost total = orig.modules.len() as int;
        while modules.len() > 0
            invariant
                Seq::new(modules@.len(), |i: int| modules@[i]@) =~= orig.modules.skip(
                    total - modules@.len(),
                ),
                0 <= total - modules@.len() <= total,
                total == orig.modules.len(),
                resources@ == orig.resources,
                out@.len() == total - modules@.len(),
                forall|i: int|
                    0 <= i < out@.len() ==> out@[i]@ == resolve_module_spec(
                        orig.modules[i],
                        orig.resources,
                    ),
            decreases modules@.len(),
        {
            let ghost p = total - modules@.len();
            let ghost pre = modules@;
            let mb = modules.remove(0);
            proof {
                lemma_view_seq_remove_front(pre, modules@, orig.modules, p);
                assert(mb@ == orig.modules[p]);
            }
            let resolved = mb.finalize(&resources);
            out.push(resolved);
        }
        let m = Manifest { general: general.finalize(), modules: out, resources: resources.entries };
        proof {
            assert(m@.modules =~= finalize_spec(orig).modules);
            assert(m@.resources =~= finalize_spec(orig).resources);
        }
        m
    }
}

/// Law: the resolution pass keeps modules in document order — the
/// finalized manifest holds exactly one module per builder, at the
/// builder's own position, each resolved against the registry.
pub proof fn lemma_finalize_preserves_module_order(b: ManifestBuilderV)
    ensures
        finalize_spec(b).modules.len() == b.modules.len(),
        forall|i: int|
            0 <= i < b.modules.len() ==> finalize_spec(b).modules[i] == resolve_module_spec(
                b.modules[i],
                b.resources,
            ),
{
}

} // verus!
