//! The event handler: it keeps the ancestor-name stack in lock-step
//! with open/close events, steps the positional counters, and populates
//! the staging area at the position the counters address.

use vstd::prelude::*;

use crate::builders::ManifestBuilder;
use crate::builders::ManifestBuilderV;
use crate::builders::ModuleBuilder;
use crate::builders::ModuleBuilderV;
use crate::builders::ModuleItemBuilder;
use crate::builders::ModuleItemBuilderV;
use crate::builders::reg_insert;
use crate::index_tracker::step_spec;
use crate::index_tracker::ModuleIndexTracker;
use crate::index_tracker::TrackerV;
use crate::index_tracker::MODULE_DEPTH;
use crate::index_tracker::MODULE_ITEM_DEPTH;
use crate::index_tracker::RESOURCE_DEPTH;
use crate::node::find_attr_spec;
use crate::node::Node;
use crate::node::NodeV;
use crate::text::str_eq;
use crate::types::attr_or_empty;
use crate::types::resource_spec;
use crate::types::GeneralV;
use crate::types::ParseError;
use crate::types::Resource;

verus! {

/// The traversal state: the staging area, the positional counters, and
/// the ancestor-name stack.
#[derive(Debug)]
pub struct ManifestHandler {
    pub builder: ManifestBuilder,
    pub index_tracker: ModuleIndexTracker,
    pub stack: Vec<String>,
}

/// Mathematical image of `ManifestHandler`.
#[verifier::ext_equal]
pub struct HandlerV {
    pub builder: ManifestBuilderV,
    pub tracker: TrackerV,
    pub stack: Seq<Seq<char>>,
}

impl View for ManifestHandler {
    type V = HandlerV;

    open spec fn view(&self) -> HandlerV {
        HandlerV {
            builder: self.builder@,
            tracker: self.index_tracker@,
            stack: Seq::new(self.stack@.len(), |i: int| self.stack@[i]@),
        }
    }
}

/// The state a fresh handler starts from: empty staging area, both
/// counters at zero, empty stack.
pub open spec fn init_handler_spec() -> HandlerV {
    HandlerV {
        builder: ManifestBuilderV {
            general: GeneralV {
                title: Seq::<char>::empty(),
                description: Seq::<char>::empty(),
                copyright: Seq::<char>::empty(),
            },
            modules: Seq::<ModuleBuilderV>::empty(),
            resources: Seq::empty(),
        },
        tracker: TrackerV { module_index: 0, module_item_index: 0 },
        stack: Seq::<Seq<char>>::empty(),
    }
}

/// A freshly appended module builder.
pub open spec fn empty_module_builder() -> ModuleBuilderV {
    ModuleBuilderV { title: Seq::<char>::empty(), items: Seq::<ModuleItemBuilderV>::empty() }
}

/// Append a fresh item builder, carrying the given resource reference,
/// to the module at position `mi`; when no module sits there the event
/// is a no-op.
pub open spec fn add_item_spec(b: ManifestBuilderV, mi: int, i_ref: Option<Seq<char>>) -> ManifestBuilderV {
    if 0 <= mi < b.modules.len() {
        let m = b.modules[mi];
        let m2 = ModuleBuilderV {
            title: m.title,
            items: m.items.push(
                ModuleItemBuilderV {
                    title: Seq::<char>::empty(),
                    identifier_ref: attr_or_empty(i_ref),
                },
            ),
        };
        ManifestBuilderV { modules: b.modules.update(mi, m2), ..b }
    } else {
        b
    }
}

/// What an element-open event does to the state: the name is pushed;
/// an `item` at module depth appends a module builder, an `item` at
/// item depth appends an item builder to the current module; a
/// `resource` at resource depth registers a resource, and is fatal
/// exactly when it lacks an identifier.
pub open spec fn spec_enter(h: HandlerV, node: NodeV) -> Result<HandlerV, ParseError> {
    let stack2 = h.stack.push(node.name);
    let depth = stack2.len() as int;
    let h1 = HandlerV { builder: h.builder, tracker: h.tracker, stack: stack2 };
    if node.name == "item"@ {
        if depth == MODULE_DEPTH as int {
            Ok(
                HandlerV {
                    builder: ManifestBuilderV {
                        modules: h1.builder.modules.push(empty_module_builder()),
                        ..h1.builder
                    },
                    ..h1
                },
            )
        } else if depth == MODULE_ITEM_DEPTH as int {
            Ok(
                HandlerV {
                    builder: add_item_spec(
                        h1.builder,
                        h1.tracker.module_index,
                        find_attr_spec(node.attrs, "identifierref"@),
                    ),
                    ..h1
                },
            )
        } else {
            Ok(h1)
        }
    } else if node.name == "resource"@ && depth == RESOURCE_DEPTH as int {
        match resource_spec(node) {
            None => Err(ParseError::MissingResourceIdentifier),
            Some(r) => Ok(
                HandlerV {
                    builder: ManifestBuilderV {
                        resources: reg_insert(h1.builder.resources, r),
                        ..h1.builder
                    },
                    ..h1
                },
            ),
        }
    } else {
        Ok(h1)
    }
}

/// What an element-close event does to the state: the stack pops, and
/// an `item` close steps the counters at the depth the closing element
/// had.
pub open spec fn spec_leave(h: HandlerV, name: Seq<char>) -> HandlerV {
    let depth = h.stack.len() as int;
    let stack2 = if h.stack.len() > 0 {
        h.stack.drop_last()
    } else {
        h.stack
    };
    let tracker2 = if name == "item"@ {
        step_spec(h.tracker, depth)
    } else {
        h.tracker
    };
    HandlerV { builder: h.builder, tracker: tracker2, stack: stack2 }
}

/// Set the title of the module at position `mi`, if one sits there.
pub open spec fn set_module_title_spec(b: ManifestBuilderV, mi: int, chars: Seq<char>) -> ManifestBuilderV {
    if 0 <= mi < b.modules.len() {
        let m2 = ModuleBuilderV { title: chars, items: b.modules[mi].items };
        ManifestBuilderV { modules: b.modules.update(mi, m2), ..b }
    } else {
        b
    }
}

/// Set the title of the item at position (`mi`, `mii`), if both exist.
pub open spec fn set_item_title_spec(b: ManifestBuilderV, mi: int, mii: int, chars: Seq<char>) -> ManifestBuilderV {
    if 0 <= mi < b.modules.len() {
        let m = b.modules[mi];
        if 0 <= mii < m.items.len() {
            let it2 = ModuleItemBuilderV {
                title: chars,
                identifier_ref: m.items[mii].identifier_ref,
            };
            let m2 = ModuleBuilderV { title: m.title, items: m.items.update(mii, it2) };
            ManifestBuilderV { modules: b.modules.update(mi, m2), ..b }
        } else {
            b
        }
    } else {
        b
    }
}

/// Title text under an `item` element, routed by exact depth: one
/// level below module depth it is the current module's title, one
/// level below item depth it is the current item's title.
pub open spec fn attach_title_spec(h: HandlerV, chars: Seq<char>) -> HandlerV {
    let depth = h.stack.len() as int;
    if depth == MODULE_DEPTH as int + 1 {
        HandlerV {
            builder: set_module_title_spec(h.builder, h.tracker.module_index, chars),
            ..h
        }
    } else if depth == MODULE_ITEM_DEPTH as int + 1 {
        HandlerV {
            builder: set_item_title_spec(
                h.builder,
                h.tracker.module_index,
                h.tracker.module_item_index,
                chars,
            ),
            ..h
        }
    } else {
        h
    }
}

/// Metadata text under the `lom` wrapper, routed by the three ancestors
/// below it: general/title and general/description feed the general
/// title and description, rights/description feeds the copyright; the
/// immediate parent of the text must be the generic `string` leaf.
pub open spec fn general_data_spec(h: HandlerV, chars: Seq<char>) -> HandlerV {
    let n = h.stack.len() as int;
    let category = h.stack[n - 3];
    let parent = h.stack[n - 2];
    let current = h.stack[n - 1];
    let g = h.builder.general;
    if category == "general"@ && parent == "title"@ && current == "string"@ {
        HandlerV {
            builder: ManifestBuilderV { general: GeneralV { title: chars, ..g }, ..h.builder },
            ..h
        }
    } else if category == "general"@ && parent == "description"@ && current == "string"@ {
        HandlerV {
            builder: ManifestBuilderV {
                general: GeneralV { description: chars, ..g },
                ..h.builder
            },
            ..h
        }
    } else if category == "rights"@ && parent == "description"@ && current == "string"@ {
        HandlerV {
            builder: ManifestBuilderV { general: GeneralV { copyright: chars, ..g }, ..h.builder },
            ..h
        }
    } else {
        h
    }
}

/// What a text event does to the state, routed on the ancestor stack
/// at the moment the text arrives: title text whose parent is an
/// `item`, else metadata text four levels below the `lom` wrapper; all
/// other text is discarded.
pub open spec fn spec_text(h: HandlerV, chars: Seq<char>) -> HandlerV {
    let n = h.stack.len() as int;
    if n < 2 {
        h
    } else if h.stack[n - 1] == "title"@ && h.stack[n - 2] == "item"@ {
        attach_title_spec(h, chars)
    } else if n >= 4 && h.stack[n - 4] == "lom"@ {
        general_data_spec(h, chars)
    } else {
        h
    }
}

impl ManifestHandler {
    pub fn new() -> (h: ManifestHandler)
        ensures
            h@ == init_handler_spec(),
    {
        let h = ManifestHandler {
            builder: ManifestBuilder::new(),
            index_tracker: ModuleIndexTracker::new(),
            stack: Vec::new(),
        };
        proof {
            assert(h@.stack =~= init_handler_spec().stack);
            assert(h@.builder.modules =~= init_handler_spec().builder.modules);
            assert(h@.builder.resources =~= init_handler_spec().builder.resources);
        }
        h
    }

    /// Process an element-open event. Fails, and only fails, on a
    /// resource element at resource depth without an identifier.
    pub fn enter(&mut self, node: Node) -> (r: Result<(), ParseError>)
        ensures
            match r {
                Ok(()) => spec_enter(old(self)@, node@) == Ok::<HandlerV, ParseError>(
                    final(self)@,
                ),
                Err(e) => {
                    &&& spec_enter(old(self)@, node@) == Err::<HandlerV, ParseError>(e)
                    &&& final(self)@ == (HandlerV {
                        stack: old(self)@.stack.push(node@.name),
                        ..old(self)@
                    })
                },
            },
    {
        let name_owned = node.name.clone();
        self.stack.push(name_owned);
        proof {
            assert(self@.stack =~= old(self)@.stack.push(node@.name));
        }
        let depth = self.stack.len();
        if node.has_name("item") {
            if depth == MODULE_DEPTH {
                self.builder.modules.push(ModuleBuilder::new());
                proof {
                    assert(self@.builder.modules =~= old(self)@.builder.modules.push(
                        empty_module_builder(),
                    ));
                }
            } else if depth == MODULE_ITEM_DEPTH {
                let mi = self.index_tracker.module_index;
                if mi < self.builder.modules.len() {
                    let i_ref = node.find("identifierref");
                    proof {
                        assert(i_ref.deep_view() == find_attr_spec(
                            node@.attrs,
                            "identifierref"@,
                        ));
                    }
                    let m = &mut self.builder.modules[mi];
                    m.items.push(ModuleItemBuilder::new(i_ref));
                    proof {
                        assert(self@.builder.modules =~~= add_item_spec(
                            old(self)@.builder,
                            mi as int,
                            find_attr_spec(node@.attrs, "identifierref"@),
                        ).modules);
                    }
                }
            }
        } else if node.has_name("resource") {
            if depth == RESOURCE_DEPTH {
                match Resource::new(&node) {
                    Ok(resource) => {
                        self.builder.resources.insert(resource);
                    },
                    Err(e) => {
                        return Err(e);
                    },
                }
            }
        }
        Ok(())
    }

    /// Process an element-close event.
    pub fn leave(&mut self, name: &str)
        requires
            old(self).index_tracker.module_index < usize::MAX,
            old(self).index_tracker.module_item_index < usize::MAX,
        ensures
            final(self)@ == spec_leave(old(self)@, name@),
    {
        let depth = self.stack.len();
        self.stack.pop();
        proof {
            if old(self).stack@.len() > 0 {
                assert(self@.stack =~= old(self)@.stack.drop_last());
            } else {
                assert(self@.stack =~= old(self)@.stack);
            }
        }
        if str_eq(name, "item") {
            self.index_tracker.step(depth);
        }
    }

    /// Process a text event.
    pub fn receive_chars(&mut self, chars: String)
        ensures
            final(self)@ == spec_text(old(self)@, chars@),
    {
        let num_ancestors = self.stack.len();
        if num_ancestors < 2 {
            return ;
        }
        let on_title = str_eq(self.stack[num_ancestors - 1].as_str(), "title") && str_eq(
            self.stack[num_ancestors - 2].as_str(),
            "item",
        );
        if on_title {
            attach_titles(self, chars);
            return ;
        }
        if num_ancestors < 4 {
            return ;
        }
        let under_lom = str_eq(self.stack[num_ancestors - 4].as_str(), "lom");
        if under_lom {
            find_general_data(self, chars);
            return ;
        }
    }

    /// Consume the handler and run the resolution pass over what it
    /// accumulated.
    pub fn finalize_manifest(self) -> (m: crate::types::Manifest)
        ensures
            m@ == crate::builders::finalize_spec(self@.builder),
    {
        self.builder.finalize()
    }
}

/// Route title text to the module or item the counters address.
fn attach_titles(handler: &mut ManifestHandler, chars: String)
    ensures
        final(handler)@ == attach_title_spec(old(handler)@, chars@),
{
    let depth = handler.stack.len();
    if depth == MODULE_DEPTH + 1 {
        let mi = handler.index_tracker.module_index;
        if mi < handler.builder.modules.len() {
            let m = &mut handler.builder.modules[mi];
            m.title(chars);
            proof {
                assert(handler@.builder.modules =~~= set_module_title_spec(
                    old(handler)@.builder,
                    mi as int,
                    chars@,
                ).modules);
            }
        }
    } else if depth == MODULE_ITEM_DEPTH + 1 {
        let mi = handler.index_tracker.module_index;
        let mii = handler.index_tracker.module_item_index;
        if mi < handler.builder.modules.len() {
            let m = &mut handler.builder.modules[mi];
            if mii < m.items.len() {
                let it = &mut m.items[mii];
                it.title(chars);
            }
            proof {
                assert(handler@.builder.modules =~~= set_item_title_spec(
                    old(handler)@.builder,
                    mi as int,
                    mii as int,
                    chars@,
                ).modules);
            }
        }
    }
}

/// Route metadata text to the general field the ancestors select.
fn find_general_data(handler: &mut ManifestHandler, chars: String)
    requires
        old(handler).stack@.len() >= 4,
    ensures
        final(handler)@ == general_data_spec(old(handler)@, chars@),
{
    let num_ancestors = handler.stack.len();
    let in_general = str_eq(handler.stack[num_ancestors - 3].as_str(), "general");
    let in_rights = str_eq(handler.stack[num_ancestors - 3].as_str(), "rights");
    let parent_title = str_eq(handler.stack[num_ancestors - 2].as_str(), "title");
    let parent_description = str_eq(handler.stack[num_ancestors - 2].as_str(), "description");
    let on_string = str_eq(handler.stack[num_ancestors - 1].as_str(), "string");
    if in_general {
        if parent_title && on_string {
            handler.builder.general.title(chars);
        } else if parent_description && on_string {
            handler.builder.general.description(chars);
        }
    } else if in_rights {
        if parent_description && on_string {
            handler.builder.general.copyright(chars);
        }
    }
}

/// Law: a `resource` element opening at resource depth without an
/// `identifier` attribute is fatal — the step reports the error rather
/// than skipping the element and continuing.
pub proof fn lemma_missing_identifier_fatal(h: HandlerV, node: NodeV)
    requires
        h.stack.len() + 1 == RESOURCE_DEPTH as int,
        node.name == "resource"@,
        find_attr_spec(node.attrs, "identifier"@) is None,
    ensures
        spec_enter(h, node) == Err::<HandlerV, ParseError>(ParseError::MissingResourceIdentifier),
{
    reveal_strlit("resource");
    reveal_strlit("item");
    assert("resource"@.len() == 8);
    assert("item"@.len() == 4);
}

/// Law: an `item` element opening at module depth appends exactly one
/// fresh module builder after all existing ones, so modules end up in
/// document order.
pub proof fn lemma_module_open_appends(h: HandlerV, node: NodeV)
    requires
        h.stack.len() + 1 == MODULE_DEPTH as int,
        node.name == "item"@,
    ensures
        spec_enter(h, node) matches Ok(h2) && h2.builder.modules == h.builder.modules.push(
            empty_module_builder(),
        ),
{
}

/// Law: an `item` element opening at item depth appends exactly one
/// fresh item builder after all existing items of the current module,
/// so a module's items end up in document order.
pub proof fn lemma_item_open_appends(h: HandlerV, node: NodeV)
    requires
        h.stack.len() + 1 == MODULE_ITEM_DEPTH as int,
        node.name == "item"@,
        0 <= h.tracker.module_index < h.builder.modules.len(),
    ensures
        spec_enter(h, node) matches Ok(h2)
            && h2.builder.modules[h.tracker.module_index].items == h.builder.modules[h.tracker.module_index].items.push(
            ModuleItemBuilderV {
                title: Seq::<char>::empty(),
                identifier_ref: attr_or_empty(find_attr_spec(node.attrs, "identifierref"@)),
            },
        ),
{
}

} // verus!
