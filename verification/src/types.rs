//! The finalized, immutable entities produced by one parse: general
//! metadata, modules with their items, declared resources, and the
//! manifest that gathers them.

use vstd::prelude::*;

use crate::item_type::classify_spec;
use crate::item_type::typestr_to_type;
use crate::item_type::ItemType;
use crate::item_type::ItemTypeV;
use crate::node::find_attr_spec;
use crate::node::Node;

verus! {

/// Why a parse cannot produce a manifest.
#[derive(Debug, Clone, Copy, PartialEq, Eq, Structural)]
pub enum ParseError {
    /// A resource element lacks the required `identifier` attribute:
    /// the document is structurally invalid for this schema's
    /// referencing model and the parse terminates at once.
    MissingResourceIdentifier,
}

/// General metadata of the course: all plain text, empty if never
/// populated.
#[derive(Debug)]
pub struct General {
    pub title: String,
    pub description: String,
    pub copyright: String,
}

/// Mathematical image of `General`, and also of its builder.
#[verifier::ext_equal]
pub struct GeneralV {
    pub title: Seq<char>,
    pub description: Seq<char>,
    pub copyright: Seq<char>,
}

impl View for General {
    type V = GeneralV;

    open spec fn view(&self) -> GeneralV {
        GeneralV {
            title: self.title@,
            description: self.description@,
            copyright: self.copyright@,
        }
    }
}

/// A leaf entry of a module, resolved to a classified content type.
#[derive(Debug)]
pub struct ModuleItem {
    pub title: String,
    pub item_type: ItemType,
}

/// Mathematical image of `ModuleItem`.
#[verifier::ext_equal]
pub struct ModuleItemV {
    pub title: Seq<char>,
    pub item_type: ItemTypeV,
}

impl View for ModuleItem {
    type V = ModuleItemV;

    open spec fn view(&self) -> ModuleItemV {
        ModuleItemV { title: self.title@, item_type: self.item_type@ }
    }
}

impl ModuleItem {
    pub fn new(title: String, i_type: ItemType) -> (m: ModuleItem)
        ensures
            m.title == title,
            m.item_type == i_type,
    {
        ModuleItem { title, item_type: i_type }
    }
}

/// A top-level organizational grouping of items, in document order.
#[derive(Debug)]
pub struct Module {
    pub title: String,
    pub items: Vec<ModuleItem>,
}

/// Mathematical image of `Module`.
#[verifier::ext_equal]
pub struct ModuleV {
    pub title: Seq<char>,
    pub items: Seq<ModuleItemV>,
}

impl View for Module {
    type V = ModuleV;

    open spec fn view(&self) -> ModuleV {
        ModuleV {
            title: self.title@,
            items: Seq::new(self.items@.len(), |i: int| self.items@[i]@),
        }
    }
}

impl Module {
    pub fn new(title: String, items: Vec<ModuleItem>) -> (m: Module)
        ensures
            m.title == title,
            m.items == items,
    {
        Module { title, items }
    }
}

/// A declared resource: identifier (the registry key), optional
/// location, and the content type classified from its raw `type`
/// attribute at construction time.
#[derive(Debug)]
pub struct Resource {
    pub href: Option<String>,
    pub identifier: String,
    pub item_type: ItemType,
}

/// Mathematical image of `Resource`.
#[verifier::ext_equal]
pub struct ResourceV {
    pub href: Option<Seq<char>>,
    pub identifier: Seq<char>,
    pub item_type: ItemTypeV,
}

impl View for Resource {
    type V = ResourceV;

    open spec fn view(&self) -> ResourceV {
        ResourceV {
            href: match self.href {
                Some(h) => Some(h@),
                None => None,
            },
            identifier: self.identifier@,
            item_type: self.item_type@,
        }
    }
}

/// An absent optional attribute is treated as the empty string.
pub open spec fn attr_or_empty(v: Option<Seq<char>>) -> Seq<char> {
    match v {
        Some(s) => s,
        None => Seq::empty(),
    }
}

/// The resource a `resource` element declares: `None` exactly when the
/// element lacks the required `identifier` attribute.
pub open spec fn resource_spec(n: crate::node::NodeV) -> Option<ResourceV> {
    match find_attr_spec(n.attrs, "identifier"@) {
        None => None,
        Some(id) => Some(
            ResourceV {
                href: find_attr_spec(n.attrs, "href"@),
                identifier: id,
                item_type: classify_spec(attr_or_empty(find_attr_spec(n.attrs, "type"@))),
            },
        ),
    }
}

impl Resource {
    /// Build a resource from its element. Fails, and only fails, when
    /// the element has no `identifier` attribute; the raw `type`
    /// attribute (empty if absent) is classified at construction time.
    pub fn new(node: &Node) -> (r: Result<Resource, ParseError>)
        ensures
            match r {
                Ok(res) => resource_spec(node@) == Some(res@),
                Err(e) => {
                    &&& resource_spec(node@) is None
                    &&& e == ParseError::MissingResourceIdentifier
                },
            },
    {
        let identifier = match node.find("identifier") {
            Some(ident) => ident,
            None => {
                return Err(ParseError::MissingResourceIdentifier);
            },
        };
        let raw_type = match node.find("type") {
            Some(t) => t,
            None => String::new(),
        };
        let item_type = typestr_to_type(raw_type.as_str());
        Ok(Resource { href: node.find("href"), identifier, item_type })
    }
}

/// The finalized, immutable output of one parse.
#[derive(Debug)]
pub struct Manifest {
    pub general: General,
    pub modules: Vec<Module>,
    pub resources: Vec<Resource>,
}

/// Mathematical image of `Manifest`.
#[verifier::ext_equal]
pub struct ManifestV {
    pub general: GeneralV,
    pub modules: Seq<ModuleV>,
    pub resources: Seq<ResourceV>,
}

impl View for Manifest {
    type V = ManifestV;

    open spec fn view(&self) -> ManifestV {
        ManifestV {
            general: self.general@,
            modules: Seq::new(self.modules@.len(), |i: int| self.modules@[i]@),
            resources: Seq::new(self.resources@.len(), |i: int| self.resources@[i]@),
        }
    }
}

/// The caller-facing digest of a manifest: its general metadata and
/// modules.
#[derive(Debug)]
pub struct Summary {
    pub general: General,
    pub modules: Vec<Module>,
}

impl Summary {
    pub fn new(manifest: Manifest) -> (s: Summary)
        ensures
            s.general == manifest.general,
            s.modules == manifest.modules,
    {
        Summary { general: manifest.general, modules: manifest.modules }
    }
}

} // verus!
