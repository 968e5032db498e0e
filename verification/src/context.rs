//! The compilation context.
//!
//! One context exists per tree compilation.  The walker writes the root
//! widget's identity into it exactly once — at the single node that has no
//! parent — and the final assembly step reads it once.

use vstd::prelude::*;
use crate::ast::{TypePath, WidgetKind, WidgetNode, clone_type_path, strings_view};
use crate::error::CompileError;

verus! {

/// The toolkit-facing type of the root widget.
#[derive(Clone, PartialEq, Eq, Debug)]
pub enum RootType {
    /// A Primitive root: its declared type.
    Declared(TypePath),
    /// A Composed root: the associated root-widget type of the component type.
    ComponentRootOf(TypePath),
}

/// The expression through which the caller reaches the root widget.
#[derive(Clone, PartialEq, Eq, Debug)]
pub enum RootAccessor {
    /// A Primitive root: the widget itself, by name.
    Direct(String),
    /// A Composed root: the root widget the child component exposes.
    ComponentRoot(String),
}

/// The recorded identity of the tree's root widget.
#[derive(Clone, PartialEq, Eq, Debug)]
pub struct RootInfo {
    pub name: String,
    pub typ: RootType,
    pub accessor: RootAccessor,
}

/// The model of a root type.
pub enum RootTypeV {
    DeclaredV(Seq<Seq<char>>),
    ComponentRootOfV(Seq<Seq<char>>),
}

/// The model of a root accessor.
pub enum RootAccessorV {
    DirectV(Seq<char>),
    ComponentRootV(Seq<char>),
}

/// The model of the recorded root identity.
pub struct RootInfoV {
    pub name: Seq<char>,
    pub typ: RootTypeV,
    pub accessor: RootAccessorV,
}

/// The model of the recorded root identity.
pub open spec fn root_info_view(r: RootInfo) -> RootInfoV {
    RootInfoV {
        name: r.name@,
        typ: match r.typ {
            RootType::Declared(t) => RootTypeV::DeclaredV(t.view_segments()),
            RootType::ComponentRootOf(t) => RootTypeV::ComponentRootOfV(t.view_segments()),
        },
        accessor: match r.accessor {
            RootAccessor::Direct(n) => RootAccessorV::DirectV(n@),
            RootAccessor::ComponentRoot(n) => RootAccessorV::ComponentRootV(n@),
        },
    }
}

/// The root identity a widget supplies when it stands at the tree root.
pub open spec fn root_info_of(w: WidgetNode) -> RootInfoV {
    match w.kind {
        WidgetKind::Primitive => RootInfoV {
            name: w.name@,
            typ: RootTypeV::DeclaredV(w.type_reference.view_segments()),
            accessor: RootAccessorV::DirectV(w.name@),
        },
        WidgetKind::Composed => RootInfoV {
            name: w.name@,
            typ: RootTypeV::ComponentRootOfV(w.type_reference.view_segments()),
            accessor: RootAccessorV::ComponentRootV(w.name@),
        },
    }
}

/// Build the root identity for a widget standing at the tree root.
pub fn root_info_for(w: &WidgetNode) -> (r: RootInfo)
    ensures
        root_info_view(r) == root_info_of(*w),
{
    match w.kind {
        WidgetKind::Primitive => RootInfo {
            name: w.name.clone(),
            typ: RootType::Declared(clone_type_path(&w.type_reference)),
            accessor: RootAccessor::Direct(w.name.clone()),
        },
        WidgetKind::Composed => RootInfo {
            name: w.name.clone(),
            typ: RootType::ComponentRootOf(clone_type_path(&w.type_reference)),
            accessor: RootAccessor::ComponentRoot(w.name.clone()),
        },
    }
}

/// The record the walker fills while lowering one tree: the root widget's
/// identity, written exactly once, and the ambient generic type parameters,
/// supplied by the caller and read by the capability-trait synthesizer.
pub struct CompilationContext {
    pub root: Option<RootInfo>,
    pub generic_parameters: Vec<String>,
}

impl CompilationContext {
    /// The model of the recorded root, when one was recorded.
    pub open spec fn root_view(self) -> Option<RootInfoV> {
        match self.root {
            None => None,
            Some(r) => Some(root_info_view(r)),
        }
    }

    /// The models of the generic type parameters.
    pub open spec fn generics_view(self) -> Seq<Seq<char>> {
        strings_view(self.generic_parameters@)
    }

    /// A fresh context with no root recorded.
    pub fn new(generic_parameters: Vec<String>) -> (r: CompilationContext)
        ensures
            r.root_view() is None,
            r.generics_view() == strings_view(generic_parameters@),
    {
        CompilationContext { root: None, generic_parameters }
    }

    /// Record the root widget's identity.  The caller must not have recorded
    /// one before: the context is written exactly once per compilation.
    pub fn record_root(&mut self, info: RootInfo)
        requires
            old(self).root_view() is None,
        ensures
            final(self).root_view() == Some(root_info_view(info)),
            final(self).generics_view() == old(self).generics_view(),
    {
        self.root = Some(info);
    }

    /// The recorded root.  Fails with `MissingRoot` exactly when no widget of
    /// the tree was parentless, so nothing was recorded.
    pub fn root(&self) -> (r: Result<&RootInfo, CompileError>)
        ensures
            match r {
                Ok(info) => self.root_view() == Some(root_info_view(*info)),
                Err(e) => self.root_view() is None && e == CompileError::MissingRoot,
            },
    {
        match &self.root {
            Some(info) => Ok(info),
            None => Err(CompileError::MissingRoot),
        }
    }
}

} // verus!
