//! What a module holds, as far as this library reads or changes it.

use vstd::prelude::*;
use parity_wasm::elements::{DataSegment, Section};
use crate::exposure::{exposed_entries, mutable_indices, names_avoid_exposure};

verus! {

/// What an export entry refers to: an index into one of the module's four
/// index spaces.
#[derive(Clone, Copy, Debug, PartialEq, Eq, Structural)]
pub enum ExportTarget {
    Function(u32),
    Table(u32),
    Memory(u32),
    Global(u32),
}

/// What an import entry brings into the module.
#[derive(Clone, Copy, Debug, PartialEq, Eq, Structural)]
pub enum ImportKind {
    Function,
    Table,
    Memory,
    Global,
}

/// One entry of the export section.
#[derive(Debug, PartialEq, Eq)]
pub struct Export {
    /// The name under which the item is exported.
    pub name: String,
    /// The exported item.
    pub target: ExportTarget,
}

/// An export entry as a mathematical value.
pub struct ExportView {
    pub name: Seq<char>,
    pub target: ExportTarget,
}

impl View for Export {
    type V = ExportView;

    open spec fn view(&self) -> ExportView {
        ExportView { name: self.name@, target: self.target }
    }
}

/// The views of a list of export entries, in the same order.
pub open spec fn export_views(entries: Seq<Export>) -> Seq<ExportView> {
    entries.map_values(|e: Export| e@)
}

/// The number of global imports among `kinds`.
pub open spec fn global_imports(kinds: Seq<ImportKind>) -> nat {
    kinds.filter(|k: ImportKind| k is Global).len()
}

/// Whether no two of `entries` carry the same name.
pub open spec fn names_unique(entries: Seq<ExportView>) -> bool {
    forall|i: int, j: int|
        0 <= i < j < entries.len() ==> (#[trigger] entries[i]).name != (#[trigger] entries[j]).name
}

/// A module as a mathematical value. A section that the module lacks is
/// `None`; one that is there with no entries is `Some` of the empty sequence.
pub struct ModuleView {
    /// The entries of the data section.
    pub data: Option<Seq<DataSegment>>,
    /// For each entry of the global section, whether the global is mutable.
    pub globals: Option<Seq<bool>>,
    /// The kind of each entry of the import section.
    pub imports: Option<Seq<ImportKind>>,
    /// The entries of the export section.
    pub exports: Option<Seq<ExportView>>,
    /// The module's sections in their order, the export section left out.
    pub other_sections: Seq<Section>,
}

impl ModuleView {
    /// The data segments, none where there is no data section.
    pub open spec fn data_segments(self) -> Seq<DataSegment> {
        match self.data {
            Some(entries) => entries,
            None => Seq::empty(),
        }
    }

    /// The mutability of each declared global, none where there is no global
    /// section.
    pub open spec fn declared_globals(self) -> Seq<bool> {
        match self.globals {
            Some(entries) => entries,
            None => Seq::empty(),
        }
    }

    /// The kinds of the imports, none where there is no import section.
    pub open spec fn import_kinds(self) -> Seq<ImportKind> {
        match self.imports {
            Some(entries) => entries,
            None => Seq::empty(),
        }
    }

    /// The number of globals that the module imports.
    pub open spec fn imported_globals(self) -> nat {
        global_imports(self.import_kinds())
    }

    /// The export entries, none where there is no export section.
    pub open spec fn export_entries(self) -> Seq<ExportView> {
        match self.exports {
            Some(entries) => entries,
            None => Seq::empty(),
        }
    }

    /// Whether every global of the module, imported or declared, has an index
    /// that fits in 32 bits.
    pub open spec fn global_space_fits(self) -> bool {
        self.imported_globals() + self.declared_globals().len() <= u32::MAX
    }

    /// The entries that exposing the mutable globals under `prefix` adds.
    pub open spec fn exposure(self, prefix: Seq<char>) -> Seq<ExportView> {
        exposed_entries(prefix, self.declared_globals(), self.imported_globals())
    }

    /// The module after its mutable globals were exposed under `prefix`: the
    /// new entries follow the old ones in the export section, which is there
    /// from then on, and nothing else changes.
    pub open spec fn exposed(self, prefix: Seq<char>) -> ModuleView {
        ModuleView { exports: Some(self.export_entries() + self.exposure(prefix)), ..self }
    }

    /// Whether the mutable globals can be exposed under `prefix`: the global
    /// indices fit, the export names are pairwise distinct, and none of them
    /// is a name that the exposure would add.
    pub open spec fn can_expose(self, prefix: Seq<char>) -> bool {
        &&& self.global_space_fits()
        &&& names_unique(self.export_entries())
        &&& names_avoid_exposure(
            self.export_entries(),
            prefix,
            mutable_indices(self.declared_globals()).len(),
        )
    }
}

} // verus!
