//! The decoded module and what is asked of it.

use vstd::prelude::*;
use parity_wasm::elements::{DataSegment, Module};
use crate::codec::{
    contents, data_entries, decode, decoded, export_entries, export_mutable_globals,
    global_import_count, global_mutability,
};
use crate::exposure::{
    avoids_exposure_names, count_mutable, has_unique_names, lemma_exposed_names_unique,
    lemma_exposure_reaches_mutable_globals, reaches_mutable_globals,
};
use crate::model::{export_views, names_unique, Export, ImportKind, ModuleView};

verus! {

/// A WebAssembly module that decoded.
pub struct RuntimeBlob {
    raw_module: Module,
}

impl View for RuntimeBlob {
    type V = ModuleView;

    open spec fn view(&self) -> ModuleView {
        contents(self.module())
    }
}

impl RuntimeBlob {
    /// A decoded module declares and imports at most `u32::MAX` items each,
    /// since the format counts them in 32 bits.
    #[verifier::type_invariant]
    spec fn counts_fit(&self) -> bool {
        &&& contents(self.raw_module).declared_globals().len() <= u32::MAX
        &&& contents(self.raw_module).import_kinds().len() <= u32::MAX
    }

    /// The module that the blob owns.
    pub closed spec fn module(&self) -> Module {
        self.raw_module
    }

    /// Decodes `wasm_code`. The result is `None` exactly where the bytes do
    /// not encode a module, and otherwise owns the module that they encode.
    pub fn new(wasm_code: &[u8]) -> (blob: Option<RuntimeBlob>)
        ensures
            blob is Some <==> decoded(wasm_code@) is Some,
            blob matches Some(b) ==> decoded(wasm_code@) == Some(b.module()),
    {
        match decode(wasm_code) {
            Ok(raw_module) => Some(RuntimeBlob { raw_module }),
            Err(_) => None,
        }
    }

    /// The entries of the data section, copied, in their order; none where
    /// the module has no data section.
    pub fn data_segments(&self) -> (segments: Vec<DataSegment>)
        ensures
            segments@ == self@.data_segments(),
            self@.data is None ==> segments@.len() == 0,
            self@.data matches Some(entries) ==> segments@ == entries,
    {
        match data_entries(&self.raw_module) {
            Some(entries) => entries,
            None => Vec::new(),
        }
    }

    /// The number of globals that the module declares, mutable or not; zero
    /// where it has no global section.
    pub fn declared_globals_count(&self) -> (count: u32)
        ensures
            count == self@.declared_globals().len(),
            self@.globals is None ==> count == 0,
            self@.globals matches Some(entries) ==> count == entries.len(),
    {
        proof {
            use_type_invariant(self);
        }
        match global_mutability(&self.raw_module) {
            Some(flags) => flags.len() as u32,
            None => 0,
        }
    }

    /// The number of globals that the module imports, as the import section
    /// counts them.
    fn global_imports(&self) -> (count: usize)
        ensures
            count == self@.imported_globals(),
            count <= u32::MAX,
            self@.imports is None ==> count == 0,
    {
        proof {
            use_type_invariant(self);
            self@.import_kinds().lemma_filter_len(|k: ImportKind| k is Global);
        }
        match global_import_count(&self.raw_module) {
            Some(count) => count,
            None => {
                assert(self@.import_kinds().filter(|k: ImportKind| k is Global).len() == 0);
                0
            },
        }
    }

    /// The number of globals that the module imports; zero where it has no
    /// import section, or imports no global.
    pub fn imported_globals_count(&self) -> (count: u32)
        ensures
            count == self@.imported_globals(),
            self@.imports is None ==> count == 0,
    {
        self.global_imports() as u32
    }

    /// The entries of the export section, copied, in their order; none where
    /// the module has no export section.
    pub fn exports(&self) -> (entries: Vec<Export>)
        ensures
            export_views(entries@) == self@.export_entries(),
    {
        match export_entries(&self.raw_module) {
            Some(entries) => entries,
            None => {
                let entries = Vec::new();
                assert(export_views(entries@) =~= self@.export_entries());
                entries
            },
        }
    }

    /// Tells whether the mutable globals can be exposed under the prefix:
    /// whether the global indices fit in 32 bits, the export names are
    /// pairwise distinct, and none of them is a name that the exposure adds.
    pub fn can_expose_mutable_globals(&self, exported_name_prefix: &str) -> (possible: bool)
        ensures
            possible == self@.can_expose(exported_name_prefix@),
    {
        let imported: usize = self.global_imports();
        let flags = match global_mutability(&self.raw_module) {
            Some(flags) => flags,
            None => Vec::new(),
        };
        assert(flags@ =~= self@.declared_globals());
        if flags.len() > u32::MAX as usize - imported {
            return false;
        }
        let entries = self.exports();
        has_unique_names(&entries) && avoids_exposure_names(
            &entries,
            exported_name_prefix,
            count_mutable(&flags),
        )
    }

    /// Exports every mutable global that the module declares: the `k`-th of
    /// them under the name made of the prefix, an underscore and `k` in
    /// decimal. The new entries follow those that were there, which stay as
    /// they are; an export section is made where there was none; nothing else
    /// changes. The caller sees to it that the names are free.
    pub fn expose_mutable_globals(&mut self, exported_name_prefix: &str)
        requires
            old(self)@.can_expose(exported_name_prefix@),
        ensures
            final(self)@ == old(self)@.exposed(exported_name_prefix@),
            final(self)@.export_entries().take(old(self)@.export_entries().len() as int) == old(
                self,
            )@.export_entries(),
            reaches_mutable_globals(
                final(self)@.export_entries().skip(old(self)@.export_entries().len() as int),
                old(self)@.declared_globals(),
                old(self)@.imported_globals(),
            ),
            names_unique(final(self)@.export_entries()),
            final(self)@.data == old(self)@.data,
            final(self)@.globals == old(self)@.globals,
            final(self)@.imports == old(self)@.imports,
            final(self)@.other_sections == old(self)@.other_sections,
    {
        let ghost before = self@;
        let ghost prefix = exported_name_prefix@;
        proof {
            use_type_invariant(&*self);
        }
        export_mutable_globals(&mut self.raw_module, exported_name_prefix);
        proof {
            let n = before.export_entries().len() as int;
            lemma_exposed_names_unique(before, prefix);
            lemma_exposure_reaches_mutable_globals(
                prefix,
                before.declared_globals(),
                before.imported_globals(),
            );
            assert(self@.export_entries().take(n) =~= before.export_entries());
            assert(self@.export_entries().skip(n) =~= before.exposure(prefix));
        }
    }

    /// Exposes the mutable globals under the prefix where that can be done,
    /// and says whether it did; where it cannot, the module stays as it is.
    pub fn try_expose_mutable_globals(&mut self, exported_name_prefix: &str) -> (done: bool)
        ensures
            done == old(self)@.can_expose(exported_name_prefix@),
            done ==> final(self)@ == old(self)@.exposed(exported_name_prefix@),
            done ==> names_unique(final(self)@.export_entries()),
            !done ==> final(self).module() == old(self).module(),
    {
        if self.can_expose_mutable_globals(exported_name_prefix) {
            self.expose_mutable_globals(exported_name_prefix);
            true
        } else {
            false
        }
    }
}

} // verus!
