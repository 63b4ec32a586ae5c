//! The calls into `parity_wasm` and `pwasm_utils`. What stands in this file
//! is stated of those crates and believed, not proved.

use vstd::prelude::*;
use parity_wasm::elements::{DataSegment, Error, Internal, Module, Section};
use crate::model::{export_views, global_imports, Export, ExportTarget, ModuleView};

verus! {

/// `parity_wasm::elements::Module`: a decoded module, opaque here.
#[verifier::external_type_specification]
#[verifier::external_body]
pub struct ExModule(Module);

/// `parity_wasm::elements::Error`: why a byte sequence did not decode.
#[verifier::external_type_specification]
#[verifier::external_body]
pub struct ExError(Error);

/// `parity_wasm::elements::DataSegment`: one entry of the data section, with
/// its memory index, offset expression and bytes.
#[verifier::external_type_specification]
#[verifier::external_body]
pub struct ExDataSegment(DataSegment);

/// `parity_wasm::elements::Section`: one section of a module.
#[verifier::external_type_specification]
#[verifier::external_body]
pub struct ExSection(Section);

/// The module that `bytes` encode, `None` where they encode none: what
/// `parity_wasm::elements::deserialize_buffer` makes of them.
pub uninterp spec fn decoded(bytes: Seq<u8>) -> Option<Module>;

/// What `module` holds: the entries of the first data, global, import and
/// export section among its sections, and its sections without the export
/// ones.
pub uninterp spec fn contents(module: Module) -> ModuleView;

/// `parity_wasm::elements::deserialize_buffer::<Module>`. It decodes a
/// module or reports an error, and the outcome depends on the bytes alone.
/// The entry count of a section is read as a 32-bit number and that many
/// entries are read, so the global and the import section of a decoded module
/// have at most `u32::MAX` entries each.
#[verifier::external_body]
pub(crate) fn decode(bytes: &[u8]) -> (result: Result<Module, Error>)
    ensures
        result matches Ok(module) ==> decoded(bytes@) == Some(module),
        result matches Ok(module) ==> contents(module).declared_globals().len() <= u32::MAX,
        result matches Ok(module) ==> contents(module).import_kinds().len() <= u32::MAX,
        result is Err ==> decoded(bytes@) is None,
{
    parity_wasm::elements::deserialize_buffer::<Module>(bytes)
}

/// `Module::data_section` and `DataSection::entries`: a copy of the data
/// section's entries in their order, `None` where the module has no data
/// section.
#[verifier::external_body]
pub(crate) fn data_entries(module: &Module) -> (entries: Option<Vec<DataSegment>>)
    ensures
        entries matches Some(list) ==> contents(*module).data == Some(list@),
        entries is None ==> contents(*module).data is None,
{
    module.data_section().map(|section| section.entries().to_vec())
}

/// `Module::global_section`, `GlobalSection::entries` and
/// `GlobalType::is_mutable`: for each entry of the global section, in order,
/// whether it is mutable; `None` where the module has no global section.
#[verifier::external_body]
pub(crate) fn global_mutability(module: &Module) -> (flags: Option<Vec<bool>>)
    ensures
        flags matches Some(list) ==> contents(*module).globals == Some(list@),
        flags is None ==> contents(*module).globals is None,
{
    module.global_section().map(
        |section| section.entries().iter().map(|entry| entry.global_type().is_mutable()).collect(),
    )
}

/// `Module::import_section` and `ImportSection::globals`: how many entries
/// of the import section import a global; `None` where the module has no
/// import section.
#[verifier::external_body]
pub(crate) fn global_import_count(module: &Module) -> (count: Option<usize>)
    ensures
        count matches Some(n) ==> contents(*module).imports is Some && n == global_imports(
            contents(*module).import_kinds(),
        ),
        count is None ==> contents(*module).imports is None,
{
    module.import_section().map(|section| section.globals())
}

/// `Module::export_section`, `ExportSection::entries`, `ExportEntry::field`
/// and `ExportEntry::internal`: a copy of the export section's entries in
/// their order, `None` where the module has no export section.
#[verifier::external_body]
pub(crate) fn export_entries(module: &Module) -> (entries: Option<Vec<Export>>)
    ensures
        entries matches Some(list) ==> contents(*module).exports == Some(export_views(list@)),
        entries is None ==> contents(*module).exports is None,
{
    module.export_section().map(
        |section| section.entries().iter().map(
            |entry| Export {
                name: entry.field().to_string(),
                target: match *entry.internal() {
                    Internal::Function(index) => ExportTarget::Function(index),
                    Internal::Table(index) => ExportTarget::Table(index),
                    Internal::Memory(index) => ExportTarget::Memory(index),
                    Internal::Global(index) => ExportTarget::Global(index),
                },
            },
        ).collect(),
    )
}

/// `pwasm_utils::export_mutable_globals`. It appends to the export section,
/// which it first makes at the end of the module where there is none, one
/// entry for each mutable entry of the global section, in order: the `k`-th
/// of them, at position `p` of the section, is exported as global
/// `imported globals + p` under the name `{prefix}_{k}`. It touches nothing
/// else, and does not panic. The index is cut to 32 bits there, so the sum has
/// to fit.
#[verifier::external_body]
pub(crate) fn export_mutable_globals(module: &mut Module, prefix: &str)
    requires
        contents(*old(module)).global_space_fits(),
    ensures
        contents(*final(module)) == contents(*old(module)).exposed(prefix@),
    no_unwind
{
    pwasm_utils::export_mutable_globals(module, prefix)
}

} // verus!
