//! General properties of the pipeline, stated over the outcomes that its
//! functions guarantee.
use crate::errors::{FileParseError, LayoutError};
use crate::extract::{count_structs, visit_outcome, ConstructorStub, SourceItem};
use crate::layout::{
    entry_fine, fine_before, has_stem, infos_views, layout_outcome, modules_of, DirEntryName,
    FileInfos,
};
use crate::naming::pascal_of;
use crate::synth::{
    all_idents, all_same_stub, checked_names, file_fine, file_stub, files_fine_before,
    implem_outcome, init_method, module_names, unit_view, SynthesizedUnit,
};
use vstd::prelude::*;

verus! {

/// When every file parses, declares its struct and has the same constructor,
/// and every derived name is an identifier, synthesis succeeds with one field
/// (one module declaration, one import) per file.
pub proof fn lemma_consistent_files_synthesize(
    infos: Seq<FileInfos>,
    parsed: Seq<Result<Vec<SourceItem>, FileParseError>>,
    dir: Seq<char>,
    derives: Seq<Seq<char>>,
    r: Result<SynthesizedUnit, FileParseError>,
)
    requires
        infos.len() >= 1,
        infos.len() == parsed.len(),
        implem_outcome(infos, parsed, dir, derives, r),
        files_fine_before(infos, parsed, infos.len() as int),
        all_same_stub(infos, parsed),
        all_idents(
            checked_names(
                module_names(infos),
                dir,
                init_method(),
                file_stub(infos[0], parsed[0]) is Some,
            ),
        ),
    ensures
        r is Ok,
        unit_view(r->Ok_0).fields.len() == infos.len(),
        unit_view(r->Ok_0).mods.len() == infos.len(),
        unit_view(r->Ok_0).uses.len() == infos.len(),
{
}

/// A listing that is read without error, of a named directory, and holds no
/// module fails the layout with `NoFilesFound`.
pub proof fn lemma_no_modules_no_files(
    directory_name: Option<String>,
    entries: Seq<Result<DirEntryName, String>>,
    r: Result<(String, Vec<FileInfos>), LayoutError>,
)
    requires
        layout_outcome(directory_name, entries, r),
        fine_before(entries, entries.len() as int),
        directory_name is Some,
        modules_of(entries).len() == 0,
    ensures
        r matches Err(LayoutError::NoFilesFound),
{
    match r {
        Ok((d, files)) => {
            assert(infos_views(files@).len() == files@.len());
        },
        Err(LayoutError::CannotGetDirectoryEntry { error }) => {
            let i = choose|i: int|
                0 <= i < entries.len() && fine_before(entries, i) && #[trigger] entries[i]
                    == Err::<DirEntryName, String>(error);
            assert(entry_fine(entries[i]));
        },
        Err(LayoutError::Other(m)) => {
            if exists|i: int|
                0 <= i < entries.len() && fine_before(entries, i) && #[trigger] entries[i] is Ok
                    && !has_stem(entries[i]->Ok_0.0@) {
                let i = choose|i: int|
                    0 <= i < entries.len() && fine_before(entries, i) && #[trigger] entries[i] is Ok
                        && !has_stem(entries[i]->Ok_0.0@);
                assert(entry_fine(entries[i]));
            }
        },
        _ => {},
    }
}

/// A file with no struct of its target name, or with two or more, fails
/// extraction with `NoOrTooManyStruct`, naming the target.
pub proof fn lemma_struct_count_must_be_one(
    module: Seq<char>,
    items: Seq<SourceItem>,
    method: Seq<char>,
    r: Result<Option<ConstructorStub>, FileParseError>,
)
    requires
        visit_outcome(module, items, method, r),
        count_structs(items, pascal_of(module)) != 1,
    ensures
        r matches Err(FileParseError::NoOrTooManyStruct(n)) && n@ == pascal_of(module),
{
}

/// Files that all parse and declare their struct, but whose constructors
/// differ, fail synthesis with `NotAllNewMethodsAreIdentical`.
pub proof fn lemma_divergent_constructors_fail(
    infos: Seq<FileInfos>,
    parsed: Seq<Result<Vec<SourceItem>, FileParseError>>,
    dir: Seq<char>,
    derives: Seq<Seq<char>>,
    r: Result<SynthesizedUnit, FileParseError>,
)
    requires
        infos.len() >= 1,
        infos.len() == parsed.len(),
        implem_outcome(infos, parsed, dir, derives, r),
        files_fine_before(infos, parsed, infos.len() as int),
        !all_same_stub(infos, parsed),
    ensures
        r matches Err(FileParseError::NotAllNewMethodsAreIdentical),
{
}

/// Synthesis on the same inputs twice gives the same unit: the same modules,
/// imports, fields in the same order, and the same constructor with the same
/// forwarded arguments; or fails both times.
pub proof fn lemma_synthesis_idempotent(
    infos: Seq<FileInfos>,
    parsed: Seq<Result<Vec<SourceItem>, FileParseError>>,
    dir: Seq<char>,
    derives: Seq<Seq<char>>,
    r1: Result<SynthesizedUnit, FileParseError>,
    r2: Result<SynthesizedUnit, FileParseError>,
)
    requires
        infos.len() >= 1,
        infos.len() == parsed.len(),
        implem_outcome(infos, parsed, dir, derives, r1),
        implem_outcome(infos, parsed, dir, derives, r2),
    ensures
        r1 is Ok <==> r2 is Ok,
        r1 is Ok ==> unit_view(r1->Ok_0) == unit_view(r2->Ok_0),
{
}

} // verus!
