//! The marker selector: the one marker of a scan that decides the render.

use crate::classify::FileType;
use crate::scan::DotNetFile;
use vstd::prelude::*;

verus! {

/// The marker types from the most to the least relevant.
pub const PRIORITY: [FileType; 4] = [
    FileType::ProjectJson,
    FileType::GlobalJson,
    FileType::ProjectFile,
    FileType::SolutionFile,
];

/// The place of a marker type in [`PRIORITY`].
pub open spec fn rank(file_type: FileType) -> int {
    match file_type {
        FileType::ProjectJson => 0,
        FileType::GlobalJson => 1,
        FileType::ProjectFile => 2,
        FileType::SolutionFile => 3,
    }
}

/// The priority order is total: every marker type has its place in
/// [`PRIORITY`], and no two types share one.
pub proof fn law_priority_is_total(a: FileType, b: FileType)
    ensures
        0 <= rank(a) < PRIORITY@.len(),
        PRIORITY@[rank(a)] == a,
        rank(a) == rank(b) <==> a == b,
{
}

/// The first file of the given type, in the order of `files`.
pub open spec fn first_of_type<'a>(files: Seq<DotNetFile<'a>>, file_type: FileType) -> Option<
    DotNetFile<'a>,
>
    decreases files.len(),
{
    if files.len() == 0 {
        None
    } else if files.first().file_type == file_type {
        Some(files.first())
    } else {
        first_of_type(files.drop_first(), file_type)
    }
}

/// The first file of the most relevant type among those of rank `from` and
/// below.
pub open spec fn relevant_from<'a>(files: Seq<DotNetFile<'a>>, from: int) -> Option<DotNetFile<'a>>
    decreases PRIORITY@.len() - from,
{
    if from < 0 || from >= PRIORITY@.len() {
        None
    } else {
        match first_of_type(files, PRIORITY@[from]) {
            Some(file) => Some(file),
            None => relevant_from(files, from + 1),
        }
    }
}

/// The relevant file of a scan: the first file of the most relevant type
/// that occurs in it.
pub open spec fn relevant_file_of<'a>(files: Seq<DotNetFile<'a>>) -> Option<DotNetFile<'a>> {
    relevant_from(files, 0)
}

/// Finds the first file of the given type.
pub fn get_file_of_type<'b, 'a>(files: &'b Vec<DotNetFile<'a>>, file_type: FileType) -> (found:
    Option<&'b DotNetFile<'a>>)
    ensures
        match found {
            Some(file) => first_of_type(files@, file_type) == Some(*file),
            None => first_of_type(files@, file_type) is None,
        },
{
    let mut i: usize = 0;
    proof {
        assert(files@.skip(0) == files@);
    }
    while i < files.len()
        invariant
            i <= files.len(),
            first_of_type(files@, file_type) == first_of_type(files@.skip(i as int), file_type),
        decreases files.len() - i,
    {
        proof {
            assert(files@.skip(i as int).drop_first() == files@.skip(i + 1));
        }
        if files[i].file_type == file_type {
            return Some(&files[i]);
        }
        i += 1;
    }
    None
}

/// Selects the relevant file of a scan.
pub fn relevant_file<'b, 'a>(files: &'b Vec<DotNetFile<'a>>) -> (selected: Option<
    &'b DotNetFile<'a>,
>)
    ensures
        match selected {
            Some(file) => relevant_file_of(files@) == Some(*file),
            None => relevant_file_of(files@) is None,
        },
{
    let mut from: usize = 0;
    while from < PRIORITY.len()
        invariant
            from <= PRIORITY@.len(),
            relevant_file_of(files@) == relevant_from(files@, from as int),
        decreases PRIORITY@.len() - from,
    {
        match get_file_of_type(files, PRIORITY[from]) {
            Some(file) => {
                return Some(file);
            },
            None => {},
        }
        from += 1;
    }
    None
}

/// Where the first file of a type stands: it has that type and no file
/// before it has; where there is none, no file has that type. The result is
/// the index of the file, or the length of `files` where there is none.
pub proof fn lemma_first_of_type<'a>(files: Seq<DotNetFile<'a>>, file_type: FileType) -> (at: int)
    ensures
        0 <= at <= files.len(),
        forall|j: int| 0 <= j < at ==> (#[trigger] files[j]).file_type != file_type,
        match first_of_type(files, file_type) {
            Some(file) => at < files.len() && files[at] == file && file.file_type == file_type,
            None => at == files.len(),
        },
    decreases files.len(),
{
    if files.len() == 0 {
        0
    } else if files.first().file_type == file_type {
        0
    } else {
        let rest = files.drop_first();
        let at = lemma_first_of_type(rest, file_type);
        assert forall|j: int| 0 <= j < at + 1 implies (#[trigger] files[j]).file_type
            != file_type by {
            if j > 0 {
                assert(files[j] == rest[j - 1]);
            }
        }
        at + 1
    }
}

/// The selector follows the priority order: the file it selects is of the
/// most relevant type that occurs in the scan and is the first file of that
/// type; it selects none only where the scan found no file. The result is
/// the index of the selected file, or the length of `files` where there is
/// none.
pub proof fn law_selection_follows_priority<'a>(files: Seq<DotNetFile<'a>>) -> (at: int)
    ensures
        0 <= at <= files.len(),
        match relevant_file_of(files) {
            Some(file) => {
                &&& at < files.len()
                &&& files[at] == file
                &&& forall|j: int|
                    0 <= j < files.len() ==> rank(file.file_type) <= rank(
                        (#[trigger] files[j]).file_type,
                    )
                &&& forall|j: int|
                    0 <= j < at ==> (#[trigger] files[j]).file_type != file.file_type
            },
            None => files.len() == 0,
        },
{
    lemma_relevant_from(files, 0)
}

/// [`law_selection_follows_priority`] for the types of rank `from` and
/// below, given that no file is of a type above them.
proof fn lemma_relevant_from<'a>(files: Seq<DotNetFile<'a>>, from: int) -> (at: int)
    requires
        0 <= from <= PRIORITY@.len(),
        forall|j: int| 0 <= j < files.len() ==> from <= rank((#[trigger] files[j]).file_type),
    ensures
        0 <= at <= files.len(),
        match relevant_from(files, from) {
            Some(file) => {
                &&& at < files.len()
                &&& files[at] == file
                &&& forall|j: int|
                    0 <= j < files.len() ==> rank(file.file_type) <= rank(
                        (#[trigger] files[j]).file_type,
                    )
                &&& forall|j: int|
                    0 <= j < at ==> (#[trigger] files[j]).file_type != file.file_type
            },
            None => files.len() == 0,
        },
    decreases PRIORITY@.len() - from,
{
    if from >= PRIORITY@.len() {
        if files.len() > 0 {
            assert(from <= rank(files[0].file_type));
        }
        files.len() as int
    } else {
        let file_type = PRIORITY@[from];
        assert(rank(file_type) == from);
        let first = lemma_first_of_type(files, file_type);
        match first_of_type(files, file_type) {
            Some(file) => first,
            None => {
                assert forall|j: int| 0 <= j < files.len() implies from + 1 <= rank(
                    (#[trigger] files[j]).file_type,
                ) by {
                    assert(files[j].file_type != file_type);
                    assert(from <= rank(files[j].file_type));
                }
                lemma_relevant_from(files, from + 1)
            },
        }
    }
}

/// A scan that holds `global.json` and no `project.json` selects
/// `global.json`, whichever project and solution files stand beside it.
pub proof fn law_global_json_outranks_project_and_solution_files<'a>(files: Seq<DotNetFile<'a>>)
    requires
        exists|i: int| 0 <= i < files.len() && (#[trigger] files[i]).file_type == FileType::GlobalJson,
        forall|i: int|
            0 <= i < files.len() ==> (#[trigger] files[i]).file_type != FileType::ProjectJson,
    ensures
        relevant_file_of(files) matches Some(file) && file.file_type == FileType::GlobalJson,
{
    let at = law_selection_follows_priority(files);
    let i = choose|i: int|
        0 <= i < files.len() && (#[trigger] files[i]).file_type == FileType::GlobalJson;
    assert(files[i].file_type == FileType::GlobalJson);
    assert(files[at].file_type != FileType::ProjectJson);
}

} // verus!
