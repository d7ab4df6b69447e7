//! Which entries of the directory are modules of the aggregate.
use crate::errors::LayoutError;
use vstd::prelude::*;

verus! {

/// A module: its name (the file's base name) and the file's full path.
pub type FileInfos = (String, String);

/// A directory entry as listed: its file name and its full path.
pub type DirEntryName = (String, String);

/// The name ends with the source extension `.rs`.
pub open spec fn is_source_name(n: Seq<char>) -> bool {
    n.len() >= 3 && n[n.len() - 3] == '.' && n[n.len() - 2] == 'r' && n[n.len() - 1] == 's'
}

/// The base name of a source file name: the name without `.rs`, except for the
/// name `.rs` itself, which has no extension.
pub open spec fn stem_of(n: Seq<char>) -> Seq<char> {
    if n.len() == 3 {
        n
    } else {
        n.subrange(0, n.len() - 3)
    }
}

/// A file name from which a base name can be taken.
pub open spec fn has_stem(n: Seq<char>) -> bool {
    n.len() > 0 && n != ".."@
}

/// A source file that is a module of the aggregate: not the directory's own
/// `mod.rs`.
pub open spec fn qualifies(n: Seq<char>) -> bool {
    is_source_name(n) && stem_of(n) != "mod"@
}

pub open spec fn infos_view(f: FileInfos) -> (Seq<char>, Seq<char>) {
    (f.0@, f.1@)
}

pub open spec fn infos_views(v: Seq<FileInfos>) -> Seq<(Seq<char>, Seq<char>)> {
    v.map_values(|f: FileInfos| infos_view(f))
}

/// An entry that was listed and whose name has a base name.
pub open spec fn entry_fine(e: Result<DirEntryName, String>) -> bool {
    e is Ok && has_stem(e->Ok_0.0@)
}

/// The modules that a listing yields, in listing order.
pub open spec fn modules_of(es: Seq<Result<DirEntryName, String>>) -> Seq<(Seq<char>, Seq<char>)>
    decreases es.len(),
{
    if es.len() == 0 {
        seq![]
    } else {
        let prev = modules_of(es.drop_last());
        let e = es.last();
        if e is Ok && qualifies(e->Ok_0.0@) {
            prev.push((stem_of(e->Ok_0.0@), e->Ok_0.1@))
        } else {
            prev
        }
    }
}

/// Every entry before `i` is fine.
pub open spec fn fine_before(es: Seq<Result<DirEntryName, String>>, i: int) -> bool {
    forall|j: int| 0 <= j < i ==> #[trigger] entry_fine(es[j])
}

/// The outcome of [`get_directory_layout`] on a listing.
pub open spec fn layout_outcome(
    directory_name: Option<String>,
    entries: Seq<Result<DirEntryName, String>>,
    r: Result<(String, Vec<FileInfos>), LayoutError>,
) -> bool {
    match r {
        Ok((d, files)) => fine_before(entries, entries.len() as int)
            && directory_name == Some(d)
            && infos_views(files@) == modules_of(entries)
            && files@.len() > 0,
        Err(LayoutError::CannotGetDirectoryEntry { error }) => exists|i: int|
            0 <= i < entries.len() && fine_before(entries, i)
                && entries[i] == Err::<DirEntryName, String>(error),
        Err(LayoutError::Other(m)) => (exists|i: int|
            0 <= i < entries.len() && fine_before(entries, i) && entries[i] is Ok
                && !has_stem(entries[i]->Ok_0.0@) && m@ == "File doesn't have a name"@)
            || (fine_before(entries, entries.len() as int) && directory_name is None
                && m@ == "Cannot get current directory"@),
        Err(LayoutError::NoFilesFound) => fine_before(entries, entries.len() as int)
            && directory_name is Some && modules_of(entries).len() == 0,
        Err(LayoutError::CannotReadDirectory { .. }) => false,
    }
}

fn ends_with_rs(s: &str) -> (r: bool)
    ensures
        r == is_source_name(s@),
{
    let n = s.unicode_len();
    n >= 3 && s.get_char(n - 3) == '.' && s.get_char(n - 2) == 'r' && s.get_char(n - 1) == 's'
}

/// Classifies one directory entry: `None` for a file that is not a module.
fn entry_to_file_infos(name: &String, path: &String) -> (r: Result<Option<FileInfos>, LayoutError>)
    ensures
        !has_stem(name@) ==> (r matches Err(LayoutError::Other(m)) && m@ == "File doesn't have a name"@),
        has_stem(name@) && !qualifies(name@) ==> r == Ok::<Option<FileInfos>, LayoutError>(None),
        has_stem(name@) && qualifies(name@) ==> (r matches Ok(Some(f)) && infos_view(f) == (
            stem_of(name@),
            path@,
        )),
{
    let s = name.as_str();
    let dots = String::from_str("..");
    if s.unicode_len() == 0 || *name == dots {
        return Err(LayoutError::Other(String::from_str("File doesn't have a name")));
    }
    if !ends_with_rs(s) {
        return Ok(None);
    }
    let n = s.unicode_len();
    let stem = if n == 3 {
        name.clone()
    } else {
        String::from_str(s.substring_char(0, n - 3))
    };
    let reserved = String::from_str("mod");
    if stem == reserved {
        return Ok(None);
    }
    Ok(Some((stem, path.clone())))
}

/// Picks the modules out of a directory listing.
///
/// `directory_name` is the base name of the directory (`None` where it has
/// none) and `entries` what listing it gave, in order. The first entry that
/// could not be read, or whose name has no base name, fails the whole layout.
/// Otherwise the directory must have a name and at least one module.
pub fn get_directory_layout(
    directory_name: Option<String>,
    entries: Vec<Result<DirEntryName, String>>,
) -> (r: Result<(String, Vec<FileInfos>), LayoutError>)
    ensures
        layout_outcome(directory_name, entries@, r),
{
    let mut files: Vec<FileInfos> = Vec::new();
    let mut i: usize = 0;
    while i < entries.len()
        invariant
            0 <= i <= entries@.len(),
            fine_before(entries@, i as int),
            infos_views(files@) == modules_of(entries@.subrange(0, i as int)),
        decreases entries@.len() - i,
    {
        proof {
            assert(entries@.subrange(0, i + 1).drop_last() == entries@.subrange(0, i as int));
        }
        match &entries[i] {
            Err(e) => {
                return Err(LayoutError::CannotGetDirectoryEntry { error: e.clone() });
            },
            Ok(entry) => {
                match entry_to_file_infos(&entry.0, &entry.1) {
                    Err(x) => {
                        return Err(x);
                    },
                    Ok(None) => {},
                    Ok(Some(f)) => {
                        files.push(f);
                        proof {
                            assert(infos_views(files@) == infos_views(files@.drop_last()).push(
                                infos_view(f),
                            ));
                        }
                    },
                }
            },
        }
        i += 1;
    }
    proof {
        assert(entries@.subrange(0, entries@.len() as int) == entries@);
    }
    match directory_name {
        None => Err(LayoutError::Other(String::from_str("Cannot get current directory"))),
        Some(d) => {
            if files.len() == 0 {
                Err(LayoutError::NoFilesFound)
            } else {
                Ok((d, files))
            }
        },
    }
}

} // verus!
