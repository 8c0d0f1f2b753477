use vstd::prelude::*;

use crate::catalogue::Catalogue;
use crate::catalogue::spec_catalogue_path;

verus! {

// A mathematical model of the persistence surface. The filesystem the
// commands observe is a map from absolute paths to file contents, both as
// character sequences, together with the set of directories that exist.
// Each command's filesystem effect is one of the transitions below; the
// laws of the surface are proved about them.

/// What reading the file at `path` yields: its contents, or nothing when no
/// such file exists.
pub open spec fn fs_read(files: Map<Seq<char>, Seq<char>>, path: Seq<char>) -> Option<Seq<char>> {
    if files.dom().contains(path) {
        Some(files[path])
    } else {
        None
    }
}

/// The filesystem after writing `contents` to `path`: the file is created or
/// truncated, wholesale.
pub open spec fn fs_write(
    files: Map<Seq<char>, Seq<char>>,
    path: Seq<char>,
    contents: Seq<char>,
) -> Map<Seq<char>, Seq<char>> {
    files.insert(path, contents)
}

/// The filesystem after removing the file at `path`; removing an absent file
/// changes nothing.
pub open spec fn fs_remove(files: Map<Seq<char>, Seq<char>>, path: Seq<char>) -> Map<
    Seq<char>,
    Seq<char>,
> {
    files.remove(path)
}

/// The directories after creating `dir` (with all missing ancestors, which
/// the model folds into the one entry).
pub open spec fn dir_create(dirs: Set<Seq<char>>, dir: Seq<char>) -> Set<Seq<char>> {
    dirs.insert(dir)
}

/// What a catalogue read yields on this filesystem: the contents of the
/// catalogue's file under the application data directory `dir`, or the
/// catalogue's empty-state default while that file does not exist.
pub open spec fn catalogue_read_state(
    files: Map<Seq<char>, Seq<char>>,
    dir: Seq<char>,
    cat: Catalogue,
) -> Seq<char> {
    match fs_read(files, spec_catalogue_path(dir, cat)) {
        Some(contents) => contents,
        None => cat.spec_empty_default(),
    }
}

/// The filesystem after a catalogue write: the catalogue's file overwritten
/// wholesale with `data`.
pub open spec fn catalogue_write_state(
    files: Map<Seq<char>, Seq<char>>,
    dir: Seq<char>,
    cat: Catalogue,
    data: Seq<char>,
) -> Map<Seq<char>, Seq<char>> {
    fs_write(files, spec_catalogue_path(dir, cat), data)
}

/// The filesystem after a catalogue clear: the catalogue's file removed,
/// whether or not it existed.
pub open spec fn catalogue_clear_state(
    files: Map<Seq<char>, Seq<char>>,
    dir: Seq<char>,
    cat: Catalogue,
) -> Map<Seq<char>, Seq<char>> {
    fs_remove(files, spec_catalogue_path(dir, cat))
}

/// Round-trip on user files: writing contents to any path and reading that
/// path back yields exactly those contents.
pub proof fn lemma_user_file_round_trip(
    files: Map<Seq<char>, Seq<char>>,
    path: Seq<char>,
    contents: Seq<char>,
)
    ensures
        fs_read(fs_write(files, path, contents), path) == Some(contents),
{
}

/// Path opacity: a write touches exactly the path it was given — what any
/// other path reads as is unchanged, so no rewriting of paths is observable.
pub proof fn lemma_path_opacity(
    files: Map<Seq<char>, Seq<char>>,
    path: Seq<char>,
    other: Seq<char>,
    contents: Seq<char>,
)
    requires
        other != path,
    ensures
        fs_read(fs_write(files, path, contents), other) == fs_read(files, other),
{
}

/// Round-trip on catalogues: for each catalogue and any contents, a write
/// followed by a read yields exactly those contents.
pub proof fn lemma_catalogue_round_trip(
    files: Map<Seq<char>, Seq<char>>,
    dir: Seq<char>,
    cat: Catalogue,
    data: Seq<char>,
)
    ensures
        catalogue_read_state(catalogue_write_state(files, dir, cat, data), dir, cat) == data,
{
}

/// Empty state on first read: with no file written yet, each catalogue reads
/// as its empty-state default, never as an error.
pub proof fn lemma_empty_state_first_read(dir: Seq<char>, cat: Catalogue)
    ensures
        catalogue_read_state(Map::empty(), dir, cat) == cat.spec_empty_default(),
{
}

/// Clear is idempotent: clearing succeeds whether or not the file exists,
/// clearing twice leaves the same filesystem as clearing once, and after a
/// clear the catalogue reads as its empty-state default.
pub proof fn lemma_clear_idempotent(files: Map<Seq<char>, Seq<char>>, dir: Seq<char>, cat: Catalogue)
    ensures
        catalogue_clear_state(catalogue_clear_state(files, dir, cat), dir, cat)
            == catalogue_clear_state(files, dir, cat),
        catalogue_read_state(catalogue_clear_state(files, dir, cat), dir, cat)
            == cat.spec_empty_default(),
{
    assert(catalogue_clear_state(catalogue_clear_state(files, dir, cat), dir, cat)
        =~= catalogue_clear_state(files, dir, cat));
}

/// Directory auto-creation: a catalogue write against a fresh application
/// data directory creates the directory and still round-trips — creation is
/// not conditioned on the directory already existing.
pub proof fn lemma_write_creates_directory(
    dirs: Set<Seq<char>>,
    files: Map<Seq<char>, Seq<char>>,
    dir: Seq<char>,
    cat: Catalogue,
    data: Seq<char>,
)
    ensures
        dir_create(dirs, dir).contains(dir),
        catalogue_read_state(catalogue_write_state(files, dir, cat, data), dir, cat) == data,
{
}

} // verus!
