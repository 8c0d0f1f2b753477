use vstd::prelude::*;
use vstd::string::StringExecFns;

verus! {

/// The two application-managed JSON catalogues. Each lives in a fixed file
/// directly under the application data directory and has a defined
/// empty-state default that a read yields while the file does not exist.
#[derive(Clone, Copy, PartialEq, Eq, Structural, Debug)]
pub enum Catalogue {
    /// Catalogue of imported assets; stored as a JSON array.
    Assets,
    /// Store of imported tiles; stored as a versioned JSON object.
    Tiles,
}

impl Catalogue {
    /// Name of this catalogue's file under the application data directory.
    pub open spec fn spec_file_name(self) -> Seq<char> {
        match self {
            Catalogue::Assets => "imported_assets.json"@,
            Catalogue::Tiles => "tile-store.json"@,
        }
    }

    pub fn file_name(&self) -> (name: &'static str)
        ensures
            name@ == self.spec_file_name(),
    {
        match self {
            Catalogue::Assets => "imported_assets.json",
            Catalogue::Tiles => "tile-store.json",
        }
    }

    /// What a read of this catalogue yields when its file is absent or
    /// unreadable: an empty array for assets, an empty versioned store for
    /// tiles.
    pub open spec fn spec_empty_default(self) -> Seq<char> {
        match self {
            Catalogue::Assets => "[]"@,
            Catalogue::Tiles => "{\"tiles\":[],\"version\":2}"@,
        }
    }

    pub fn empty_default(&self) -> (text: String)
        ensures
            text@ == self.spec_empty_default(),
    {
        match self {
            Catalogue::Assets => "[]".to_owned(),
            Catalogue::Tiles => "{\"tiles\":[],\"version\":2}".to_owned(),
        }
    }
}

/// Absolute path of a catalogue's file under the given application data
/// directory: the directory, a separator, and the catalogue's file name.
pub open spec fn spec_catalogue_path(dir: Seq<char>, cat: Catalogue) -> Seq<char> {
    dir + "/"@ + cat.spec_file_name()
}

pub fn catalogue_file_path(dir: &str, cat: Catalogue) -> (path: String)
    ensures
        path@ == spec_catalogue_path(dir@, cat),
{
    let mut path = dir.to_owned();
    path.append("/");
    path.append(cat.file_name());
    path
}

} // verus!
