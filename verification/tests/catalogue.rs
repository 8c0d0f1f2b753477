use dungeon_host::catalogue::Catalogue;
use dungeon_host::catalogue::catalogue_file_path;
use dungeon_host::commands::catalogue_clear_response;
use dungeon_host::commands::catalogue_read_response;
use dungeon_host::commands::catalogue_write_response;

/// A stand-in for one catalogue file: `None` while the file does not exist.
/// Read, write and clear feed the commands' decision functions exactly the
/// outcomes the filesystem would hand them.
struct FileSlot {
    contents: Option<String>,
}

impl FileSlot {
    fn new() -> FileSlot {
        FileSlot { contents: None }
    }

    fn read(&self) -> Result<String, String> {
        match &self.contents {
            Some(c) => Ok(c.clone()),
            None => Err("No such file or directory (os error 2)".to_string()),
        }
    }

    fn write(&mut self, data: &str) -> Result<(), String> {
        self.contents = Some(data.to_string());
        Ok(())
    }

    fn remove(&mut self) -> Option<Result<(), String>> {
        match self.contents.take() {
            Some(_) => Some(Ok(())),
            None => None,
        }
    }
}

#[test]
fn empty_state_defaults_exact() {
    assert_eq!(Catalogue::Assets.empty_default(), "[]");
    assert_eq!(Catalogue::Tiles.empty_default(), "{\"tiles\":[],\"version\":2}");
}

#[test]
fn catalogue_file_names_fixed() {
    assert_eq!(Catalogue::Assets.file_name(), "imported_assets.json");
    assert_eq!(Catalogue::Tiles.file_name(), "tile-store.json");
}

#[test]
fn catalogue_paths_directly_under_app_data_dir() {
    assert_eq!(
        catalogue_file_path("/home/u/.local/share/editor", Catalogue::Assets),
        "/home/u/.local/share/editor/imported_assets.json"
    );
    assert_eq!(
        catalogue_file_path("/home/u/.local/share/editor", Catalogue::Tiles),
        "/home/u/.local/share/editor/tile-store.json"
    );
}

#[test]
fn assets_catalogue_lifecycle() {
    let mut slot = FileSlot::new();

    let first = catalogue_read_response(Catalogue::Assets, slot.read());
    assert_eq!(first, "[]");

    let written = catalogue_write_response(Catalogue::Assets, slot.write("[{\"id\":1}]"));
    assert!(written.is_ok());

    let second = catalogue_read_response(Catalogue::Assets, slot.read());
    assert_eq!(second, "[{\"id\":1}]");

    let cleared = catalogue_clear_response(Catalogue::Assets, slot.remove());
    assert!(cleared.is_ok());

    let third = catalogue_read_response(Catalogue::Assets, slot.read());
    assert_eq!(third, "[]");
}

#[test]
fn tiles_catalogue_round_trip() {
    let mut slot = FileSlot::new();

    let first = catalogue_read_response(Catalogue::Tiles, slot.read());
    assert_eq!(first, "{\"tiles\":[],\"version\":2}");

    let data = "{\"tiles\":[{\"k\":\"a\"}],\"version\":2}";
    let written = catalogue_write_response(Catalogue::Tiles, slot.write(data));
    assert!(written.is_ok());

    let second = catalogue_read_response(Catalogue::Tiles, slot.read());
    assert_eq!(second, data);
}

#[test]
fn clear_succeeds_with_and_without_file() {
    let mut slot = FileSlot::new();

    // The file does not exist: clear is a silent success.
    let absent = catalogue_clear_response(Catalogue::Assets, slot.remove());
    assert!(absent.is_ok());

    // The file exists: clear removes it and succeeds.
    slot.write("[1]").unwrap();
    let removed = catalogue_clear_response(Catalogue::Assets, slot.remove());
    assert!(removed.is_ok());

    // Clearing again is again a silent success, and a read yields the default.
    let again = catalogue_clear_response(Catalogue::Assets, slot.remove());
    assert!(again.is_ok());
    assert_eq!(catalogue_read_response(Catalogue::Assets, slot.read()), "[]");
}

#[test]
fn unreadable_catalogue_folds_to_default() {
    let denied: Result<String, String> =
        Err("Permission denied (os error 13)".to_string());
    assert_eq!(catalogue_read_response(Catalogue::Assets, denied.clone()), "[]");
    assert_eq!(
        catalogue_read_response(Catalogue::Tiles, denied),
        "{\"tiles\":[],\"version\":2}"
    );
}
