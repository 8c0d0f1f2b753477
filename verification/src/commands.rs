use vstd::prelude::*;

use crate::catalogue::Catalogue;
use crate::messages::spec_app_dir_failure;
use crate::messages::spec_catalogue_clear_failure;
use crate::messages::spec_catalogue_write_failure;
use crate::messages::spec_dir_create_failure;
use crate::messages::spec_read_file_failure;
use crate::messages::spec_write_file_failure;
use crate::messages::app_dir_failure;
use crate::messages::catalogue_clear_failure;
use crate::messages::catalogue_write_failure;
use crate::messages::dir_create_failure;
use crate::messages::read_file_failure;
use crate::messages::write_file_failure;

verus! {

// The commands the shell exposes are thin sequences of dialog and
// filesystem calls around the decisions below. The shell performs each call
// and hands its outcome in as a plain value; every choice made on an outcome
// — what to answer, which error to report, whether cancellation ends the
// command — is taken here, under contract.

/// One filter offered by the open and save dialogs: a label and the glob
/// patterns it admits.
pub struct DialogFilter {
    pub label: String,
    pub patterns: Vec<String>,
}

/// The filters both file dialogs present: JSON files, then all files.
pub fn dialog_filters() -> (filters: Vec<DialogFilter>)
    ensures
        filters@.len() == 2,
        filters@[0].label@ == "JSON Files"@,
        filters@[0].patterns@.len() == 1,
        filters@[0].patterns@[0]@ == "json"@,
        filters@[1].label@ == "All Files"@,
        filters@[1].patterns@.len() == 1,
        filters@[1].patterns@[0]@ == "*"@,
{
    let mut json_patterns: Vec<String> = Vec::new();
    json_patterns.push("json".to_owned());
    let mut all_patterns: Vec<String> = Vec::new();
    all_patterns.push("*".to_owned());
    let mut filters: Vec<DialogFilter> = Vec::new();
    filters.push(DialogFilter { label: "JSON Files".to_owned(), patterns: json_patterns });
    filters.push(DialogFilter { label: "All Files".to_owned(), patterns: all_patterns });
    filters
}

/// The file name the save dialog pre-fills.
pub fn save_dialog_file_name() -> (name: &'static str)
    ensures
        name@ == "dungeon_map.json"@,
{
    "dungeon_map.json"
}

/// Response of a dialog command: the chosen path as-is, or `None` as the
/// cancelled sentinel. A dialog command never fails.
pub fn dialog_response(choice: Option<String>) -> (resp: Result<Option<String>, String>)
    ensures
        resp matches Ok(c) && c == choice,
{
    Ok(choice)
}

/// Response of the read-file command: the contents read, or the read-failure
/// message built from the operating-system error.
pub fn read_file_response(outcome: Result<String, String>) -> (resp: Result<String, String>)
    ensures
        match outcome {
            Ok(contents) => resp matches Ok(c) && c == contents,
            Err(os) => resp matches Err(e) && e@ == spec_read_file_failure(os@),
        },
{
    match outcome {
        Ok(contents) => Ok(contents),
        Err(os) => Err(read_file_failure(os.as_str())),
    }
}

/// Response of the write-file command: acknowledged, or the write-failure
/// message built from the operating-system error.
pub fn write_file_response(outcome: Result<(), String>) -> (resp: Result<(), String>)
    ensures
        match outcome {
            Ok(_) => resp matches Ok(_),
            Err(os) => resp matches Err(e) && e@ == spec_write_file_failure(os@),
        },
{
    match outcome {
        Ok(_) => Ok(()),
        Err(os) => Err(write_file_failure(os.as_str())),
    }
}

/// The action load-map takes once the open dialog is dismissed.
pub enum LoadStep {
    /// Read the map document at this user-chosen path.
    ReadFrom(String),
    /// The user cancelled: touch nothing and answer the no-payload sentinel.
    NoPayload,
}

pub fn load_map_plan(choice: Option<String>) -> (step: LoadStep)
    ensures
        match choice {
            Some(path) => step matches LoadStep::ReadFrom(p) && p == path,
            None => step matches LoadStep::NoPayload,
        },
{
    match choice {
        Some(path) => LoadStep::ReadFrom(path),
        None => LoadStep::NoPayload,
    }
}

/// What load-map answers, given the read outcome — `None` when the dialog
/// was cancelled and no read was attempted. The read outcome carries the
/// read-file command's response, so an error is propagated as it stands.
pub open spec fn spec_load_map(read: Option<Result<Seq<char>, Seq<char>>>) -> Result<
    Option<Seq<char>>,
    Seq<char>,
> {
    match read {
        Some(Ok(contents)) => Ok(Some(contents)),
        Some(Err(e)) => Err(e),
        None => Ok(None),
    }
}

pub open spec fn read_outcome_view(read: Option<Result<String, String>>) -> Option<
    Result<Seq<char>, Seq<char>>,
> {
    match read {
        Some(Ok(contents)) => Some(Ok(contents@)),
        Some(Err(e)) => Some(Err(e@)),
        None => None,
    }
}

pub open spec fn load_response_view(resp: Result<Option<String>, String>) -> Result<
    Option<Seq<char>>,
    Seq<char>,
> {
    match resp {
        Ok(Some(contents)) => Ok(Some(contents@)),
        Ok(None) => Ok(None),
        Err(e) => Err(e@),
    }
}

pub fn load_map_conclude(read: Option<Result<String, String>>) -> (resp: Result<
    Option<String>,
    String,
>)
    ensures
        load_response_view(resp) == spec_load_map(read_outcome_view(read)),
{
    match read {
        Some(Ok(contents)) => Ok(Some(contents)),
        Some(Err(e)) => Err(e),
        None => Ok(None),
    }
}

/// The action save-map takes once the save dialog is dismissed.
pub enum SaveStep {
    /// Write the map document to this user-chosen path.
    WriteTo(String),
    /// The user cancelled: touch nothing and answer "not saved".
    NotSaved,
}

pub fn save_map_plan(choice: Option<String>) -> (step: SaveStep)
    ensures
        match choice {
            Some(path) => step matches SaveStep::WriteTo(p) && p == path,
            None => step matches SaveStep::NotSaved,
        },
{
    match choice {
        Some(path) => SaveStep::WriteTo(path),
        None => SaveStep::NotSaved,
    }
}

/// What save-map answers, given the write outcome — `None` when the dialog
/// was cancelled and no write was attempted: `true` for saved, `false` for
/// not saved, and a write error propagated as it stands.
pub open spec fn spec_save_map(write: Option<Result<(), Seq<char>>>) -> Result<bool, Seq<char>> {
    match write {
        Some(Ok(_)) => Ok(true),
        Some(Err(e)) => Err(e),
        None => Ok(false),
    }
}

pub open spec fn write_outcome_view(write: Option<Result<(), String>>) -> Option<
    Result<(), Seq<char>>,
> {
    match write {
        Some(Ok(_)) => Some(Ok(())),
        Some(Err(e)) => Some(Err(e@)),
        None => None,
    }
}

pub open spec fn save_response_view(resp: Result<bool, String>) -> Result<bool, Seq<char>> {
    match resp {
        Ok(saved) => Ok(saved),
        Err(e) => Err(e@),
    }
}

pub fn save_map_conclude(write: Option<Result<(), String>>) -> (resp: Result<bool, String>)
    ensures
        save_response_view(resp) == spec_save_map(write_outcome_view(write)),
{
    match write {
        Some(Ok(_)) => Ok(true),
        Some(Err(e)) => Err(e),
        None => Ok(false),
    }
}

/// Cancellation is a distinct success, never an error: with the dialog
/// cancelled, load-map answers the no-payload sentinel and save-map answers
/// "not saved", whatever the filesystem would have said.
pub proof fn lemma_cancellation_not_error()
    ensures
        spec_load_map(Option::<Result<Seq<char>, Seq<char>>>::None) == Result::<
            Option<Seq<char>>,
            Seq<char>,
        >::Ok(None),
        spec_save_map(Option::<Result<(), Seq<char>>>::None) == Result::<bool, Seq<char>>::Ok(
            false,
        ),
{
}

/// Response of the first step every catalogue command takes: the application
/// data directory resolved by the runtime, or the app-dir failure message.
pub fn resolve_app_dir_response(outcome: Result<String, String>) -> (resp: Result<String, String>)
    ensures
        match outcome {
            Ok(dir) => resp matches Ok(d) && d == dir,
            Err(os) => resp matches Err(e) && e@ == spec_app_dir_failure(os@),
        },
{
    match outcome {
        Ok(dir) => Ok(dir),
        Err(os) => Err(app_dir_failure(os.as_str())),
    }
}

/// Response of the directory-creation step: acknowledged, or the
/// dir-create failure message.
pub fn create_dir_response(outcome: Result<(), String>) -> (resp: Result<(), String>)
    ensures
        match outcome {
            Ok(_) => resp matches Ok(_),
            Err(os) => resp matches Err(e) && e@ == spec_dir_create_failure(os@),
        },
{
    match outcome {
        Ok(_) => Ok(()),
        Err(os) => Err(dir_create_failure(os.as_str())),
    }
}

/// Permissive catalogue read: the contents when the file could be read, the
/// catalogue's empty-state default otherwise. A file that is absent and one
/// that cannot be read are deliberately folded together, so a catalogue read
/// never fails.
pub fn catalogue_read_response(cat: Catalogue, outcome: Result<String, String>) -> (text: String)
    ensures
        match outcome {
            Ok(contents) => text == contents,
            Err(_) => text@ == cat.spec_empty_default(),
        },
{
    match outcome {
        Ok(contents) => contents,
        Err(_) => cat.empty_default(),
    }
}

/// Response of a catalogue write: acknowledged, or the catalogue's
/// write-failure message.
pub fn catalogue_write_response(cat: Catalogue, outcome: Result<(), String>) -> (resp: Result<
    (),
    String,
>)
    ensures
        match outcome {
            Ok(_) => resp matches Ok(_),
            Err(os) => resp matches Err(e) && e@ == spec_catalogue_write_failure(cat, os@),
        },
{
    match outcome {
        Ok(_) => Ok(()),
        Err(os) => Err(catalogue_write_failure(cat, os.as_str())),
    }
}

/// Response of a catalogue clear. `None` means the file did not exist, which
/// is a silent success; `Some` carries the removal outcome, whose failure is
/// reported with the catalogue's clear-failure message.
pub fn catalogue_clear_response(cat: Catalogue, outcome: Option<Result<(), String>>) -> (resp:
    Result<(), String>)
    ensures
        match outcome {
            None => resp matches Ok(_),
            Some(Ok(_)) => resp matches Ok(_),
            Some(Err(os)) => resp matches Err(e) && e@ == spec_catalogue_clear_failure(cat, os@),
        },
{
    match outcome {
        None => Ok(()),
        Some(Ok(_)) => Ok(()),
        Some(Err(os)) => Err(catalogue_clear_failure(cat, os.as_str())),
    }
}

} // verus!
