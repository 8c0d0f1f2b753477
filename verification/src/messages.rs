use vstd::prelude::*;
use vstd::string::StringExecFns;

use crate::catalogue::Catalogue;

verus! {

// Every failure a command reports is a human-readable string: a fixed
// "Failed to <action>: " prefix followed by the operating-system message.
// Each builder below produces exactly one such string; the commands'
// contracts speak of the spec forms.

/// Message for a failed read of a user-chosen file.
pub open spec fn spec_read_file_failure(os: Seq<char>) -> Seq<char> {
    "Failed to read file: "@ + os
}

pub fn read_file_failure(os: &str) -> (msg: String)
    ensures
        msg@ == spec_read_file_failure(os@),
{
    let mut msg = "Failed to read file: ".to_owned();
    msg.append(os);
    msg
}

/// Message for a failed write of a user-chosen file.
pub open spec fn spec_write_file_failure(os: Seq<char>) -> Seq<char> {
    "Failed to write file: "@ + os
}

pub fn write_file_failure(os: &str) -> (msg: String)
    ensures
        msg@ == spec_write_file_failure(os@),
{
    let mut msg = "Failed to write file: ".to_owned();
    msg.append(os);
    msg
}

/// Message for a runtime that yielded no application data directory.
pub open spec fn spec_app_dir_failure(os: Seq<char>) -> Seq<char> {
    "Failed to get app data directory: "@ + os
}

pub fn app_dir_failure(os: &str) -> (msg: String)
    ensures
        msg@ == spec_app_dir_failure(os@),
{
    let mut msg = "Failed to get app data directory: ".to_owned();
    msg.append(os);
    msg
}

/// Message for a parent directory of a catalogue file that could not be
/// created.
pub open spec fn spec_dir_create_failure(os: Seq<char>) -> Seq<char> {
    "Failed to create app data directory: "@ + os
}

pub fn dir_create_failure(os: &str) -> (msg: String)
    ensures
        msg@ == spec_dir_create_failure(os@),
{
    let mut msg = "Failed to create app data directory: ".to_owned();
    msg.append(os);
    msg
}

/// Message for a failed write of a catalogue file; the prefix names the
/// catalogue.
pub open spec fn spec_catalogue_write_failure(cat: Catalogue, os: Seq<char>) -> Seq<char> {
    match cat {
        Catalogue::Assets => "Failed to write imported assets: "@ + os,
        Catalogue::Tiles => "Failed to write imported tiles: "@ + os,
    }
}

pub fn catalogue_write_failure(cat: Catalogue, os: &str) -> (msg: String)
    ensures
        msg@ == spec_catalogue_write_failure(cat, os@),
{
    let mut msg = match cat {
        Catalogue::Assets => "Failed to write imported assets: ".to_owned(),
        Catalogue::Tiles => "Failed to write imported tiles: ".to_owned(),
    };
    msg.append(os);
    msg
}

/// Message for a failed removal of an existing catalogue file; the prefix
/// names the catalogue.
pub open spec fn spec_catalogue_clear_failure(cat: Catalogue, os: Seq<char>) -> Seq<char> {
    match cat {
        Catalogue::Assets => "Failed to remove imported assets file: "@ + os,
        Catalogue::Tiles => "Failed to remove imported tiles file: "@ + os,
    }
}

pub fn catalogue_clear_failure(cat: Catalogue, os: &str) -> (msg: String)
    ensures
        msg@ == spec_catalogue_clear_failure(cat, os@),
{
    let mut msg = match cat {
        Catalogue::Assets => "Failed to remove imported assets file: ".to_owned(),
        Catalogue::Tiles => "Failed to remove imported tiles file: ".to_owned(),
    };
    msg.append(os);
    msg
}

} // verus!
