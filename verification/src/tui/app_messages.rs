//! The texts that the interface shows and logs.

use crate::text::{decimal, decimal_of};
use vstd::prelude::*;
use vstd::string::StringExecFns;

verus! {

/// The name of a queue entry whose tracks are still being looked up.
pub open spec fn fetching_name_text(name: Seq<char>) -> Seq<char> {
    "Fetching: "@ + name
}

pub fn fetching_name(name: &str) -> (text: String)
    ensures
        text@ == fetching_name_text(name@),
{
    let mut text = String::from_str("Fetching: ");
    text.append(name);
    text
}

/// The label of a track.
pub open spec fn track_label_text(artist: Seq<char>, title: Seq<char>) -> Seq<char> {
    artist + " - "@ + title
}

pub fn track_label(artist: &str, title: &str) -> (text: String)
    ensures
        text@ == track_label_text(artist@, title@),
{
    let mut text = String::from_str(artist);
    text.append(" - ");
    text.append(title);
    text
}

/// The text `[<id>] Started: <name> (<total> tracks)`.
pub open spec fn started_log_text(id: nat, name: Seq<char>, total: nat) -> Seq<char> {
    "["@ + decimal_of(id) + "] Started: "@ + name + " ("@ + decimal_of(total) + " tracks)"@
}

pub fn started_log(id: usize, name: &str, total: usize) -> (text: String)
    ensures
        text@ == started_log_text(id as nat, name@, total as nat),
{
    let mut text = String::from_str("[");
    text.append(decimal(id).as_str());
    text.append("] Started: ");
    text.append(name);
    text.append(" (");
    text.append(decimal(total).as_str());
    text.append(" tracks)");
    text
}

/// The text `Downloading: <artist> - <title>`.
pub open spec fn downloading_status_text(artist: Seq<char>, title: Seq<char>) -> Seq<char> {
    "Downloading: "@ + artist + " - "@ + title
}

pub fn downloading_status(artist: &str, title: &str) -> (text: String)
    ensures
        text@ == downloading_status_text(artist@, title@),
{
    let mut text = String::from_str("Downloading: ");
    text.append(artist);
    text.append(" - ");
    text.append(title);
    text
}

/// The text `[<id>] Downloading: <artist> - <title>`.
pub open spec fn downloading_log_text(id: nat, artist: Seq<char>, title: Seq<char>) -> Seq<char> {
    "["@ + decimal_of(id) + "] Downloading: "@ + artist + " - "@ + title
}

pub fn downloading_log(id: usize, artist: &str, title: &str) -> (text: String)
    ensures
        text@ == downloading_log_text(id as nat, artist@, title@),
{
    let mut text = String::from_str("[");
    text.append(decimal(id).as_str());
    text.append("] Downloading: ");
    text.append(artist);
    text.append(" - ");
    text.append(title);
    text
}

/// The text `Complete: <artist> - <title>`.
pub open spec fn complete_status_text(artist: Seq<char>, title: Seq<char>) -> Seq<char> {
    "Complete: "@ + artist + " - "@ + title
}

pub fn complete_status(artist: &str, title: &str) -> (text: String)
    ensures
        text@ == complete_status_text(artist@, title@),
{
    let mut text = String::from_str("Complete: ");
    text.append(artist);
    text.append(" - ");
    text.append(title);
    text
}

/// The text `[<id>] Complete: <artist> - <title>`.
pub open spec fn complete_log_text(id: nat, artist: Seq<char>, title: Seq<char>) -> Seq<char> {
    "["@ + decimal_of(id) + "] Complete: "@ + artist + " - "@ + title
}

pub fn complete_log(id: usize, artist: &str, title: &str) -> (text: String)
    ensures
        text@ == complete_log_text(id as nat, artist@, title@),
{
    let mut text = String::from_str("[");
    text.append(decimal(id).as_str());
    text.append("] Complete: ");
    text.append(artist);
    text.append(" - ");
    text.append(title);
    text
}

/// The text `Skipped (exists): <artist> - <title>`.
pub open spec fn skipped_status_text(artist: Seq<char>, title: Seq<char>) -> Seq<char> {
    "Skipped (exists): "@ + artist + " - "@ + title
}

pub fn skipped_status(artist: &str, title: &str) -> (text: String)
    ensures
        text@ == skipped_status_text(artist@, title@),
{
    let mut text = String::from_str("Skipped (exists): ");
    text.append(artist);
    text.append(" - ");
    text.append(title);
    text
}

/// The text `[<id>] Skipped: <artist> - <title>`.
pub open spec fn skipped_log_text(id: nat, artist: Seq<char>, title: Seq<char>) -> Seq<char> {
    "["@ + decimal_of(id) + "] Skipped: "@ + artist + " - "@ + title
}

pub fn skipped_log(id: usize, artist: &str, title: &str) -> (text: String)
    ensures
        text@ == skipped_log_text(id as nat, artist@, title@),
{
    let mut text = String::from_str("[");
    text.append(decimal(id).as_str());
    text.append("] Skipped: ");
    text.append(artist);
    text.append(" - ");
    text.append(title);
    text
}

/// The text `Failed: <artist> - <title> (<error>)`.
pub open spec fn failed_status_text(
    artist: Seq<char>,
    title: Seq<char>,
    error: Seq<char>,
) -> Seq<char> {
    "Failed: "@ + artist + " - "@ + title + " ("@ + error + ")"@
}

pub fn failed_status(artist: &str, title: &str, error: &str) -> (text: String)
    ensures
        text@ == failed_status_text(artist@, title@, error@),
{
    let mut text = String::from_str("Failed: ");
    text.append(artist);
    text.append(" - ");
    text.append(title);
    text.append(" (");
    text.append(error);
    text.append(")");
    text
}

/// The text `[<id>] FAILED: <artist> - <title> - <error>`.
pub open spec fn failed_log_text(
    id: nat,
    artist: Seq<char>,
    title: Seq<char>,
    error: Seq<char>,
) -> Seq<char> {
    "["@ + decimal_of(id) + "] FAILED: "@ + artist + " - "@ + title + " - "@ + error
}

pub fn failed_log(id: usize, artist: &str, title: &str, error: &str) -> (text: String)
    ensures
        text@ == failed_log_text(id as nat, artist@, title@, error@),
{
    let mut text = String::from_str("[");
    text.append(decimal(id).as_str());
    text.append("] FAILED: ");
    text.append(artist);
    text.append(" - ");
    text.append(title);
    text.append(" - ");
    text.append(error);
    text
}

/// The text `Finished: <name>`.
pub open spec fn finished_status_text(name: Seq<char>) -> Seq<char> {
    "Finished: "@ + name
}

pub fn finished_status(name: &str) -> (text: String)
    ensures
        text@ == finished_status_text(name@),
{
    let mut text = String::from_str("Finished: ");
    text.append(name);
    text
}

/// The text `[<id>] Finished: <name>`.
pub open spec fn finished_log_text(id: nat, name: Seq<char>) -> Seq<char> {
    "["@ + decimal_of(id) + "] Finished: "@ + name
}

pub fn finished_log(id: usize, name: &str) -> (text: String)
    ensures
        text@ == finished_log_text(id as nat, name@),
{
    let mut text = String::from_str("[");
    text.append(decimal(id).as_str());
    text.append("] Finished: ");
    text.append(name);
    text
}

/// The text `Error: <error>`.
pub open spec fn error_status_text(error: Seq<char>) -> Seq<char> {
    "Error: "@ + error
}

pub fn error_status(error: &str) -> (text: String)
    ensures
        text@ == error_status_text(error@),
{
    let mut text = String::from_str("Error: ");
    text.append(error);
    text
}

/// The text `[<id>] ERROR: <error>`.
pub open spec fn error_log_text(id: nat, error: Seq<char>) -> Seq<char> {
    "["@ + decimal_of(id) + "] ERROR: "@ + error
}

pub fn error_log(id: usize, error: &str) -> (text: String)
    ensures
        text@ == error_log_text(id as nat, error@),
{
    let mut text = String::from_str("[");
    text.append(decimal(id).as_str());
    text.append("] ERROR: ");
    text.append(error);
    text
}

/// The text `[<id>] <line>`.
pub open spec fn plain_log_text(id: nat, line: Seq<char>) -> Seq<char> {
    "["@ + decimal_of(id) + "] "@ + line
}

pub fn plain_log(id: usize, line: &str) -> (text: String)
    ensures
        text@ == plain_log_text(id as nat, line@),
{
    let mut text = String::from_str("[");
    text.append(decimal(id).as_str());
    text.append("] ");
    text.append(line);
    text
}

/// The text `[<id>] Converting: <path> -> <format>`.
pub open spec fn converting_log_text(id: nat, path: Seq<char>, format: Seq<char>) -> Seq<char> {
    "["@ + decimal_of(id) + "] Converting: "@ + path + " -> "@ + format
}

pub fn converting_log(id: usize, path: &str, format: &str) -> (text: String)
    ensures
        text@ == converting_log_text(id as nat, path@, format@),
{
    let mut text = String::from_str("[");
    text.append(decimal(id).as_str());
    text.append("] Converting: ");
    text.append(path);
    text.append(" -> ");
    text.append(format);
    text
}

/// The text `Converting to <format>...`.
pub open spec fn converting_status_text(format: Seq<char>) -> Seq<char> {
    "Converting to "@ + format + "..."@
}

pub fn converting_status(format: &str) -> (text: String)
    ensures
        text@ == converting_status_text(format@),
{
    let mut text = String::from_str("Converting to ");
    text.append(format);
    text.append("...");
    text
}

/// The text `[<id>] Converted: <old_path> -> <new_path>`.
pub open spec fn converted_log_text(
    id: nat,
    old_path: Seq<char>,
    new_path: Seq<char>,
) -> Seq<char> {
    "["@ + decimal_of(id) + "] Converted: "@ + old_path + " -> "@ + new_path
}

pub fn converted_log(id: usize, old_path: &str, new_path: &str) -> (text: String)
    ensures
        text@ == converted_log_text(id as nat, old_path@, new_path@),
{
    let mut text = String::from_str("[");
    text.append(decimal(id).as_str());
    text.append("] Converted: ");
    text.append(old_path);
    text.append(" -> ");
    text.append(new_path);
    text
}

/// The text `Conversion complete: <new_path>`.
pub open spec fn converted_status_text(new_path: Seq<char>) -> Seq<char> {
    "Conversion complete: "@ + new_path
}

pub fn converted_status(new_path: &str) -> (text: String)
    ensures
        text@ == converted_status_text(new_path@),
{
    let mut text = String::from_str("Conversion complete: ");
    text.append(new_path);
    text
}

/// The text `[<id>] Conversion failed: <path> - <error>`.
pub open spec fn convert_failed_log_text(id: nat, path: Seq<char>, error: Seq<char>) -> Seq<char> {
    "["@ + decimal_of(id) + "] Conversion failed: "@ + path + " - "@ + error
}

pub fn convert_failed_log(id: usize, path: &str, error: &str) -> (text: String)
    ensures
        text@ == convert_failed_log_text(id as nat, path@, error@),
{
    let mut text = String::from_str("[");
    text.append(decimal(id).as_str());
    text.append("] Conversion failed: ");
    text.append(path);
    text.append(" - ");
    text.append(error);
    text
}

/// The text `Conversion failed: <error>`.
pub open spec fn convert_failed_status_text(error: Seq<char>) -> Seq<char> {
    "Conversion failed: "@ + error
}

pub fn convert_failed_status(error: &str) -> (text: String)
    ensures
        text@ == convert_failed_status_text(error@),
{
    let mut text = String::from_str("Conversion failed: ");
    text.append(error);
    text
}

/// The text `Batch conversion complete: <successful>/<total> successful`.
pub open spec fn batch_converted_log_text(successful: nat, total: nat) -> Seq<char> {
    "Batch conversion complete: "@ + decimal_of(successful) + "/"@ + decimal_of(total)
        + " successful"@
}

pub fn batch_converted_log(successful: usize, total: usize) -> (text: String)
    ensures
        text@ == batch_converted_log_text(successful as nat, total as nat),
{
    let mut text = String::from_str("Batch conversion complete: ");
    text.append(decimal(successful).as_str());
    text.append("/");
    text.append(decimal(total).as_str());
    text.append(" successful");
    text
}

/// The text `Batch conversion complete: <successful>/<total> tracks converted`.
pub open spec fn batch_converted_status_text(successful: nat, total: nat) -> Seq<char> {
    "Batch conversion complete: "@ + decimal_of(successful) + "/"@ + decimal_of(total)
        + " tracks converted"@
}

pub fn batch_converted_status(successful: usize, total: usize) -> (text: String)
    ensures
        text@ == batch_converted_status_text(successful as nat, total as nat),
{
    let mut text = String::from_str("Batch conversion complete: ");
    text.append(decimal(successful).as_str());
    text.append("/");
    text.append(decimal(total).as_str());
    text.append(" tracks converted");
    text
}

/// The text `[<id>] Refreshing metadata: <artist> - <title>`.
pub open spec fn refreshing_log_text(id: nat, artist: Seq<char>, title: Seq<char>) -> Seq<char> {
    "["@ + decimal_of(id) + "] Refreshing metadata: "@ + artist + " - "@ + title
}

pub fn refreshing_log(id: usize, artist: &str, title: &str) -> (text: String)
    ensures
        text@ == refreshing_log_text(id as nat, artist@, title@),
{
    let mut text = String::from_str("[");
    text.append(decimal(id).as_str());
    text.append("] Refreshing metadata: ");
    text.append(artist);
    text.append(" - ");
    text.append(title);
    text
}

/// The text `Refreshing metadata: <artist> - <title>`.
pub open spec fn refreshing_status_text(artist: Seq<char>, title: Seq<char>) -> Seq<char> {
    "Refreshing metadata: "@ + artist + " - "@ + title
}

pub fn refreshing_status(artist: &str, title: &str) -> (text: String)
    ensures
        text@ == refreshing_status_text(artist@, title@),
{
    let mut text = String::from_str("Refreshing metadata: ");
    text.append(artist);
    text.append(" - ");
    text.append(title);
    text
}

/// The text `[<id>] Metadata refreshed: <artist> - <title>`.
pub open spec fn refreshed_log_text(id: nat, artist: Seq<char>, title: Seq<char>) -> Seq<char> {
    "["@ + decimal_of(id) + "] Metadata refreshed: "@ + artist + " - "@ + title
}

pub fn refreshed_log(id: usize, artist: &str, title: &str) -> (text: String)
    ensures
        text@ == refreshed_log_text(id as nat, artist@, title@),
{
    let mut text = String::from_str("[");
    text.append(decimal(id).as_str());
    text.append("] Metadata refreshed: ");
    text.append(artist);
    text.append(" - ");
    text.append(title);
    text
}

/// The text `Metadata refreshed: <artist> - <title>`.
pub open spec fn refreshed_status_text(artist: Seq<char>, title: Seq<char>) -> Seq<char> {
    "Metadata refreshed: "@ + artist + " - "@ + title
}

pub fn refreshed_status(artist: &str, title: &str) -> (text: String)
    ensures
        text@ == refreshed_status_text(artist@, title@),
{
    let mut text = String::from_str("Metadata refreshed: ");
    text.append(artist);
    text.append(" - ");
    text.append(title);
    text
}

/// The text `[<id>] Metadata refresh failed: <artist> - <title> - <error>`.
pub open spec fn refresh_failed_log_text(
    id: nat,
    artist: Seq<char>,
    title: Seq<char>,
    error: Seq<char>,
) -> Seq<char> {
    "["@ + decimal_of(id) + "] Metadata refresh failed: "@ + artist + " - "@ + title + " - "@
        + error
}

pub fn refresh_failed_log(id: usize, artist: &str, title: &str, error: &str) -> (text: String)
    ensures
        text@ == refresh_failed_log_text(id as nat, artist@, title@, error@),
{
    let mut text = String::from_str("[");
    text.append(decimal(id).as_str());
    text.append("] Metadata refresh failed: ");
    text.append(artist);
    text.append(" - ");
    text.append(title);
    text.append(" - ");
    text.append(error);
    text
}

/// The text `Refresh failed: <artist> - <title>`.
pub open spec fn refresh_failed_status_text(artist: Seq<char>, title: Seq<char>) -> Seq<char> {
    "Refresh failed: "@ + artist + " - "@ + title
}

pub fn refresh_failed_status(artist: &str, title: &str) -> (text: String)
    ensures
        text@ == refresh_failed_status_text(artist@, title@),
{
    let mut text = String::from_str("Refresh failed: ");
    text.append(artist);
    text.append(" - ");
    text.append(title);
    text
}

/// The text `Batch metadata refresh complete: <successful>/<total> successful`.
pub open spec fn batch_refreshed_log_text(successful: nat, total: nat) -> Seq<char> {
    "Batch metadata refresh complete: "@ + decimal_of(successful) + "/"@ + decimal_of(total)
        + " successful"@
}

pub fn batch_refreshed_log(successful: usize, total: usize) -> (text: String)
    ensures
        text@ == batch_refreshed_log_text(successful as nat, total as nat),
{
    let mut text = String::from_str("Batch metadata refresh complete: ");
    text.append(decimal(successful).as_str());
    text.append("/");
    text.append(decimal(total).as_str());
    text.append(" successful");
    text
}

/// The text `Batch metadata refresh complete: <successful>/<total> tracks refreshed`.
pub open spec fn batch_refreshed_status_text(successful: nat, total: nat) -> Seq<char> {
    "Batch metadata refresh complete: "@ + decimal_of(successful) + "/"@ + decimal_of(total)
        + " tracks refreshed"@
}

pub fn batch_refreshed_status(successful: usize, total: usize) -> (text: String)
    ensures
        text@ == batch_refreshed_status_text(successful as nat, total as nat),
{
    let mut text = String::from_str("Batch metadata refresh complete: ");
    text.append(decimal(successful).as_str());
    text.append("/");
    text.append(decimal(total).as_str());
    text.append(" tracks refreshed");
    text
}

/// The text `Delete <count> original file(s)? Press 'y' to delete all, 'n' to keep all.`.
pub open spec fn delete_originals_question_text(count: nat) -> Seq<char> {
    "Delete "@ + decimal_of(count) + " original file(s)? Press 'y' to delete all, 'n' to keep all."@
}

pub fn delete_originals_question(count: usize) -> (text: String)
    ensures
        text@ == delete_originals_question_text(count as nat),
{
    let mut text = String::from_str("Delete ");
    text.append(decimal(count).as_str());
    text.append(" original file(s)? Press 'y' to delete all, 'n' to keep all.");
    text
}

/// The text `Library refreshed: <count> tracks`.
pub open spec fn library_refreshed_text(count: nat) -> Seq<char> {
    "Library refreshed: "@ + decimal_of(count) + " tracks"@
}

pub fn library_refreshed(count: usize) -> (text: String)
    ensures
        text@ == library_refreshed_text(count as nat),
{
    let mut text = String::from_str("Library refreshed: ");
    text.append(decimal(count).as_str());
    text.append(" tracks");
    text
}

/// The text `Enter Spotify album link<mode>:`.
pub open spec fn enter_album_link_text(mode: Seq<char>) -> Seq<char> {
    "Enter Spotify album link"@ + mode + ":"@
}

pub fn enter_album_link(mode: &str) -> (text: String)
    ensures
        text@ == enter_album_link_text(mode@),
{
    let mut text = String::from_str("Enter Spotify album link");
    text.append(mode);
    text.append(":");
    text
}

/// The text `Enter Spotify playlist link<mode>:`.
pub open spec fn enter_playlist_link_text(mode: Seq<char>) -> Seq<char> {
    "Enter Spotify playlist link"@ + mode + ":"@
}

pub fn enter_playlist_link(mode: &str) -> (text: String)
    ensures
        text@ == enter_playlist_link_text(mode@),
{
    let mut text = String::from_str("Enter Spotify playlist link");
    text.append(mode);
    text.append(":");
    text
}

/// The text `Enter YouTube playlist link<mode>:`.
pub open spec fn enter_youtube_link_text(mode: Seq<char>) -> Seq<char> {
    "Enter YouTube playlist link"@ + mode + ":"@
}

pub fn enter_youtube_link(mode: &str) -> (text: String)
    ensures
        text@ == enter_youtube_link_text(mode@),
{
    let mut text = String::from_str("Enter YouTube playlist link");
    text.append(mode);
    text.append(":");
    text
}

/// The text `Added to queue (<format>, <quality>)`.
pub open spec fn added_to_queue_text(format: Seq<char>, quality: Seq<char>) -> Seq<char> {
    "Added to queue ("@ + format + ", "@ + quality + ")"@
}

pub fn added_to_queue(format: &str, quality: &str) -> (text: String)
    ensures
        text@ == added_to_queue_text(format@, quality@),
{
    let mut text = String::from_str("Added to queue (");
    text.append(format);
    text.append(", ");
    text.append(quality);
    text.append(")");
    text
}

/// The text `Convert: <artist> - <title>. Select format and press Enter.`.
pub open spec fn convert_one_prompt_text(artist: Seq<char>, title: Seq<char>) -> Seq<char> {
    "Convert: "@ + artist + " - "@ + title + ". Select format and press Enter."@
}

pub fn convert_one_prompt(artist: &str, title: &str) -> (text: String)
    ensures
        text@ == convert_one_prompt_text(artist@, title@),
{
    let mut text = String::from_str("Convert: ");
    text.append(artist);
    text.append(" - ");
    text.append(title);
    text.append(". Select format and press Enter.");
    text
}

/// The text `Convert ALL <count> tracks. Select format and press Enter.`.
pub open spec fn convert_all_prompt_text(count: nat) -> Seq<char> {
    "Convert ALL "@ + decimal_of(count) + " tracks. Select format and press Enter."@
}

pub fn convert_all_prompt(count: usize) -> (text: String)
    ensures
        text@ == convert_all_prompt_text(count as nat),
{
    let mut text = String::from_str("Convert ALL ");
    text.append(decimal(count).as_str());
    text.append(" tracks. Select format and press Enter.");
    text
}

/// The text `Converting <count> tracks to <format> (quality: <quality>)...`.
pub open spec fn converting_many_text(
    count: nat,
    format: Seq<char>,
    quality: Seq<char>,
) -> Seq<char> {
    "Converting "@ + decimal_of(count) + " tracks to "@ + format + " (quality: "@ + quality
        + ")..."@
}

pub fn converting_many(count: usize, format: &str, quality: &str) -> (text: String)
    ensures
        text@ == converting_many_text(count as nat, format@, quality@),
{
    let mut text = String::from_str("Converting ");
    text.append(decimal(count).as_str());
    text.append(" tracks to ");
    text.append(format);
    text.append(" (quality: ");
    text.append(quality);
    text.append(")...");
    text
}

/// The text `Converting to <format> (quality: <quality>)...`.
pub open spec fn converting_one_text(format: Seq<char>, quality: Seq<char>) -> Seq<char> {
    "Converting to "@ + format + " (quality: "@ + quality + ")..."@
}

pub fn converting_one(format: &str, quality: &str) -> (text: String)
    ensures
        text@ == converting_one_text(format@, quality@),
{
    let mut text = String::from_str("Converting to ");
    text.append(format);
    text.append(" (quality: ");
    text.append(quality);
    text.append(")...");
    text
}

/// The text `Failed to delete original: <reason>`.
pub open spec fn delete_failed_text(reason: Seq<char>) -> Seq<char> {
    "Failed to delete original: "@ + reason
}

pub fn delete_failed(reason: &str) -> (text: String)
    ensures
        text@ == delete_failed_text(reason@),
{
    let mut text = String::from_str("Failed to delete original: ");
    text.append(reason);
    text
}

/// The text `Deleted <deleted> files, <failed> failed to delete`.
pub open spec fn deleted_some_text(deleted: nat, failed: nat) -> Seq<char> {
    "Deleted "@ + decimal_of(deleted) + " files, "@ + decimal_of(failed) + " failed to delete"@
}

pub fn deleted_some(deleted: usize, failed: usize) -> (text: String)
    ensures
        text@ == deleted_some_text(deleted as nat, failed as nat),
{
    let mut text = String::from_str("Deleted ");
    text.append(decimal(deleted).as_str());
    text.append(" files, ");
    text.append(decimal(failed).as_str());
    text.append(" failed to delete");
    text
}

/// The text `Deleted <deleted> original files`.
pub open spec fn deleted_all_text(deleted: nat) -> Seq<char> {
    "Deleted "@ + decimal_of(deleted) + " original files"@
}

pub fn deleted_all(deleted: usize) -> (text: String)
    ensures
        text@ == deleted_all_text(deleted as nat),
{
    let mut text = String::from_str("Deleted ");
    text.append(decimal(deleted).as_str());
    text.append(" original files");
    text
}

/// The text `Kept <count> original files`.
pub open spec fn kept_originals_text(count: nat) -> Seq<char> {
    "Kept "@ + decimal_of(count) + " original files"@
}

pub fn kept_originals(count: usize) -> (text: String)
    ensures
        text@ == kept_originals_text(count as nat),
{
    let mut text = String::from_str("Kept ");
    text.append(decimal(count).as_str());
    text.append(" original files");
    text
}

/// The text `Refreshing metadata for: <artist> - <title>`.
pub open spec fn refreshing_one_text(artist: Seq<char>, title: Seq<char>) -> Seq<char> {
    "Refreshing metadata for: "@ + artist + " - "@ + title
}

pub fn refreshing_one(artist: &str, title: &str) -> (text: String)
    ensures
        text@ == refreshing_one_text(artist@, title@),
{
    let mut text = String::from_str("Refreshing metadata for: ");
    text.append(artist);
    text.append(" - ");
    text.append(title);
    text
}

/// The text `Refreshing metadata for <count> tracks...`.
pub open spec fn refreshing_many_text(count: nat) -> Seq<char> {
    "Refreshing metadata for "@ + decimal_of(count) + " tracks..."@
}

pub fn refreshing_many(count: usize) -> (text: String)
    ensures
        text@ == refreshing_many_text(count as nat),
{
    let mut text = String::from_str("Refreshing metadata for ");
    text.append(decimal(count).as_str());
    text.append(" tracks...");
    text
}

/// The text `Found <count> entries with missing files. Press 'y' to clean up, 'n' to cancel.`.
pub open spec fn missing_found_text(count: nat) -> Seq<char> {
    "Found "@ + decimal_of(count)
        + " entries with missing files. Press 'y' to clean up, 'n' to cancel."@
}

pub fn missing_found(count: usize) -> (text: String)
    ensures
        text@ == missing_found_text(count as nat),
{
    let mut text = String::from_str("Found ");
    text.append(decimal(count).as_str());
    text.append(" entries with missing files. Press 'y' to clean up, 'n' to cancel.");
    text
}

/// The text `Cleanup complete: removed <removed> of <total> entries. <remaining> remaining.`.
pub open spec fn cleanup_done_text(removed: nat, total: nat, remaining: nat) -> Seq<char> {
    "Cleanup complete: removed "@ + decimal_of(removed) + " of "@ + decimal_of(total)
        + " entries. "@ + decimal_of(remaining) + " remaining."@
}

pub fn cleanup_done(removed: usize, total: usize, remaining: usize) -> (text: String)
    ensures
        text@ == cleanup_done_text(removed as nat, total as nat, remaining as nat),
{
    let mut text = String::from_str("Cleanup complete: removed ");
    text.append(decimal(removed).as_str());
    text.append(" of ");
    text.append(decimal(total).as_str());
    text.append(" entries. ");
    text.append(decimal(remaining).as_str());
    text.append(" remaining.");
    text
}

/// The text `Database cleanup: removed <removed> entries (<remaining> remaining)`.
pub open spec fn cleanup_log_text(removed: nat, remaining: nat) -> Seq<char> {
    "Database cleanup: removed "@ + decimal_of(removed) + " entries ("@ + decimal_of(remaining)
        + " remaining)"@
}

pub fn cleanup_log(removed: usize, remaining: usize) -> (text: String)
    ensures
        text@ == cleanup_log_text(removed as nat, remaining as nat),
{
    let mut text = String::from_str("Database cleanup: removed ");
    text.append(decimal(removed).as_str());
    text.append(" entries (");
    text.append(decimal(remaining).as_str());
    text.append(" remaining)");
    text
}

/// The text `Error Log: <download> download, <convert> convert, <refresh> refresh errors`.
pub open spec fn error_summary_text(download: nat, convert: nat, refresh: nat) -> Seq<char> {
    "Error Log: "@ + decimal_of(download) + " download, "@ + decimal_of(convert) + " convert, "@
        + decimal_of(refresh) + " refresh errors"@
}

pub fn error_summary(download: usize, convert: usize, refresh: usize) -> (text: String)
    ensures
        text@ == error_summary_text(download as nat, convert as nat, refresh as nat),
{
    let mut text = String::from_str("Error Log: ");
    text.append(decimal(download).as_str());
    text.append(" download, ");
    text.append(decimal(convert).as_str());
    text.append(" convert, ");
    text.append(decimal(refresh).as_str());
    text.append(" refresh errors");
    text
}

/// The text `Cleared all errors from <date>.`.
pub open spec fn cleared_date_text(date: Seq<char>) -> Seq<char> {
    "Cleared all errors from "@ + date + "."@
}

pub fn cleared_date(date: &str) -> (text: String)
    ensures
        text@ == cleared_date_text(date@),
{
    let mut text = String::from_str("Cleared all errors from ");
    text.append(date);
    text.append(".");
    text
}

/// The text `Unknown link type: <link_type>`.
pub open spec fn unknown_link_type_text(link_type: Seq<char>) -> Seq<char> {
    "Unknown link type: "@ + link_type
}

pub fn unknown_link_type(link_type: &str) -> (text: String)
    ensures
        text@ == unknown_link_type_text(link_type@),
{
    let mut text = String::from_str("Unknown link type: ");
    text.append(link_type);
    text
}

/// The text `<artist> - <title> (retry)`.
pub open spec fn retry_label_text(artist: Seq<char>, title: Seq<char>) -> Seq<char> {
    artist + " - "@ + title + " (retry)"@
}

pub fn retry_label(artist: &str, title: &str) -> (text: String)
    ensures
        text@ == retry_label_text(artist@, title@),
{
    let mut text = String::from_str(artist);
    text.append(" - ");
    text.append(title);
    text.append(" (retry)");
    text
}

/// The text `Retry: <link>`.
pub open spec fn retry_link_label_text(link: Seq<char>) -> Seq<char> {
    "Retry: "@ + link
}

pub fn retry_link_label(link: &str) -> (text: String)
    ensures
        text@ == retry_link_label_text(link@),
{
    let mut text = String::from_str("Retry: ");
    text.append(link);
    text
}

/// The text `Retrying: <name>`.
pub open spec fn retrying_text(name: Seq<char>) -> Seq<char> {
    "Retrying: "@ + name
}

pub fn retrying(name: &str) -> (text: String)
    ensures
        text@ == retrying_text(name@),
{
    let mut text = String::from_str("Retrying: ");
    text.append(name);
    text
}

/// The text `Source file no longer exists: <path>`.
pub open spec fn source_gone_text(path: Seq<char>) -> Seq<char> {
    "Source file no longer exists: "@ + path
}

pub fn source_gone(path: &str) -> (text: String)
    ensures
        text@ == source_gone_text(path@),
{
    let mut text = String::from_str("Source file no longer exists: ");
    text.append(path);
    text
}

/// The text `Retrying conversion: <name>`.
pub open spec fn retrying_conversion_text(name: Seq<char>) -> Seq<char> {
    "Retrying conversion: "@ + name
}

pub fn retrying_conversion(name: &str) -> (text: String)
    ensures
        text@ == retrying_conversion_text(name@),
{
    let mut text = String::from_str("Retrying conversion: ");
    text.append(name);
    text
}

/// The text `Retrying metadata refresh: <name>`.
pub open spec fn retrying_refresh_text(name: Seq<char>) -> Seq<char> {
    "Retrying metadata refresh: "@ + name
}

pub fn retrying_refresh(name: &str) -> (text: String)
    ensures
        text@ == retrying_refresh_text(name@),
{
    let mut text = String::from_str("Retrying metadata refresh: ");
    text.append(name);
    text
}

/// The text `Created: <name>.m3u (<count> tracks)`.
pub open spec fn m3u_created_text(name: Seq<char>, count: nat) -> Seq<char> {
    "Created: "@ + name + ".m3u ("@ + decimal_of(count) + " tracks)"@
}

pub fn m3u_created(name: &str, count: usize) -> (text: String)
    ensures
        text@ == m3u_created_text(name@, count as nat),
{
    let mut text = String::from_str("Created: ");
    text.append(name);
    text.append(".m3u (");
    text.append(decimal(count).as_str());
    text.append(" tracks)");
    text
}

/// The text `Failed: <reason>`.
pub open spec fn m3u_failed_text(reason: Seq<char>) -> Seq<char> {
    "Failed: "@ + reason
}

pub fn m3u_failed(reason: &str) -> (text: String)
    ensures
        text@ == m3u_failed_text(reason@),
{
    let mut text = String::from_str("Failed: ");
    text.append(reason);
    text
}

/// The text `Spotify error: <reason>`.
pub open spec fn catalog_error_text(reason: Seq<char>) -> Seq<char> {
    "Spotify error: "@ + reason
}

pub fn catalog_error(reason: &str) -> (text: String)
    ensures
        text@ == catalog_error_text(reason@),
{
    let mut text = String::from_str("Spotify error: ");
    text.append(reason);
    text
}

/// The text `No tracks found in library (0/<total> total)`.
pub open spec fn none_in_library_text(total: nat) -> Seq<char> {
    "No tracks found in library (0/"@ + decimal_of(total) + " total)"@
}

pub fn none_in_library(total: usize) -> (text: String)
    ensures
        text@ == none_in_library_text(total as nat),
{
    let mut text = String::from_str("No tracks found in library (0/");
    text.append(decimal(total).as_str());
    text.append(" total)");
    text
}

} // verus!
