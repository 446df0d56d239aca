//! The texts that the worker writes into events and into the journal.

use crate::text::{decimal, decimal_of};
use vstd::prelude::*;
use vstd::string::StringExecFns;

verus! {

/// The name under which an album is shown.
pub open spec fn display_name_text(artist: Seq<char>, album: Seq<char>) -> Seq<char> {
    artist + " - "@ + album
}

pub fn display_name(artist: &str, album: &str) -> (text: String)
    ensures
        text@ == display_name_text(artist@, album@),
{
    let mut text = String::from_str(artist);
    text.append(" - ");
    text.append(album);
    text
}

/// The words by which a track is looked for.
pub open spec fn search_text_text(artist: Seq<char>, title: Seq<char>) -> Seq<char> {
    artist + " "@ + title
}

pub fn search_text(artist: &str, title: &str) -> (text: String)
    ensures
        text@ == search_text_text(artist@, title@),
{
    let mut text = String::from_str(artist);
    text.append(" ");
    text.append(title);
    text
}

/// The hint that goes with a failure that looks like a missing item.
pub open spec fn hint_text(item: Seq<char>) -> Seq<char> {
    " (Hint: Is the "@ + item + " private? Only public "@ + item + "s can be downloaded)"@
}

pub fn hint(item: &str) -> (text: String)
    ensures
        text@ == hint_text(item@),
{
    let mut text = String::from_str(" (Hint: Is the ");
    text.append(item);
    text.append(" private? Only public ");
    text.append(item);
    text.append("s can be downloaded)");
    text
}

/// The line that reports what an album holds.
pub open spec fn found_album_text(
    artist: Seq<char>,
    album: Seq<char>,
    total: nat,
    format: Seq<char>,
    quality: Seq<char>,
) -> Seq<char> {
    "Found: "@ + artist + " - "@ + album + " ("@ + decimal_of(total) + " tracks, format: "@
        + format + ", quality: "@ + quality + ")"@
}

pub fn found_album(
    artist: &str,
    album: &str,
    total: usize,
    format: &str,
    quality: &str,
) -> (text: String)
    ensures
        text@ == found_album_text(artist@, album@, total as nat, format@, quality@),
{
    let mut text = String::from_str("Found: ");
    text.append(artist);
    text.append(" - ");
    text.append(album);
    text.append(" (");
    text.append(decimal(total).as_str());
    text.append(" tracks, format: ");
    text.append(format);
    text.append(", quality: ");
    text.append(quality);
    text.append(")");
    text
}

/// The line that reports what a playlist holds.
pub open spec fn found_playlist_text(
    name: Seq<char>,
    total: nat,
    format: Seq<char>,
    quality: Seq<char>,
) -> Seq<char> {
    "Found: "@ + name + " ("@ + decimal_of(total) + " tracks, format: "@ + format + ", quality: "@
        + quality + ")"@
}

pub fn found_playlist(name: &str, total: usize, format: &str, quality: &str) -> (text: String)
    ensures
        text@ == found_playlist_text(name@, total as nat, format@, quality@),
{
    let mut text = String::from_str("Found: ");
    text.append(name);
    text.append(" (");
    text.append(decimal(total).as_str());
    text.append(" tracks, format: ");
    text.append(format);
    text.append(", quality: ");
    text.append(quality);
    text.append(")");
    text
}

/// What the journal keeps of an album that could not be looked up.
pub open spec fn album_failure_text(reason: Seq<char>) -> Seq<char> {
    "Failed to fetch album: "@ + reason
}

pub fn album_failure(reason: &str) -> (text: String)
    ensures
        text@ == album_failure_text(reason@),
{
    let mut text = String::from_str("Failed to fetch album: ");
    text.append(reason);
    text
}

/// What a user reads of an album that could not be looked up.
pub open spec fn album_failure_shown_text(link: Seq<char>, reason: Seq<char>) -> Seq<char> {
    "Failed to fetch album ("@ + link + "): "@ + reason
}

pub fn album_failure_shown(link: &str, reason: &str) -> (text: String)
    ensures
        text@ == album_failure_shown_text(link@, reason@),
{
    let mut text = String::from_str("Failed to fetch album (");
    text.append(link);
    text.append("): ");
    text.append(reason);
    text
}

/// What the journal keeps of a playlist that could not be looked up.
pub open spec fn playlist_failure_text(reason: Seq<char>) -> Seq<char> {
    "Failed to fetch playlist: "@ + reason
}

pub fn playlist_failure(reason: &str) -> (text: String)
    ensures
        text@ == playlist_failure_text(reason@),
{
    let mut text = String::from_str("Failed to fetch playlist: ");
    text.append(reason);
    text
}

/// What a user reads of a playlist that could not be looked up.
pub open spec fn playlist_failure_shown_text(link: Seq<char>, reason: Seq<char>) -> Seq<char> {
    "Failed to fetch playlist ("@ + link + "): "@ + reason
}

pub fn playlist_failure_shown(link: &str, reason: &str) -> (text: String)
    ensures
        text@ == playlist_failure_shown_text(link@, reason@),
{
    let mut text = String::from_str("Failed to fetch playlist (");
    text.append(link);
    text.append("): ");
    text.append(reason);
    text
}

/// The line that announces the listing of a playlist.
pub open spec fn fetching_tracks_text(name: Seq<char>) -> Seq<char> {
    "Fetching tracks for '"@ + name + "'..."@
}

pub fn fetching_tracks(name: &str) -> (text: String)
    ensures
        text@ == fetching_tracks_text(name@),
{
    let mut text = String::from_str("Fetching tracks for '");
    text.append(name);
    text.append("'...");
    text
}

/// What the journal keeps of a playlist whose tracks could not be listed.
pub open spec fn items_failure_text(reason: Seq<char>) -> Seq<char> {
    "Failed to fetch playlist tracks: "@ + reason
}

pub fn items_failure(reason: &str) -> (text: String)
    ensures
        text@ == items_failure_text(reason@),
{
    let mut text = String::from_str("Failed to fetch playlist tracks: ");
    text.append(reason);
    text
}

/// What a user reads of a playlist whose tracks could not be listed.
pub open spec fn items_failure_shown_text(name: Seq<char>, reason: Seq<char>) -> Seq<char> {
    "Failed to fetch playlist tracks for '"@ + name + "': "@ + reason
}

pub fn items_failure_shown(name: &str, reason: &str) -> (text: String)
    ensures
        text@ == items_failure_shown_text(name@, reason@),
{
    let mut text = String::from_str("Failed to fetch playlist tracks for '");
    text.append(name);
    text.append("': ");
    text.append(reason);
    text
}

/// The line that announces the lookup of a playlist of the video site.
pub open spec fn fetching_youtube_text(link: Seq<char>) -> Seq<char> {
    "Fetching YouTube playlist: "@ + link
}

pub fn fetching_youtube(link: &str) -> (text: String)
    ensures
        text@ == fetching_youtube_text(link@),
{
    let mut text = String::from_str("Fetching YouTube playlist: ");
    text.append(link);
    text
}

/// What is kept and shown of a playlist of the video site that could not be looked up.
pub open spec fn youtube_failure_text(reason: Seq<char>) -> Seq<char> {
    "Failed to fetch YouTube playlist: "@ + reason
}

pub fn youtube_failure(reason: &str) -> (text: String)
    ensures
        text@ == youtube_failure_text(reason@),
{
    let mut text = String::from_str("Failed to fetch YouTube playlist: ");
    text.append(reason);
    text
}

/// What a user reads when the task that did the work broke.
pub open spec fn task_failure_text(reason: Seq<char>) -> Seq<char> {
    "Task error: "@ + reason
}

pub fn task_failure(reason: &str) -> (text: String)
    ensures
        text@ == task_failure_text(reason@),
{
    let mut text = String::from_str("Task error: ");
    text.append(reason);
    text
}

/// The line that announces the download of one track of several.
pub open spec fn downloading_text(
    number: nat,
    total: nat,
    artist: Seq<char>,
    title: Seq<char>,
) -> Seq<char> {
    "["@ + decimal_of(number) + "/"@ + decimal_of(total) + "] Downloading: "@ + artist + " - "@
        + title
}

pub fn downloading(number: usize, total: usize, artist: &str, title: &str) -> (text: String)
    ensures
        text@ == downloading_text(number as nat, total as nat, artist@, title@),
{
    let mut text = String::from_str("[");
    text.append(decimal(number).as_str());
    text.append("/");
    text.append(decimal(total).as_str());
    text.append("] Downloading: ");
    text.append(artist);
    text.append(" - ");
    text.append(title);
    text
}

/// What is kept and shown of a track that could not be tagged.
pub open spec fn tagging_failure_text(reason: Seq<char>) -> Seq<char> {
    "Tagging failed: "@ + reason
}

pub fn tagging_failure(reason: &str) -> (text: String)
    ensures
        text@ == tagging_failure_text(reason@),
{
    let mut text = String::from_str("Tagging failed: ");
    text.append(reason);
    text
}

/// The line that reports a cover that the server refused.
pub open spec fn cover_status_text(status: Seq<char>) -> Seq<char> {
    "Cover art download failed: HTTP "@ + status
}

pub fn cover_status(status: &str) -> (text: String)
    ensures
        text@ == cover_status_text(status@),
{
    let mut text = String::from_str("Cover art download failed: HTTP ");
    text.append(status);
    text
}

/// The line that reports a cover that could not be written.
pub open spec fn cover_unsaved_text(reason: Seq<char>) -> Seq<char> {
    "Failed to save cover art: "@ + reason
}

pub fn cover_unsaved(reason: &str) -> (text: String)
    ensures
        text@ == cover_unsaved_text(reason@),
{
    let mut text = String::from_str("Failed to save cover art: ");
    text.append(reason);
    text
}

/// The line that reports a cover that could not be read from the answer.
pub open spec fn cover_unread_text(reason: Seq<char>) -> Seq<char> {
    "Failed to read cover art response: "@ + reason
}

pub fn cover_unread(reason: &str) -> (text: String)
    ensures
        text@ == cover_unread_text(reason@),
{
    let mut text = String::from_str("Failed to read cover art response: ");
    text.append(reason);
    text
}

/// The line that reports a cover that could not be asked for.
pub open spec fn cover_unreached_text(reason: Seq<char>) -> Seq<char> {
    "Cover art download failed: "@ + reason
}

pub fn cover_unreached(reason: &str) -> (text: String)
    ensures
        text@ == cover_unreached_text(reason@),
{
    let mut text = String::from_str("Cover art download failed: ");
    text.append(reason);
    text
}

/// The line that announces a conversion.
pub open spec fn converting_text(path: Seq<char>, format: Seq<char>) -> Seq<char> {
    "Converting "@ + path + " to "@ + format
}

pub fn converting(path: &str, format: &str) -> (text: String)
    ensures
        text@ == converting_text(path@, format@),
{
    let mut text = String::from_str("Converting ");
    text.append(path);
    text.append(" to ");
    text.append(format);
    text
}

/// The line that reports a finished conversion.
pub open spec fn converted_text(path: Seq<char>) -> Seq<char> {
    "Conversion complete: "@ + path
}

pub fn converted(path: &str) -> (text: String)
    ensures
        text@ == converted_text(path@),
{
    let mut text = String::from_str("Conversion complete: ");
    text.append(path);
    text
}

/// The line that announces a refresh of metadata.
pub open spec fn refreshing_text(artist: Seq<char>, title: Seq<char>) -> Seq<char> {
    "Refreshing metadata for: "@ + artist + " - "@ + title
}

pub fn refreshing(artist: &str, title: &str) -> (text: String)
    ensures
        text@ == refreshing_text(artist@, title@),
{
    let mut text = String::from_str("Refreshing metadata for: ");
    text.append(artist);
    text.append(" - ");
    text.append(title);
    text
}

/// The line that warns that metadata could not be written.
pub open spec fn metadata_warning_text(reason: Seq<char>) -> Seq<char> {
    "Warning: Failed to apply metadata: "@ + reason
}

pub fn metadata_warning(reason: &str) -> (text: String)
    ensures
        text@ == metadata_warning_text(reason@),
{
    let mut text = String::from_str("Warning: Failed to apply metadata: ");
    text.append(reason);
    text
}

/// What is kept and shown when metadata could not be written.
pub open spec fn metadata_failure_text(reason: Seq<char>) -> Seq<char> {
    "Failed to apply metadata: "@ + reason
}

pub fn metadata_failure(reason: &str) -> (text: String)
    ensures
        text@ == metadata_failure_text(reason@),
{
    let mut text = String::from_str("Failed to apply metadata: ");
    text.append(reason);
    text
}

/// What is kept and shown when the catalog could not be searched.
pub open spec fn search_failure_text(reason: Seq<char>) -> Seq<char> {
    "Spotify search failed: "@ + reason
}

pub fn search_failure(reason: &str) -> (text: String)
    ensures
        text@ == search_failure_text(reason@),
{
    let mut text = String::from_str("Spotify search failed: ");
    text.append(reason);
    text
}

/// The line that reports a track that the catalog does not know.
pub open spec fn not_in_catalog_text(artist: Seq<char>, title: Seq<char>) -> Seq<char> {
    "Could not find "@ + artist + " - "@ + title + " on Spotify"@
}

pub fn not_in_catalog(artist: &str, title: &str) -> (text: String)
    ensures
        text@ == not_in_catalog_text(artist@, title@),
{
    let mut text = String::from_str("Could not find ");
    text.append(artist);
    text.append(" - ");
    text.append(title);
    text.append(" on Spotify");
    text
}

/// The line that reports a failed conversion.
pub open spec fn conversion_failure_text(reason: Seq<char>) -> Seq<char> {
    "Conversion failed: "@ + reason
}

pub fn conversion_failure(reason: &str) -> (text: String)
    ensures
        text@ == conversion_failure_text(reason@),
{
    let mut text = String::from_str("Conversion failed: ");
    text.append(reason);
    text
}

/// The line that reports a conversion whose task broke.
pub open spec fn conversion_task_failure_text(reason: Seq<char>) -> Seq<char> {
    "Conversion task failed: "@ + reason
}

pub fn conversion_task_failure(reason: &str) -> (text: String)
    ensures
        text@ == conversion_task_failure_text(reason@),
{
    let mut text = String::from_str("Conversion task failed: ");
    text.append(reason);
    text
}

/// The line that announces the conversion of several tracks.
pub open spec fn batch_conversion_start_text(total: nat, format: Seq<char>) -> Seq<char> {
    "Starting batch conversion of "@ + decimal_of(total) + " tracks to "@ + format
}

pub fn batch_conversion_start(total: usize, format: &str) -> (text: String)
    ensures
        text@ == batch_conversion_start_text(total as nat, format@),
{
    let mut text = String::from_str("Starting batch conversion of ");
    text.append(decimal(total).as_str());
    text.append(" tracks to ");
    text.append(format);
    text
}

/// The line that announces the conversion of one track of several.
pub open spec fn batch_converting_text(
    number: nat,
    total: nat,
    artist: Seq<char>,
    title: Seq<char>,
) -> Seq<char> {
    "["@ + decimal_of(number) + "/"@ + decimal_of(total) + "] Converting: "@ + artist + " - "@
        + title
}

pub fn batch_converting(number: usize, total: usize, artist: &str, title: &str) -> (text: String)
    ensures
        text@ == batch_converting_text(number as nat, total as nat, artist@, title@),
{
    let mut text = String::from_str("[");
    text.append(decimal(number).as_str());
    text.append("/");
    text.append(decimal(total).as_str());
    text.append("] Converting: ");
    text.append(artist);
    text.append(" - ");
    text.append(title);
    text
}

/// The line that reports a failed conversion of one track of several.
pub open spec fn batch_conversion_failure_text(
    artist: Seq<char>,
    title: Seq<char>,
    reason: Seq<char>,
) -> Seq<char> {
    "Failed to convert "@ + artist + " - "@ + title + ": "@ + reason
}

pub fn batch_conversion_failure(artist: &str, title: &str, reason: &str) -> (text: String)
    ensures
        text@ == batch_conversion_failure_text(artist@, title@, reason@),
{
    let mut text = String::from_str("Failed to convert ");
    text.append(artist);
    text.append(" - ");
    text.append(title);
    text.append(": ");
    text.append(reason);
    text
}

/// The line that reports a broken task for one track of several.
pub open spec fn batch_task_failure_text(
    artist: Seq<char>,
    title: Seq<char>,
    reason: Seq<char>,
) -> Seq<char> {
    "Task failed for "@ + artist + " - "@ + title + ": "@ + reason
}

pub fn batch_task_failure(artist: &str, title: &str, reason: &str) -> (text: String)
    ensures
        text@ == batch_task_failure_text(artist@, title@, reason@),
{
    let mut text = String::from_str("Task failed for ");
    text.append(artist);
    text.append(" - ");
    text.append(title);
    text.append(": ");
    text.append(reason);
    text
}

/// The line that sums up the conversion of several tracks.
pub open spec fn batch_conversion_done_text(successful: nat, total: nat) -> Seq<char> {
    "Batch conversion complete: "@ + decimal_of(successful) + "/"@ + decimal_of(total)
        + " successful"@
}

pub fn batch_conversion_done(successful: usize, total: usize) -> (text: String)
    ensures
        text@ == batch_conversion_done_text(successful as nat, total as nat),
{
    let mut text = String::from_str("Batch conversion complete: ");
    text.append(decimal(successful).as_str());
    text.append("/");
    text.append(decimal(total).as_str());
    text.append(" successful");
    text
}

/// The line that announces the refresh of several tracks.
pub open spec fn batch_refresh_start_text(total: nat) -> Seq<char> {
    "Starting batch metadata refresh for "@ + decimal_of(total) + " tracks"@
}

pub fn batch_refresh_start(total: usize) -> (text: String)
    ensures
        text@ == batch_refresh_start_text(total as nat),
{
    let mut text = String::from_str("Starting batch metadata refresh for ");
    text.append(decimal(total).as_str());
    text.append(" tracks");
    text
}

/// The line that announces the refresh of one track of several.
pub open spec fn batch_refreshing_text(
    number: nat,
    total: nat,
    artist: Seq<char>,
    title: Seq<char>,
) -> Seq<char> {
    "["@ + decimal_of(number) + "/"@ + decimal_of(total) + "] Refreshing: "@ + artist + " - "@
        + title
}

pub fn batch_refreshing(number: usize, total: usize, artist: &str, title: &str) -> (text: String)
    ensures
        text@ == batch_refreshing_text(number as nat, total as nat, artist@, title@),
{
    let mut text = String::from_str("[");
    text.append(decimal(number).as_str());
    text.append("/");
    text.append(decimal(total).as_str());
    text.append("] Refreshing: ");
    text.append(artist);
    text.append(" - ");
    text.append(title);
    text
}

/// The line that sums up the refresh of several tracks.
pub open spec fn batch_refresh_done_text(successful: nat, total: nat) -> Seq<char> {
    "Batch metadata refresh complete: "@ + decimal_of(successful) + "/"@ + decimal_of(total)
        + " successful"@
}

pub fn batch_refresh_done(successful: usize, total: usize) -> (text: String)
    ensures
        text@ == batch_refresh_done_text(successful as nat, total as nat),
{
    let mut text = String::from_str("Batch metadata refresh complete: ");
    text.append(decimal(successful).as_str());
    text.append("/");
    text.append(decimal(total).as_str());
    text.append(" successful");
    text
}

} // verus!
