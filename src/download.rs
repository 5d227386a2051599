//! Resumable downloads: what to do with a cached file of a given length, and
//! the range request that continues it.

use vstd::prelude::*;
use vstd::string::*;

verus! {

/// What remains to be fetched for a cached file.
#[derive(Debug, Clone, Copy, PartialEq, Eq, Structural)]
pub enum DownloadAction {
    /// The file is complete: only its digest has to be computed.
    Skip,
    /// Fetch bytes `start` to `end`, both included, and append them.
    Fetch { start: u64, end: u64 },
}

/// How to bring a cached file up to an asset's declared size.
#[derive(Debug, Clone, Copy, PartialEq, Eq, Structural)]
pub struct DownloadPlan {
    /// The cached file is longer than the asset and must be emptied first.
    pub truncate: bool,
    /// What to fetch after that.
    pub action: DownloadAction,
}

/// The plan for a cached file of `current_length` bytes and an asset of
/// `declared_size` bytes. A file longer than the asset is stale and is
/// emptied; a file of exactly the asset's size is complete; otherwise the
/// missing tail is fetched.
pub open spec fn download_plan(current_length: u64, declared_size: u64) -> DownloadPlan {
    let truncate = current_length > declared_size;
    let kept: u64 = if truncate { 0 } else { current_length };
    DownloadPlan {
        truncate,
        action: if kept == declared_size {
            DownloadAction::Skip
        } else {
            DownloadAction::Fetch { start: kept, end: (declared_size - 1) as u64 }
        },
    }
}

/// Decides how to continue the download of an asset of `declared_size`
/// bytes whose cached file holds `current_length` bytes.
pub fn plan_download(current_length: u64, declared_size: u64) -> (r: DownloadPlan)
    ensures
        r == download_plan(current_length, declared_size),
{
    let truncate = current_length > declared_size;
    let kept: u64 = if truncate {
        0
    } else {
        current_length
    };
    let action = if kept == declared_size {
        DownloadAction::Skip
    } else {
        DownloadAction::Fetch { start: kept, end: declared_size - 1 }
    };
    DownloadPlan { truncate, action }
}

/// A complete cached file is never fetched again and never emptied: only
/// its digest is computed.
pub proof fn lemma_complete_file_is_not_fetched(size: u64)
    ensures
        download_plan(size, size) == (DownloadPlan { truncate: false, action: DownloadAction::Skip }),
{
}

/// A partial file of `length < size` bytes is resumed with a range request
/// that starts at byte `length` and ends at the last byte of the asset, so
/// that the file then holds exactly `size` bytes.
pub proof fn lemma_partial_file_is_resumed(length: u64, size: u64)
    requires
        length < size,
    ensures
        !download_plan(length, size).truncate,
        download_plan(length, size).action matches DownloadAction::Fetch { start, end } && start
            == length && end == size - 1 && length + (end - start + 1) == size,
{
}

/// A cached file longer than the asset is emptied, and the download starts
/// over from its first byte (or is complete at once for an empty asset).
pub proof fn lemma_oversized_file_is_truncated(length: u64, size: u64)
    requires
        length > size,
    ensures
        download_plan(length, size).truncate,
        size > 0 ==> download_plan(length, size).action == (DownloadAction::Fetch {
            start: 0,
            end: (size - 1) as u64,
        }),
        size == 0 ==> download_plan(length, size).action == DownloadAction::Skip,
{
}

/// The decimal digits of a number, without leading zeros.
pub open spec fn decimal(n: nat) -> Seq<char>
    decreases n,
{
    if n < 10 {
        seq!["0123456789"@[n as int]]
    } else {
        decimal(n / 10) + seq!["0123456789"@[(n % 10) as int]]
    }
}

/// Relies on `u64`'s `Display` through `ToString::to_string`: its decimal
/// digits without leading zeros or sign.
#[verifier::external_body]
fn u64_to_decimal(n: u64) -> (r: String)
    ensures
        r@ == decimal(n as nat),
{
    n.to_string()
}

/// The value of an HTTP `Range` header for bytes `start` to `end`, both
/// included.
pub open spec fn range_header_text(start: u64, end: u64) -> Seq<char> {
    "bytes="@ + decimal(start as nat) + "-"@ + decimal(end as nat)
}

/// The `Range` header that asks for bytes `start` to `end`, both included.
pub fn range_header(start: u64, end: u64) -> (r: String)
    ensures
        r@ == range_header_text(start, end),
{
    let mut header = String::from_str("bytes=");
    header.append(u64_to_decimal(start).as_str());
    header.append("-");
    header.append(u64_to_decimal(end).as_str());
    header
}

/// Where the checksum of an asset is published: its URL with `.sha256`
/// appended.
pub fn checksum_url(download_url: &str) -> (r: String)
    ensures
        r@ == download_url@ + ".sha256"@,
{
    let mut url = String::from_str(download_url);
    url.append(".sha256");
    url
}

} // verus!
