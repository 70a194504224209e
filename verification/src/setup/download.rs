//! Downloading a file: when it is done, and what its failures say.
use crate::failure::{Failure, in_context};
use crate::fs_path::{FsPath, parent, with_extension};
use crate::setup::deps::{FileFacts, file_exists_nonempty, usable};
use crate::text::{joined, joined3};
use vstd::prelude::*;

verus! {

/// What is done to have a file.
#[derive(Debug)]
pub enum DownloadPlan {
    /// It is there.
    Present,
    /// The directory `dir` is made, where there is one to make. The file is
    /// written to `temp` and then renamed, so that it is never there in part.
    Fetch { dir: Option<FsPath>, temp: FsPath },
}

/// What is done to have the file `dest`, where `facts` is what the file system
/// says of it.
pub fn plan_download(dest: &FsPath, facts: Option<FileFacts>) -> (r: DownloadPlan)
    ensures
        if usable(facts) {
            r == DownloadPlan::Present
        } else {
            &&& r matches DownloadPlan::Fetch { dir, temp }
            &&& temp@ == with_extension(dest@, "tmp"@)
            &&& dir is Some <==> parent(dest@) is Some
            &&& dir matches Some(dir) ==> Some(dir@) == parent(dest@)
        },
        r is Present <==> facts is Some && facts->0.is_file && facts->0.len > 0,
{
    if file_exists_nonempty(facts) {
        return DownloadPlan::Present;
    }
    DownloadPlan::Fetch { dir: dest.parent(), temp: dest.with_extension("tmp") }
}

/// The steps of a download that can fail with a cause of their own.
#[derive(Debug, Clone, Copy, PartialEq, Eq, Structural)]
pub enum DownloadStep {
    MakeDir,
    Request,
    ReadBody,
    WriteTemp,
    Rename,
}

/// What a failure in `step` says.
pub open spec fn download_failure_text(
    step: DownloadStep,
    url: Seq<char>,
    cause: Seq<char>,
) -> Seq<char> {
    match step {
        DownloadStep::MakeDir => cause,
        DownloadStep::Request => in_context("GET "@ + url, cause),
        DownloadStep::ReadBody => in_context("reading response body"@, cause),
        DownloadStep::WriteTemp => cause,
        DownloadStep::Rename => in_context("moving downloaded file to destination"@, cause),
    }
}

/// The failure of a download whose `step` failed.
pub fn download_failed(step: DownloadStep, url: &str, cause: Failure) -> (r: Failure)
    ensures
        r@ == download_failure_text(step, url@, cause@),
        step is MakeDir || step is WriteTemp ==> r@ == cause@,
        step is Request ==> r@ == "GET "@ + url@ + ": "@ + cause@,
        step is ReadBody ==> r@ == "reading response body"@ + ": "@ + cause@,
        step is Rename ==> r@ == "moving downloaded file to destination"@ + ": "@ + cause@,
{
    match step {
        DownloadStep::MakeDir => cause,
        DownloadStep::Request => cause.context(joined("GET ", url).as_str()),
        DownloadStep::ReadBody => cause.context("reading response body"),
        DownloadStep::WriteTemp => cause,
        DownloadStep::Rename => cause.context("moving downloaded file to destination"),
    }
}

/// Whether the answer of a server brings the file; `status` is the status as it
/// is written.
pub fn check_response(success: bool, status: &str, url: &str) -> (r: Result<(), Failure>)
    ensures
        r is Ok <==> success,
        r matches Err(failure) ==> failure@ == "HTTP "@ + status@ + " for "@ + url@,
{
    if success {
        return Ok(());
    }
    let head: String = joined3("HTTP ", status, " for ");
    Err(Failure::new(joined(head.as_str(), url)))
}

} // verus!
