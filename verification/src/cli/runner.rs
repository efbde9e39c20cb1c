//! What a run of the command line does, decided from its arguments. The
//! application performs the chosen searches and prints.
use vstd::prelude::*;

use crate::bootstrap::provider_catalog::ProviderId;
use crate::bootstrap::provider_registry::BuildSearchServiceError;
use crate::cli::args::{CliArgs, CliProvider};
use crate::cli::output::{
    render_fanout_lines, render_fanout_text, render_text, spec_render_text,
};
use crate::cli::request::{build_search_query, spec_search_query};
use crate::domain::{SearchBatchResponse, SearchError, SearchQuery, SearchResponse};
use crate::text::{cat, unlines};

verus! {

/// What a run does.
#[derive(Debug)]
pub enum RunPlan {
    /// Print what the program is.
    ShowAbout,
    /// Report that no query was given.
    MissingQuery,
    /// Search one provider.
    Single { provider: ProviderId, query: SearchQuery },
    /// Search every configured provider.
    All { query: SearchQuery },
}

/// What a run with these arguments does: `--about` first, then a query is
/// needed, then the provider choice decides.
pub open spec fn spec_plan(args: CliArgs) -> RunPlan {
    if args.about {
        RunPlan::ShowAbout
    } else {
        match args.query {
            None => RunPlan::MissingQuery,
            Some(text) => match args.provider {
                CliProvider::Single(id) => RunPlan::Single {
                    provider: id,
                    query: spec_search_query(text, args),
                },
                CliProvider::All => RunPlan::All { query: spec_search_query(text, args) },
            },
        }
    }
}

/// What a run with these arguments does.
pub fn plan_run(args: &CliArgs) -> (r: RunPlan)
    ensures
        r == spec_plan(*args),
{
    if args.about {
        return RunPlan::ShowAbout;
    }
    let text = match &args.query {
        Some(q) => q.clone(),
        None => {
            return RunPlan::MissingQuery;
        },
    };
    let query = build_search_query(text, args);
    match args.provider {
        CliProvider::Single(id) => RunPlan::Single { provider: id, query },
        CliProvider::All => RunPlan::All { query },
    }
}

/// The exit status of a fan-out run: failure when no provider answered.
pub fn fanout_exit_code(batch: &SearchBatchResponse) -> (r: i32)
    ensures
        r == (if batch.responses@.len() == 0 {
            1i32
        } else {
            0i32
        }),
{
    if batch.responses.len() == 0 {
        1
    } else {
        0
    }
}

// ---------------------------------------------------------------------
// What a run prints, and how it exits
// ---------------------------------------------------------------------

/// What a run prints on standard output and on standard error (each a line),
/// and the exit code it ends with.
#[derive(Debug)]
pub struct RunOutput {
    pub stdout: Option<String>,
    pub stderr: Option<String>,
    pub exit_code: i32,
}

/// The text of `--about`.
pub open spec fn about_text() -> Seq<char> {
    unlines(
        seq![
            "sophon-cli \u{2014} a provider-agnostic search CLI"@,
            Seq::empty(),
            "Named after the Sophon from Cixin Liu's Three-Body Problem trilogy:"@,
            "a sentient proton supercomputer that performs near-infinite computation"@,
            "across vast distances. This tiny CLI delegates its heavy lifting to"@,
            "distant search APIs the same way."@,
            Seq::empty(),
            "Currently supports Brave Search (web, news, images, video) and Exa."@,
        ],
    )
}

/// The error printed when no query is given.
pub open spec fn missing_query_text() -> Seq<char> {
    "Error: missing query. Use --help for usage or --about for more info."@
}

/// `--about`: the description of the program, and success.
pub fn about_output() -> (r: RunOutput)
    ensures
        r.stdout matches Some(t) && t@ == about_text(),
        r.stderr is None,
        r.exit_code == 0,
{
    let mut lines: Vec<String> = Vec::new();
    lines.push(String::from_str("sophon-cli \u{2014} a provider-agnostic search CLI"));
    lines.push(String::new());
    lines.push(
        String::from_str("Named after the Sophon from Cixin Liu's Three-Body Problem trilogy:"),
    );
    lines.push(
        String::from_str("a sentient proton supercomputer that performs near-infinite computation"),
    );
    lines.push(
        String::from_str("across vast distances. This tiny CLI delegates its heavy lifting to"),
    );
    lines.push(String::from_str("distant search APIs the same way."));
    lines.push(String::new());
    lines.push(
        String::from_str("Currently supports Brave Search (web, news, images, video) and Exa."),
    );
    let text = crate::text::join(&lines, "\n");
    assert(crate::text::views(lines@) =~= seq![
        "sophon-cli \u{2014} a provider-agnostic search CLI"@,
        Seq::<char>::empty(),
        "Named after the Sophon from Cixin Liu's Three-Body Problem trilogy:"@,
        "a sentient proton supercomputer that performs near-infinite computation"@,
        "across vast distances. This tiny CLI delegates its heavy lifting to"@,
        "distant search APIs the same way."@,
        Seq::<char>::empty(),
        "Currently supports Brave Search (web, news, images, video) and Exa."@,
    ]);
    RunOutput { stdout: Some(text), stderr: None, exit_code: 0 }
}

/// No query: the error, and failure.
pub fn missing_query_output() -> (r: RunOutput)
    ensures
        r.stdout is None,
        r.stderr matches Some(t) && t@ == missing_query_text(),
        r.exit_code == 1,
{
    RunOutput {
        stdout: None,
        stderr: Some(
            String::from_str("Error: missing query. Use --help for usage or --about for more info."),
        ),
        exit_code: 1,
    }
}

/// No search service could be built: the error, and failure.
pub fn build_failure_output(error: &BuildSearchServiceError) -> (r: RunOutput)
    ensures
        r.stdout is None,
        r.stderr matches Some(t) && t@ == error.message(),
        r.exit_code == 1,
{
    RunOutput { stdout: None, stderr: Some(error.to_string()), exit_code: 1 }
}

/// One provider answered: its results and success, or its error and failure.
pub fn single_search_output(outcome: &Result<SearchResponse, SearchError>) -> (r: RunOutput)
    ensures
        outcome matches Ok(response) ==> {
            &&& r.stdout matches Some(t) && t@ == spec_render_text(response@)
            &&& r.stderr is None
            &&& r.exit_code == 0
        },
        outcome matches Err(e) ==> {
            &&& r.stdout is None
            &&& r.stderr matches Some(t) && t@ == "Search failed: "@ + e.message()
            &&& r.exit_code == 1
        },
{
    match outcome {
        Ok(response) => RunOutput {
            stdout: Some(render_text(response)),
            stderr: None,
            exit_code: 0,
        },
        Err(error) => RunOutput {
            stdout: None,
            stderr: Some(cat("Search failed: ", error.to_string().as_str())),
            exit_code: 1,
        },
    }
}

/// Every configured provider was asked: the combined text, and failure when
/// no provider answered.
pub fn fanout_output(batch: &SearchBatchResponse) -> (r: RunOutput)
    ensures
        r.stdout matches Some(t) && t@ == unlines(render_fanout_lines(*batch)),
        r.stderr is None,
        r.exit_code == (if batch.responses@.len() == 0 {
            1i32
        } else {
            0i32
        }),
{
    RunOutput {
        stdout: Some(render_fanout_text(batch)),
        stderr: None,
        exit_code: fanout_exit_code(batch),
    }
}

} // verus!
