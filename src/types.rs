//! Graph configuration and the requests and responses of the graph service.
use vstd::prelude::*;
use vstd::string::*;

use crate::chain::Chain;
use crate::text::{decimal_text, trim_end, trimmed_end, u64_text};

verus! {

/// The configuration stored in a graph directory.
#[derive(Clone, Debug)]
pub struct GraphConfig {
    pub id: String,
    pub version_id: String,
    pub chain: Option<Chain>,
}

/// A request to create a graph.
#[derive(Debug)]
pub struct CreateRequest {
    pub name: String,
    pub chain: u64,
}

/// A source file of a graph.
#[derive(Debug)]
pub struct GraphFile {
    pub path: String,
    pub code: String,
}

/// A created graph: its ids and its initial sources.
#[derive(Debug)]
pub struct CreateResponse {
    pub id: String,
    pub version_id: String,
    pub sources: Vec<GraphFile>,
}

/// The confirmation of a deletion.
#[derive(Debug)]
pub struct DeleteResponse {}

/// A request to fork a graph, under an optional new name.
#[derive(Debug)]
pub struct ForkRequest {
    pub name: Option<String>,
}

/// A forked graph: its ids and its sources.
#[derive(Debug)]
pub struct ForkResponse {
    pub id: String,
    pub version_id: String,
    pub sources: Vec<GraphFile>,
}

/// A request to generate code from a schema and events.
#[derive(Debug)]
pub struct CodegenRequest {
    pub schema_code: String,
    pub events_code: String,
}

/// A request to compile an indexer.
#[derive(Debug)]
pub struct CompileRequest {
    pub indexer_code: String,
}

/// An error reported against a file, possibly at a line.
#[derive(Debug, Clone)]
pub struct FileError {
    pub file: String,
    pub line: Option<u32>,
    pub error: String,
}

/// The errors the service reports for a failed request.
#[derive(Debug, Clone)]
pub struct ErrorDetails {
    pub overall_error: String,
    pub errors: Option<Vec<String>>,
    pub by_file_and_line_errors: Option<Vec<FileError>>,
}

/// The sources of a graph version.
pub struct GhostVersion {
    pub sources: Vec<GraphFile>,
}

/// The outcome of code generation.
pub struct CodegenResponse {
    pub err: Option<ErrorDetails>,
    pub version: Option<GhostVersion>,
}

/// The outcome of compilation.
pub struct CompileResponse {
    pub err: Option<ErrorDetails>,
    pub version: Option<GhostVersion>,
}

/// The outcome of deployment.
pub struct DeployResponse {
    pub err: Option<ErrorDetails>,
    pub ok: Option<bool>,
}

/// A graph as listed by the service.
#[derive(Debug)]
pub struct Graph {
    pub latest_version_id: String,
    pub name: String,
    pub description: Option<String>,
    pub chain: u64,
    pub created_at: String,
}

/// The graphs of the current user.
pub struct ListResponse {
    pub err: Option<ErrorDetails>,
    pub graphs: Vec<Graph>,
}

/// One graph's details.
pub struct GraphDetailsResponse {
    pub graph: Graph,
}

/// `file`, then `:line` when a line is known, then the message on an
/// indented line of its own.
pub open spec fn file_error_text(f: FileError) -> Seq<char> {
    f.file@ + match f.line {
        Some(l) => ":"@ + decimal_text(l as nat),
        None => Seq::empty(),
    } + ":\n  "@ + f.error@
}

/// The general errors, one numbered line each, counting from one.
pub open spec fn numbered_lines(errors: Seq<Seq<char>>) -> Seq<char>
    decreases errors.len(),
{
    if errors.len() == 0 {
        Seq::empty()
    } else {
        numbered_lines(errors.drop_last()) + "  "@ + decimal_text(errors.len()) + ". "@
            + errors.last() + "\n"@
    }
}

/// The file errors, one entry each, each followed by a newline.
pub open spec fn file_error_lines(errors: Seq<FileError>) -> Seq<char>
    decreases errors.len(),
{
    if errors.len() == 0 {
        Seq::empty()
    } else {
        file_error_lines(errors.drop_last()) + file_error_text(errors.last()) + "\n"@
    }
}

/// The report of a failed request before trailing whitespace is removed:
/// the overall error, then the section of general errors and the section of
/// file errors, each when present.
pub open spec fn details_text(d: ErrorDetails) -> Seq<char> {
    d.overall_error@ + "\n"@ + match d.errors {
        Some(es) => "\nErrors:\n"@ + numbered_lines(es@.map_values(|s: String| s@)),
        None => Seq::empty(),
    } + match d.by_file_and_line_errors {
        Some(fs) => "\nFile Errors:\n"@ + file_error_lines(fs@),
        None => Seq::empty(),
    }
}

impl FileError {
    /// The error as `file[:line]:` followed by the indented message.
    pub fn pretty_print(&self) -> (r: String)
        ensures
            r@ == file_error_text(*self),
    {
        let mut out = self.file.clone();
        match self.line {
            Some(l) => {
                out.append(":");
                let digits = u64_text(l as u64);
                out.append(digits.as_str());
            },
            None => {
                assert(out@ + Seq::<char>::empty() =~= out@);
            },
        }
        out.append(":\n  ");
        out.append(self.error.as_str());
        out
    }
}

fn append_numbered(out: &mut String, errors: &Vec<String>)
    ensures
        final(out)@ == old(out)@ + numbered_lines(errors@.map_values(|s: String| s@)),
{
    let ghost start = out@;
    let ghost views = errors@.map_values(|s: String| s@);
    let mut i: usize = 0;
    assert(start + numbered_lines(views.take(0)) =~= start);
    while i < errors.len()
        invariant
            i <= errors.len(),
            views == errors@.map_values(|s: String| s@),
            out@ == start + numbered_lines(views.take(i as int)),
        decreases errors.len() - i,
    {
        assert(views.take(i + 1).drop_last() =~= views.take(i as int));
        out.append("  ");
        let number = u64_text((i + 1) as u64);
        out.append(number.as_str());
        out.append(". ");
        out.append(errors[i].as_str());
        out.append("\n");
        i += 1;
    }
    assert(views.take(errors.len() as int) =~= views);
}

fn append_file_errors(out: &mut String, errors: &Vec<FileError>)
    ensures
        final(out)@ == old(out)@ + file_error_lines(errors@),
{
    let ghost start = out@;
    let mut i: usize = 0;
    assert(start + file_error_lines(errors@.take(0)) =~= start);
    while i < errors.len()
        invariant
            i <= errors.len(),
            out@ == start + file_error_lines(errors@.take(i as int)),
        decreases errors.len() - i,
    {
        assert(errors@.take(i + 1).drop_last() =~= errors@.take(i as int));
        let text = errors[i].pretty_print();
        out.append(text.as_str());
        out.append("\n");
        i += 1;
    }
    assert(errors@.take(errors.len() as int) =~= errors@);
}

impl ErrorDetails {
    /// The full report, with the trailing newline still in place.
    pub fn details(&self) -> (r: String)
        ensures
            r@ == details_text(*self),
    {
        let mut out = self.overall_error.clone();
        out.append("\n");
        let ghost head = out@;
        match &self.errors {
            Some(errors) => {
                out.append("\nErrors:\n");
                append_numbered(&mut out, errors);
            },
            None => {
                assert(out@ + Seq::<char>::empty() =~= out@);
            },
        }
        let ghost mid = out@;
        match &self.by_file_and_line_errors {
            Some(file_errors) => {
                out.append("\nFile Errors:\n");
                append_file_errors(&mut out, file_errors);
            },
            None => {
                assert(out@ + Seq::<char>::empty() =~= out@);
            },
        }
        out
    }

    /// The report as shown to users: the full report without trailing
    /// whitespace.
    pub fn pretty_print(&self) -> (r: String)
        ensures
            r@ == trimmed_end(details_text(*self)),
    {
        let full = self.details();
        let trimmed = trim_end(full.as_str());
        trimmed.to_string()
    }

    /// The report as shown to users.
    pub fn to_string(&self) -> (r: String)
        ensures
            r@ == trimmed_end(details_text(*self)),
    {
        self.pretty_print()
    }
}

} // verus!
