//! Checking the raw answers of the graph service before they are used.
use vstd::prelude::*;
use vstd::string::*;

use crate::types::{CreateResponse, DeleteResponse, ForkResponse, GraphFile};

verus! {

/// The path, under the service's base URL, of the graph collection.
pub open spec fn graphs_url_text(base: Seq<char>) -> Seq<char> {
    base + "/gg/cli/graphs"@
}

/// The URL of the graph collection: graphs are created there.
pub fn graphs_url(base: &str) -> (r: String)
    ensures
        r@ == graphs_url_text(base@),
{
    let mut r = base.to_string();
    r.append("/gg/cli/graphs");
    r
}

/// The URL of one graph: it is fetched and deleted there.
pub fn graph_url(base: &str, id: &str) -> (r: String)
    ensures
        r@ == graphs_url_text(base@) + "/"@ + id@,
{
    let mut r = graphs_url(base);
    r.append("/");
    r.append(id);
    r
}

/// The URL of an action (`codegen`, `compile`, `deploy`, `fork`) on one
/// graph.
pub fn graph_action_url(base: &str, id: &str, action: &str) -> (r: String)
    ensures
        r@ == graphs_url_text(base@) + "/"@ + id@ + "/"@ + action@,
{
    let mut r = graph_url(base, id);
    r.append("/");
    r.append(action);
    r
}

/// The URL that lists the user's graphs.
pub fn list_url(base: &str) -> (r: String)
    ensures
        r@ == base@ + "/gg/cli/list"@,
{
    let mut r = base.to_string();
    r.append("/gg/cli/list");
    r
}

/// The web page where a graph version is edited.
pub fn editor_url(web_base: &str, id: &str, version_id: &str) -> (r: String)
    ensures
        r@ == web_base@ + "/graphs/"@ + id@ + "/versions/"@ + version_id@ + "/editor"@,
{
    let mut r = web_base.to_string();
    r.append("/graphs/");
    r.append(id);
    r.append("/versions/");
    r.append(version_id);
    r.append("/editor");
    r
}

/// The message for an answer that does not report success or lacks a field.
pub open spec fn unexpected_message() -> Seq<char> {
    "Unexpected API response"@
}

fn unexpected() -> (r: String)
    ensures
        r@ == unexpected_message(),
{
    String::from_str("Unexpected API response")
}

/// The service's answer to a deletion, as sent.
#[derive(Debug)]
pub struct DeleteResponseInternal {
    pub ok: bool,
}

/// The service's answer to a creation, as sent.
#[derive(Debug)]
pub struct CreateResponseInternal {
    pub ok: bool,
    pub id: Option<String>,
    pub version_id: Option<String>,
    pub sources: Option<Vec<GraphFile>>,
}

/// The service's answer to a fork, as sent.
#[derive(Debug)]
pub struct ForkResponseInternal {
    pub ok: bool,
    pub ghost_graph_id: Option<String>,
    pub ghost_graph_version_id: Option<String>,
    pub sources: Option<Vec<GraphFile>>,
}

impl DeleteResponseInternal {
    /// Accepts the answer when it reports success.
    pub fn try_into(self) -> (r: Result<DeleteResponse, String>)
        ensures
            r is Ok <==> self.ok,
            r is Err ==> r->Err_0@ == unexpected_message(),
    {
        if self.ok {
            Ok(DeleteResponse {})
        } else {
            Err(unexpected())
        }
    }
}

impl CreateResponseInternal {
    /// Accepts the answer when it reports success and carries the ids and
    /// the sources, which it hands on unchanged.
    pub fn try_into(self) -> (r: Result<CreateResponse, String>)
        ensures
            r is Ok <==> (self.ok && self.id is Some && self.version_id is Some
                && self.sources is Some),
            r is Ok ==> r->Ok_0.id == self.id->0 && r->Ok_0.version_id == self.version_id->0
                && r->Ok_0.sources == self.sources->0,
            r is Err ==> r->Err_0@ == unexpected_message(),
    {
        match self {
            CreateResponseInternal {
                ok: true,
                id: Some(id),
                version_id: Some(version_id),
                sources: Some(sources),
            } => Ok(CreateResponse { id, version_id, sources }),
            _ => Err(unexpected()),
        }
    }
}

impl ForkResponseInternal {
    /// Accepts the answer when it reports success and carries the ids of the
    /// new graph and its sources, which it hands on unchanged.
    pub fn try_into(self) -> (r: Result<ForkResponse, String>)
        ensures
            r is Ok <==> (self.ok && self.ghost_graph_id is Some
                && self.ghost_graph_version_id is Some && self.sources is Some),
            r is Ok ==> r->Ok_0.id == self.ghost_graph_id->0 && r->Ok_0.version_id
                == self.ghost_graph_version_id->0 && r->Ok_0.sources == self.sources->0,
            r is Err ==> r->Err_0@ == unexpected_message(),
    {
        match self {
            ForkResponseInternal {
                ok: true,
                ghost_graph_id: Some(id),
                ghost_graph_version_id: Some(version_id),
                sources: Some(sources),
            } => Ok(ForkResponse { id, version_id, sources }),
            _ => Err(unexpected()),
        }
    }
}

} // verus!
