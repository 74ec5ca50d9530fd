//! The rows of the table that lists a user's graphs.
use vstd::prelude::*;
use vstd::string::*;

use crate::chain::{chain_column, listed_name};
use crate::text::{decimal_text, trim, trimmed};
use crate::types::Graph;

verus! {

/// The width that graph names are padded to.
pub const NAME_WIDTH: usize = 20;

/// `s` followed by spaces up to `width` characters; a longer `s` is kept whole.
pub open spec fn padded(s: Seq<char>, width: nat) -> Seq<char> {
    if s.len() < width {
        s + Seq::new((width - s.len()) as nat, |i: int| ' ')
    } else {
        s
    }
}

/// One row of the listing.
#[derive(Debug, Clone)]
pub struct GraphRow {
    pub id: String,
    pub name: String,
    pub description: String,
    pub chain: String,
    pub created: String,
}

/// Pads `s` with spaces on the right to `width` characters.
pub fn pad_right(s: &str, width: usize) -> (r: String)
    ensures
        r@ == padded(s@, width as nat),
{
    let mut out = s.to_string();
    let n = s.unicode_len();
    let mut k: usize = n;
    while k < width
        invariant
            n == s@.len(),
            k >= n,
            width <= n ==> k == n,
            n < width ==> k <= width,
            out@ == s@ + Seq::new((k - n) as nat, |i: int| ' '),
        decreases width - k,
    {
        out.append(" ");
        assert(s@ + Seq::new((k + 1 - n) as nat, |i: int| ' ') =~= s@ + Seq::new(
            (k - n) as nat,
            |i: int| ' ',
        ) + " "@) by {
            reveal_strlit(" ");
        }
        k += 1;
    }
    if n >= width {
        assert(out@ =~= s@);
    }
    out
}

/// Builds the listing row of a graph: its latest version id, its trimmed
/// name padded to the name width, its description or `--`, its chain, and
/// its creation time, shown as `created` when that could be formatted and
/// as sent otherwise.
pub fn graph_row(graph: Graph, created: Option<String>) -> (r: GraphRow)
    ensures
        r.id == graph.latest_version_id,
        r.name@ == padded(trimmed(graph.name@), NAME_WIDTH as nat),
        graph.description is Some ==> r.description == graph.description->0,
        graph.description is None ==> r.description@ == "--"@,
        r.chain@ == listed_name(graph.chain) + " ("@ + decimal_text(graph.chain as nat) + ")"@,
        created is Some ==> r.created == created->0,
        created is None ==> r.created == graph.created_at,
{
    let name = pad_right(trim(graph.name.as_str()), NAME_WIDTH);
    let description = match graph.description {
        Some(d) => d,
        None => String::from_str("--"),
    };
    let chain = chain_column(graph.chain);
    let created = match created {
        Some(c) => c,
        None => graph.created_at,
    };
    GraphRow { id: graph.latest_version_id, name, description, chain, created }
}

} // verus!
