use vstd::prelude::*;
use vstd::string::*;
use crate::path::{dotted, MetadataPath};

verus! {

/// What a structured metadata query is rooted at.
#[derive(Clone, Copy, Debug, PartialEq, Eq, Structural)]
pub enum QueryTarget {
    /// The document's external metadata.
    External,
    /// A value held by an expression.
    Container,
    /// The result of a function call.
    FunctionCall,
    /// A local variable.
    Internal,
}

/// A structured reference into the metadata tree.
#[derive(Clone, Debug, PartialEq, Eq)]
pub struct MetadataQuery {
    pub path: MetadataPath,
    pub target: QueryTarget,
}

/// The key of a metadata write: a bare secret name, or a structured query.
#[derive(Clone, Debug, PartialEq, Eq)]
pub enum MetadataKey {
    Legacy(String),
    Query(MetadataQuery),
}

/// How a query is written: external metadata paths carry a `%` in front.
pub open spec fn query_text(target: QueryTarget, p: Seq<Seq<char>>) -> Seq<char> {
    if target == QueryTarget::External {
        seq!['%'] + dotted(p)
    } else {
        dotted(p)
    }
}

impl MetadataQuery {
    /// A query on the external metadata.
    pub fn external(path: MetadataPath) -> (r: MetadataQuery)
        ensures
            r.path == path,
            r.target == QueryTarget::External,
    {
        MetadataQuery { path, target: QueryTarget::External }
    }

    /// The text of this query.
    pub fn render(&self) -> (r: String)
        ensures
            r@ == query_text(self.target, self.path@),
    {
        let body = self.path.render();
        match self.target {
            QueryTarget::External => {
                proof {
                    reveal_strlit("%");
                }
                let mut out = String::new();
                out.append("%");
                out.append(body.as_str());
                out
            },
            _ => body,
        }
    }
}

} // verus!
