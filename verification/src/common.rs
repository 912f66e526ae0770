//! Pieces shared by the read endpoints: pagination and tag payloads.

use vstd::prelude::*;

verus! {

/// Query-string pagination: how many rows, from which offset.
pub struct Pagination {
    pub count: Option<usize>,
    pub offset: Option<usize>,
}

/// Row count a query asks for, with the default applied.
pub open spec fn page_count_spec(p: Pagination) -> usize {
    match p.count {
        Some(c) => c,
        None => 100,
    }
}

/// Row offset a query asks for, with the default applied.
pub open spec fn page_offset_spec(p: Pagination) -> usize {
    match p.offset {
        Some(o) => o,
        None => 0,
    }
}

impl Pagination {
    /// The (count, offset) pair to query with: a missing count defaults to
    /// 100 rows, a missing offset to 0.
    pub fn limits(&self) -> (r: (usize, usize))
        ensures
            r.0 == page_count_spec(*self),
            r.1 == page_offset_spec(*self),
    {
        let count: usize = match self.count {
            Some(c) => c,
            None => 100,
        };
        let offset: usize = match self.offset {
            Some(o) => o,
            None => 0,
        };
        (count, offset)
    }
}

/// A tag with its display style, as endpoints return it.
pub struct TagResponse {
    pub tag: String,
    pub style: String,
}

impl Clone for TagResponse {
    fn clone(&self) -> (r: Self)
        ensures
            r == *self,
    {
        TagResponse { tag: self.tag.clone(), style: self.style.clone() }
    }
}

/// Tag pairs as endpoints return them, in order.
pub open spec fn tag_responses_spec(tags: Seq<(String, String)>) -> Seq<TagResponse> {
    tags.map_values(|t: (String, String)| TagResponse { tag: t.0, style: t.1 })
}

/// Turns raw (tag, style) pairs into response payloads, in order.
pub fn tag_responses(tags: &Vec<(String, String)>) -> (r: Vec<TagResponse>)
    ensures
        r@ == tag_responses_spec(tags@),
{
    let mut out: Vec<TagResponse> = Vec::new();
    let mut i: usize = 0;
    while i < tags.len()
        invariant
            i <= tags@.len(),
            out@ == tag_responses_spec(tags@.take(i as int)),
        decreases tags@.len() - i,
    {
        out.push(TagResponse { tag: tags[i].0.clone(), style: tags[i].1.clone() });
        i = i + 1;
        proof {
            assert(tags@.take(i as int).map_values(
                |t: (String, String)| TagResponse { tag: t.0, style: t.1 },
            ) =~= tags@.take(i - 1).map_values(
                |t: (String, String)| TagResponse { tag: t.0, style: t.1 },
            ).push(TagResponse { tag: tags@[i - 1].0, style: tags@[i - 1].1 }));
        }
    }
    proof {
        assert(tags@.take(tags@.len() as int) =~= tags@);
    }
    out
}

} // verus!
