use crate::ids::Uuid;
use crate::nutrient::Nutrient;
use vstd::prelude::*;
use vstd::utf8::encode_utf8;

verus! {

/// A search for recipes, as a client sends it.
#[derive(Clone, Debug, PartialEq, Eq)]
pub struct SearchRequest {
    /// Words to look for in the title; `None` does not filter by title.
    pub query: Option<String>,
    /// The only recipes that may be returned; `None` does not filter.
    pub whitelist: Option<Vec<Uuid>>,
    /// Results per page.
    pub page_limit: u8,
    /// The page, counting from 1.
    pub page_number: u32,
    /// Recipes with any of these nutrients are returned; `None` does not
    /// filter.
    pub nutrients: Option<Vec<Nutrient>>,
}

/// Results per page where the request leaves it out.
pub fn page_limit_default() -> (r: u8)
    ensures
        r == 10,
{
    10
}

/// The page where the request leaves it out.
pub fn page_number_default() -> (r: u32)
    ensures
        r == 1,
{
    1
}

/// The first limit a request breaks, as the message given back to the client.
pub open spec fn query_error(q: SearchRequest) -> Option<Seq<char>> {
    if q.query is Some && encode_utf8(q.query->0@).len() as usize > 100 {
        Some("Invalid `query`: Too long. Please limit to 100 characters."@)
    } else if q.page_limit == 0 || q.page_limit > 20 {
        Some("Invalid `pageLimit`: Not within bounds. Please limit to between 1 and 20."@)
    } else if q.page_number == 0 {
        Some("Invalid `pageNumber`: Must be greater than 0."@)
    } else {
        None
    }
}

/// Checks the request against the limits: a query of at most 100 bytes,
/// 1 to 20 results per page, and a page number from 1.
pub fn validate_query(search_request: &SearchRequest) -> (r: Result<(), String>)
    ensures
        r is Ok <==> query_error(*search_request) is None,
        r is Err ==> Some(r->Err_0@) == query_error(*search_request),
{
    if let Some(query) = &search_request.query {
        let bytes = query.as_str().len();
        if bytes > 100 {
            return Err("Invalid `query`: Too long. Please limit to 100 characters.".to_string());
        }
    }
    if search_request.page_limit == 0 || search_request.page_limit > 20 {
        return Err(
            "Invalid `pageLimit`: Not within bounds. Please limit to between 1 and 20.".to_string(),
        );
    }
    if search_request.page_number == 0 {
        return Err("Invalid `pageNumber`: Must be greater than 0.".to_string());
    }
    Ok(())
}

/// `s` with every space replaced by `.*`, so that the words of a query match
/// with anything between them.
pub open spec fn wildcard_of(s: Seq<char>) -> Seq<char>
    decreases s.len(),
{
    if s.len() == 0 {
        Seq::empty()
    } else if s.last() == ' ' {
        wildcard_of(s.drop_last()) + seq!['.', '*']
    } else {
        wildcard_of(s.drop_last()).push(s.last())
    }
}

/// Relies on str::replace: every space replaced by `.*`.
#[verifier::external_body]
fn spaces_to_wildcards(s: &str) -> (r: String)
    ensures
        r@ == wildcard_of(s@),
{
    s.replace(' ', ".*")
}

/// The title filter of a search: the title matches `pattern` (a regular
/// expression, ignoring case), or a full-text search for `text` finds the
/// recipe.
#[derive(Clone, Debug, PartialEq, Eq)]
pub struct TitleQuery {
    pub pattern: String,
    pub text: String,
}

/// The database query that answers a search. A recipe is returned where it
/// meets every filter that is set. Results are sorted by the date they
/// became public, newest first.
#[derive(Clone, Debug, PartialEq, Eq)]
pub struct SearchPlan {
    /// Results to pass over.
    pub skip: u64,
    /// Results to return at most.
    pub limit: u8,
    /// The title filter.
    pub title: Option<TitleQuery>,
    /// The nutrients a recipe must have one of.
    pub nutrients: Option<Vec<Nutrient>>,
    /// The identifiers a recipe must have one of.
    pub whitelist: Option<Vec<Uuid>>,
}

/// The database query for a valid request: the page, and each filter the
/// request sets.
pub open spec fn plan_of(q: SearchRequest, p: SearchPlan) -> bool {
    &&& p.skip == (q.page_number - 1) * q.page_limit
    &&& p.limit == q.page_limit
    &&& p.whitelist == q.whitelist
    &&& p.nutrients == q.nutrients
    &&& match q.query {
        Some(t) => p.title matches Some(tq) && tq.pattern@ == wildcard_of(t@) && tq.text == t,
        None => p.title is None,
    }
}

/// Checks a search request and turns it into the database query that
/// answers it.
pub fn plan_search(request: SearchRequest) -> (r: Result<SearchPlan, String>)
    ensures
        r is Err <==> query_error(request) is Some,
        r is Err ==> Some(r->Err_0@) == query_error(request),
        r is Ok ==> plan_of(request, r->Ok_0),
{
    match validate_query(&request) {
        Err(e) => {
            return Err(e);
        },
        Ok(()) => {},
    }
    let page = (request.page_number - 1) as u64;
    let per_page = request.page_limit as u64;
    assert(page * per_page <= 0xffff_ffffu64 * 0xffu64) by (nonlinear_arith)
        requires
            page <= 0xffff_ffff,
            per_page <= 0xff,
    ;
    let skip = page * per_page;
    let title = match request.query {
        Some(t) => Some(TitleQuery { pattern: spaces_to_wildcards(t.as_str()), text: t }),
        None => None,
    };
    Ok(
        SearchPlan {
            skip,
            limit: request.page_limit,
            title,
            nutrients: request.nutrients,
            whitelist: request.whitelist,
        },
    )
}

} // verus!
