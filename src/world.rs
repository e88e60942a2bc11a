use vstd::prelude::*;

verus! {

/// The answers of the example greeting endpoint.
#[derive(Clone, Debug, PartialEq, Eq)]
pub enum HelloWorldResponse {
    /// Greets with the word.
    HelloWorld(String),
    /// Echoes the identifier, and the identifier less 3, as data.
    HelloWorldJson { provided_id: i32, sub3: i32 },
    /// Says what was wrong with the request.
    BadRequest(String),
    /// Names the identifiers expected and the one received.
    UnexpectedId(String, i32),
    /// Anything else.
    InternalServerError,
}

/// The answer of the greeting endpoint for identifier `id`: a word for 1
/// and 2, a refusal for 3, the identifier echoed for 4 to 8, a complaint
/// above 8, and an internal error for anything below 1.
pub fn get_world(id: i32) -> (r: HelloWorldResponse)
    ensures
        id == 1 ==> (r matches HelloWorldResponse::HelloWorld(w) && w@ == "Hello"@),
        id == 2 ==> (r matches HelloWorldResponse::HelloWorld(w) && w@ == "World"@),
        id == 3 ==> (r matches HelloWorldResponse::BadRequest(m) && m@ == "That was a 3. Wrong answer."@),
        4 <= id <= 8 ==> r == (HelloWorldResponse::HelloWorldJson { provided_id: id, sub3: (id - 3) as i32 }),
        id >= 9 ==> (r matches HelloWorldResponse::UnexpectedId(e, got) && e@ == "1..=8"@ && got == id),
        id < 1 ==> r == HelloWorldResponse::InternalServerError,
{
    if id == 1 {
        HelloWorldResponse::HelloWorld("Hello".to_string())
    } else if id == 2 {
        HelloWorldResponse::HelloWorld("World".to_string())
    } else if id == 3 {
        HelloWorldResponse::BadRequest("That was a 3. Wrong answer.".to_string())
    } else if 4 <= id && id <= 8 {
        HelloWorldResponse::HelloWorldJson { provided_id: id, sub3: id - 3 }
    } else if id >= 9 {
        HelloWorldResponse::UnexpectedId("1..=8".to_string(), id)
    } else {
        HelloWorldResponse::InternalServerError
    }
}

} // verus!
