//! Which handler serves a request, by its path.

use vstd::prelude::*;

verus! {

/// The handlers of the HTTP surface.
#[derive(Clone, Copy, PartialEq, Eq, Structural, Debug)]
pub enum Route {
    /// `/echo`: a fixed answer.
    Echo,
    /// `/v1/models`: the model list.
    Models,
    /// `/v1/chat/completions`: a chat completion.
    ChatCompletions,
    /// Any other path.
    NotFound,
}

/// The path component of a request target, if the target is a URI.
pub uninterp spec fn uri_path(target: Seq<char>) -> Option<Seq<char>>;

/// The handler of a path: one of the three known paths, letter for letter,
/// or none.
pub open spec fn route_of_path(path: Seq<char>) -> Route {
    if path == "/echo"@ {
        Route::Echo
    } else if path == "/v1/models"@ {
        Route::Models
    } else if path == "/v1/chat/completions"@ {
        Route::ChatCompletions
    } else {
        Route::NotFound
    }
}

/// The handler of a request target: that of its path. A request without a
/// target, or with one that is no URI, has none.
pub open spec fn route_of_target(target: Option<Seq<char>>) -> Route {
    match target {
        Some(t) => match uri_path(t) {
            Some(path) => route_of_path(path),
            None => Route::NotFound,
        },
        None => Route::NotFound,
    }
}

/// `str::parse` at `http::Uri`, then `Uri::path`: the path component of a
/// request target, without its query. `None` where the target is no URI. The
/// result is a function of the target alone: `uri_path`.
#[verifier::external_body]
fn path_of(target: &str) -> (r: Option<String>)
    ensures
        match r {
            Some(path) => uri_path(target@) == Some(path@),
            None => uri_path(target@) is None,
        },
{
    target.parse::<http::Uri>().ok().map(|uri| uri.path().to_string())
}

impl Route {
    /// Selects the handler of a path.
    pub fn of_path(path: &str) -> (r: Route)
        ensures
            r == route_of_path(path@),
    {
        let path = String::from_str(path);
        if path == String::from_str("/echo") {
            Route::Echo
        } else if path == String::from_str("/v1/models") {
            Route::Models
        } else if path == String::from_str("/v1/chat/completions") {
            Route::ChatCompletions
        } else {
            Route::NotFound
        }
    }

    /// Selects the handler of a request by its target, path and query.
    pub fn of_target(target: Option<&str>) -> (r: Route)
        ensures
            r == route_of_target(
                match target {
                    Some(t) => Some(t@),
                    None => None,
                },
            ),
    {
        match target {
            Some(t) => match path_of(t) {
                Some(path) => Route::of_path(path.as_str()),
                None => Route::NotFound,
            },
            None => Route::NotFound,
        }
    }
}

/// Every path but the three known ones has no handler.
pub proof fn lemma_other_paths_not_found(path: Seq<char>)
    requires
        path != "/echo"@,
        path != "/v1/models"@,
        path != "/v1/chat/completions"@,
    ensures
        route_of_path(path) == Route::NotFound,
{
}

/// The three known paths differ, so each selects its own handler.
pub proof fn lemma_known_paths()
    ensures
        route_of_path("/echo"@) == Route::Echo,
        route_of_path("/v1/models"@) == Route::Models,
        route_of_path("/v1/chat/completions"@) == Route::ChatCompletions,
{
    reveal_strlit("/echo");
    reveal_strlit("/v1/models");
    reveal_strlit("/v1/chat/completions");
    assert("/echo"@.len() == 5 && "/v1/models"@.len() == 10 && "/v1/chat/completions"@.len()
        == 20);
}

} // verus!
