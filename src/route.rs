//! Routing of a request line to one of two fixed responses.
use vstd::prelude::*;

verus! {

/// The request line that asks for the hello page.
pub const INDEX_REQUEST: &'static str = "GET / HTTP/1.1";

/// The request line that asks for the hello page after a pause.
pub const SLEEP_REQUEST: &'static str = "GET /sleep HTTP/1.1";

/// Status line of a successful response.
pub const STATUS_OK: &'static str = "HTTP/1.1 200 OK";

/// Status line of a response to an unknown request.
pub const STATUS_NOT_FOUND: &'static str = "HTTP/1.1 404 NOT FOUND";

/// File served for both recognised request lines.
pub const HELLO_PAGE: &'static str = "resources/web_root/hello.html";

/// File served for every other request line.
pub const NOT_FOUND_PAGE: &'static str = "resources/web_root/404.html";

/// How long the sleeping route waits before it answers.
pub const SLEEP_MILLIS: u64 = 5000;

/// What a request line asks for.
#[derive(Clone, Copy, Debug, PartialEq, Eq, Structural)]
pub enum Route {
    Index,
    Sleep,
    NotFound,
}

/// The route of a request line: an exact match against the two known lines.
pub open spec fn spec_route(line: Seq<char>) -> Route {
    if line == INDEX_REQUEST@ {
        Route::Index
    } else if line == SLEEP_REQUEST@ {
        Route::Sleep
    } else {
        Route::NotFound
    }
}

impl Route {
    /// Status line that answers this route.
    pub open spec fn spec_status(self) -> Seq<char> {
        match self {
            Route::NotFound => STATUS_NOT_FOUND@,
            _ => STATUS_OK@,
        }
    }

    /// Path of the file whose contents answer this route.
    pub open spec fn spec_file_path(self) -> Seq<char> {
        match self {
            Route::NotFound => NOT_FOUND_PAGE@,
            _ => HELLO_PAGE@,
        }
    }

    /// Whether the route waits before it answers.
    pub open spec fn spec_delays(self) -> bool {
        self is Sleep
    }

    pub fn status_line(&self) -> (r: &'static str)
        ensures
            r@ == self.spec_status(),
    {
        match self {
            Route::NotFound => STATUS_NOT_FOUND,
            _ => STATUS_OK,
        }
    }

    pub fn file_path(&self) -> (r: &'static str)
        ensures
            r@ == self.spec_file_path(),
    {
        match self {
            Route::NotFound => NOT_FOUND_PAGE,
            _ => HELLO_PAGE,
        }
    }

    pub fn delays(&self) -> (r: bool)
        ensures
            r == self.spec_delays(),
    {
        matches!(self, Route::Sleep)
    }
}

/// Routes a request line (without its line ending) by exact comparison.
pub fn route_request(line: &str) -> (r: Route)
    ensures
        r == spec_route(line@),
{
    let given = line.to_owned();
    if given == String::from_str(INDEX_REQUEST) {
        Route::Index
    } else if given == String::from_str(SLEEP_REQUEST) {
        Route::Sleep
    } else {
        Route::NotFound
    }
}

} // verus!
