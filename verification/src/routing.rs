//! The dispatcher's decision: from the routing header to the one handler
//! that serves the request.
//!
//! The routing key is the final slash-delimited segment of the routing
//! header; a missing header counts as an empty one. The key is matched,
//! case-sensitively, against the single known script name.

use vstd::prelude::*;

verus! {

use vstd::string::StringExecFns;
use crate::text::last_segment;
use crate::text::last_segment_of;

/// Which handler serves the request: the file listing, or the not-found
/// responder, which carries the attempted routing key for diagnosis.
pub enum Route {
    Listing,
    NotFound(String),
}

/// The routing key of a request: the final slash-delimited segment of the
/// routing header, or the empty string when the header is absent.
pub open spec fn spec_routing_key(header: Option<&str>) -> Seq<char> {
    match header {
        Some(s) => last_segment_of(s@),
        None => Seq::empty(),
    }
}

/// Maps the routing header to the handler that serves the request: the
/// listing exactly when the routing key is `list_file.cgi`, the not-found
/// responder, holding the key, otherwise. An absent header never routes to
/// the listing.
pub fn route(header: Option<&str>) -> (r: Route)
    ensures
        spec_routing_key(header) == "list_file.cgi"@ ==> r == Route::Listing,
        spec_routing_key(header) != "list_file.cgi"@ ==> (r matches Route::NotFound(k)
            && k@ == spec_routing_key(header)),
        header is None ==> (r matches Route::NotFound(k) && k@ == Seq::<char>::empty()),
{
    let key: String = match header {
        Some(s) => last_segment(s),
        None => String::new(),
    };
    proof {
        reveal_strlit("list_file.cgi");
        assert("list_file.cgi"@.len() == 13);
    }
    if key == String::from_str("list_file.cgi") {
        Route::Listing
    } else {
        Route::NotFound(key)
    }
}

} // verus!
