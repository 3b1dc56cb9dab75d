use vstd::prelude::*;
use vstd::string::StrSliceExecFns;

verus! {

/// The HTTP verbs the service tells apart.
#[derive(Clone, Copy, Debug, PartialEq, Eq, Structural)]
pub enum Method {
    Get,
    Post,
    Put,
    Delete,
    Other,
}

/// The operation a request is bound to.
#[derive(Clone, Copy, Debug, PartialEq, Eq, Structural)]
pub enum Endpoint {
    ListNotes,
    GetNote,
    CreateNote,
    UpdateNote,
    DeleteNote,
    Unmatched,
}

/// A routed request: the operation and, for the item routes, the id from the path.
#[derive(Debug)]
pub struct Route {
    pub endpoint: Endpoint,
    pub id: String,
}

/// The collection path `/notes`.
pub open spec fn collection_path() -> Seq<char> {
    seq!['/', 'n', 'o', 't', 'e', 's']
}

/// The id in an item path `/notes/{id}`: a non-empty segment without `/`.
pub open spec fn item_id(path: Seq<char>) -> Option<Seq<char>> {
    if path.len() > 7 && path.subrange(0, 7) == collection_path().push('/') && !path.subrange(
        7,
        path.len() as int,
    ).contains('/') {
        Some(path.subrange(7, path.len() as int))
    } else {
        None
    }
}

/// The operation bound to `method` on `path`.
pub open spec fn endpoint_of(method: Method, path: Seq<char>) -> Endpoint {
    if path == collection_path() {
        match method {
            Method::Get => Endpoint::ListNotes,
            Method::Post => Endpoint::CreateNote,
            _ => Endpoint::Unmatched,
        }
    } else if item_id(path) is Some {
        match method {
            Method::Get => Endpoint::GetNote,
            Method::Put => Endpoint::UpdateNote,
            Method::Delete => Endpoint::DeleteNote,
            _ => Endpoint::Unmatched,
        }
    } else {
        Endpoint::Unmatched
    }
}

/// The operation acts on one note named in the path.
pub open spec fn takes_id(e: Endpoint) -> bool {
    e is GetNote || e is UpdateNote || e is DeleteNote
}

/// The first six characters of `path` spell `/notes`.
fn has_collection_prefix(path: &str, len: usize) -> (r: bool)
    requires
        len == path@.len(),
    ensures
        r == (len >= 6 && path@.subrange(0, 6) == collection_path()),
{
    if len < 6 {
        return false;
    }
    let r = path.get_char(0) == '/' && path.get_char(1) == 'n' && path.get_char(2) == 'o'
        && path.get_char(3) == 't' && path.get_char(4) == 'e' && path.get_char(5) == 's';
    proof {
        if r {
            assert(path@.subrange(0, 6) =~= collection_path());
        } else if path@.subrange(0, 6) == collection_path() {
            assert(path@.subrange(0, 6)[0] == path@[0]);
            assert(path@.subrange(0, 6)[1] == path@[1]);
            assert(path@.subrange(0, 6)[2] == path@[2]);
            assert(path@.subrange(0, 6)[3] == path@[3]);
            assert(path@.subrange(0, 6)[4] == path@[4]);
            assert(path@.subrange(0, 6)[5] == path@[5]);
        }
    }
    r
}

/// No character of `s` is `/`.
fn is_segment(s: &str) -> (r: bool)
    ensures
        r == !s@.contains('/'),
{
    let len = s.unicode_len();
    let mut i: usize = 0;
    while i < len
        invariant
            len == s@.len(),
            0 <= i <= len,
            forall|j: int| 0 <= j < i ==> s@[j] != '/',
        decreases len - i,
    {
        if s.get_char(i) == '/' {
            return false;
        }
        i += 1;
    }
    assert(!s@.contains('/'));
    true
}

/// Binds a request line to an operation: `/notes` takes GET and POST,
/// `/notes/{id}` takes GET, PUT and DELETE; anything else is unmatched.
pub fn route(method: Method, path: &str) -> (r: Route)
    ensures
        r.endpoint == endpoint_of(method, path@),
        takes_id(r.endpoint) ==> item_id(path@) == Some(r.id@),
{
    let len = path.unicode_len();
    let unmatched = Route { endpoint: Endpoint::Unmatched, id: String::new() };
    if !has_collection_prefix(path, len) {
        proof {
            if path@ == collection_path() {
                assert(path@.subrange(0, 6) =~= path@);
            }
            if path@.len() > 7 && path@.subrange(0, 7) == collection_path().push('/') {
                assert(path@.subrange(0, 6) =~= path@.subrange(0, 7).subrange(0, 6));
                assert(collection_path().push('/').subrange(0, 6) =~= collection_path());
            }
        }
        return unmatched;
    }
    if len == 6 {
        assert(path@ =~= path@.subrange(0, 6));
        return match method {
            Method::Get => Route { endpoint: Endpoint::ListNotes, id: String::new() },
            Method::Post => Route { endpoint: Endpoint::CreateNote, id: String::new() },
            _ => unmatched,
        };
    }
    assert(path@ != collection_path());
    if len < 8 || path.get_char(6) != '/' {
        proof {
            if path@.len() > 7 && path@.subrange(0, 7) == collection_path().push('/') {
                assert(path@.subrange(0, 7)[6] == path@[6]);
            }
        }
        return unmatched;
    }
    let id = path.substring_char(7, len);
    assert(path@.subrange(0, 7) =~= collection_path().push('/')) by {
        assert(path@.subrange(0, 6) == collection_path());
        assert forall|k: int| 0 <= k < 6 implies path@[k] == collection_path()[k] by {
            assert(path@.subrange(0, 6)[k] == path@[k]);
        }
    }
    if !is_segment(id) {
        return unmatched;
    }
    let id = id.to_owned();
    match method {
        Method::Get => Route { endpoint: Endpoint::GetNote, id },
        Method::Put => Route { endpoint: Endpoint::UpdateNote, id },
        Method::Delete => Route { endpoint: Endpoint::DeleteNote, id },
        _ => unmatched,
    }
}

} // verus!
