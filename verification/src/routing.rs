//! Which part of the service a request path is served by, and the status
//! identifier a user-status path names.

use vstd::prelude::*;

verus! {

/// The path statuses are posted to.
pub const STATUSES_PATH: &'static str = "/api/v1/statuses";

/// The path of the NodeInfo document.
pub const NODEINFO_PATH: &'static str = "/nodeinfo/2.0";

/// What a user-status path starts with, and what stands between the user
/// and the status identifier: `/users/<user>/statuses/<id>`.
pub const USERS_PREFIX: &'static str = "/users/";
pub const STATUSES_SEGMENT: &'static str = "/statuses/";

/// `s` is one non-empty path segment: it holds no `/`.
pub open spec fn is_segment(s: Seq<char>) -> bool {
    &&& s.len() > 0
    &&& forall|i: int| 0 <= i < s.len() ==> s[i] != '/'
}

/// The path of the status `id` of the user `user`.
pub open spec fn user_status_path(user: Seq<char>, id: Seq<char>) -> Seq<char> {
    USERS_PREFIX@ + user + STATUSES_SEGMENT@ + id
}

/// `path` is the path of the status `id` of some user.
pub open spec fn is_user_status_path(path: Seq<char>, id: Seq<char>) -> bool {
    exists|user: Seq<char>|
        is_segment(user) && is_segment(id) && path == #[trigger] user_status_path(user, id)
}

/// The status identifier that `path` names, if it is a user-status path.
pub open spec fn user_status_id_of(path: Seq<char>) -> Option<Seq<char>> {
    if exists|id: Seq<char>| is_user_status_path(path, id) {
        Some(choose|id: Seq<char>| is_user_status_path(path, id))
    } else {
        None
    }
}

/// What a request path is served by, as values.
pub enum RouteView {
    Statuses,
    NodeInfo,
    UserStatus(Seq<char>),
    Unknown,
}

/// The route of `path`: the two fixed paths, then any user-status path with
/// the identifier it names.
pub open spec fn route_of(path: Seq<char>) -> RouteView {
    if path == STATUSES_PATH@ {
        RouteView::Statuses
    } else if path == NODEINFO_PATH@ {
        RouteView::NodeInfo
    } else {
        match user_status_id_of(path) {
            Some(id) => RouteView::UserStatus(id),
            None => RouteView::Unknown,
        }
    }
}

/// What a request path is served by.
pub enum Route {
    Statuses,
    NodeInfo,
    /// The status with this identifier, of whichever user.
    UserStatus(String),
    Unknown,
}

impl View for Route {
    type V = RouteView;

    open spec fn view(&self) -> RouteView {
        match self {
            Route::Statuses => RouteView::Statuses,
            Route::NodeInfo => RouteView::NodeInfo,
            Route::UserStatus(id) => RouteView::UserStatus(id@),
            Route::Unknown => RouteView::Unknown,
        }
    }
}

/// A user-status path names one user and one status: the path determines both.
pub proof fn lemma_user_status_path_unique(u1: Seq<char>, id1: Seq<char>, u2: Seq<char>, id2: Seq<char>)
    requires
        is_segment(u1),
        is_segment(id1),
        is_segment(u2),
        is_segment(id2),
        user_status_path(u1, id1) == user_status_path(u2, id2),
    ensures
        u1 == u2,
        id1 == id2,
{
    reveal_strlit("/users/");
    reveal_strlit("/statuses/");
    let p = user_status_path(u1, id1);
    let q = user_status_path(u2, id2);
    let l1 = u1.len() as int;
    let l2 = u2.len() as int;
    if l1 < l2 {
        assert(p[7 + l1] == '/');
        assert(q[7 + l1] == u2[l1]);
    } else if l2 < l1 {
        assert(q[7 + l2] == '/');
        assert(p[7 + l2] == u1[l2]);
    }
    assert(u1 =~= p.subrange(7, 7 + l1));
    assert(u2 =~= q.subrange(7, 7 + l2));
    assert(id1 =~= p.subrange(17 + l1, p.len() as int));
    assert(id2 =~= q.subrange(17 + l2, q.len() as int));
}

/// The user-status path with a user segment of length `user_len`, laid out
/// character by character.
pub open spec fn has_user_status_shape(path: Seq<char>, user_len: int) -> bool {
    &&& 0 < user_len
    &&& 17 + user_len < path.len()
    &&& path.subrange(0, 7) == USERS_PREFIX@
    &&& forall|k: int| 7 <= k < 7 + user_len ==> path[k] != '/'
    &&& path[7 + user_len] == '/'
    &&& path.subrange(7 + user_len, 17 + user_len) == STATUSES_SEGMENT@
    &&& forall|k: int| 17 + user_len <= k < path.len() ==> path[k] != '/'
}

/// A user-status path is laid out as such, with the user's length.
proof fn lemma_shape_of_user_status_path(path: Seq<char>, user: Seq<char>, id: Seq<char>)
    requires
        is_segment(user),
        is_segment(id),
        path == user_status_path(user, id),
    ensures
        has_user_status_shape(path, user.len() as int),
        path.subrange(17 + user.len() as int, path.len() as int) == id,
{
    reveal_strlit("/users/");
    reveal_strlit("/statuses/");
    let ul = user.len() as int;
    assert(path.subrange(0, 7) =~= USERS_PREFIX@);
    assert(path.subrange(7 + ul, 17 + ul) =~= STATUSES_SEGMENT@);
    assert(path.subrange(17 + ul, path.len() as int) =~= id);
    assert forall|k: int| 7 <= k < 7 + ul implies path[k] != '/' by {
        assert(path[k] == user[k - 7]);
    }
    assert forall|k: int| 17 + ul <= k < path.len() implies path[k] != '/' by {
        assert(path[k] == id[k - 17 - ul]);
    }
}

/// A path laid out as a user-status path is one.
proof fn lemma_user_status_path_of_shape(path: Seq<char>, user_len: int)
    requires
        has_user_status_shape(path, user_len),
    ensures
        is_user_status_path(path, path.subrange(17 + user_len, path.len() as int)),
{
    reveal_strlit("/users/");
    reveal_strlit("/statuses/");
    let user = path.subrange(7, 7 + user_len);
    let id = path.subrange(17 + user_len, path.len() as int);
    assert(path =~= user_status_path(user, id)) by {
        assert(path =~= path.subrange(0, 7) + user + path.subrange(7 + user_len, 17 + user_len) + id);
    }
    assert(is_segment(user));
    assert(is_segment(id));
}

/// Where the first `/` after the users prefix stands, the user segment of any
/// user-status layout of the path ends there.
proof fn lemma_shape_ends_at_first_slash(path: Seq<char>, j: int)
    requires
        7 <= j < path.len(),
        path[j] == '/',
        forall|k: int| 7 <= k < j ==> path[k] != '/',
    ensures
        forall|ul: int| has_user_status_shape(path, ul) ==> ul == j - 7,
{
    assert forall|ul: int| has_user_status_shape(path, ul) implies ul == j - 7 by {
        if 7 + ul < j {
            assert(path[7 + ul] == '/');
        } else if 7 + ul > j {
            assert(path[j] != '/');
        }
    }
}

/// Whether two texts are equal.
fn same_text(a: &str, b: &str) -> (same: bool)
    ensures
        same == (a@ == b@),
{
    a.to_owned() == b.to_owned()
}

/// Where the status identifier of the user-status path `path` starts, if
/// `path` is one.
fn user_status_id_start(path: &str, n: usize) -> (start: Option<usize>)
    requires
        n == path@.len(),
    ensures
        match start {
            Some(s) => 17 < s < n && has_user_status_shape(path@, s - 17),
            None => forall|ul: int| !has_user_status_shape(path@, ul),
        },
{
    proof {
        reveal_strlit("/users/");
        reveal_strlit("/statuses/");
    }
    if n < 19 {
        return None;
    }
    if !same_text(path.substring_char(0, 7), USERS_PREFIX) {
        return None;
    }
    let mut j: usize = 7;
    while j < n && path.get_char(j) != '/'
        invariant
            7 <= j <= n,
            n == path@.len(),
            forall|k: int| 7 <= k < j ==> path@[k] != '/',
        decreases n - j,
    {
        j = j + 1;
    }
    if j == n {
        return None;
    }
    proof {
        lemma_shape_ends_at_first_slash(path@, j as int);
    }
    if j == 7 || n - j <= 10 {
        return None;
    }
    if !same_text(path.substring_char(j, j + 10), STATUSES_SEGMENT) {
        return None;
    }
    let mut k: usize = j + 10;
    while k < n
        invariant
            j + 10 <= k <= n,
            n == path@.len(),
            forall|ul: int| has_user_status_shape(path@, ul) ==> ul == j - 7,
            forall|m: int| j + 10 <= m < k ==> path@[m] != '/',
        decreases n - k,
    {
        if path.get_char(k) == '/' {
            return None;
        }
        k = k + 1;
    }
    Some(j + 10)
}

/// The route that serves `path`.
pub fn route(path: &str) -> (r: Route)
    ensures
        r@ == route_of(path@),
{
    if same_text(path, STATUSES_PATH) {
        return Route::Statuses;
    }
    if same_text(path, NODEINFO_PATH) {
        return Route::NodeInfo;
    }
    let n = path.unicode_len();
    match user_status_id_start(path, n) {
        Some(s) => {
            let id = path.substring_char(s, n).to_owned();
            proof {
                lemma_user_status_path_of_shape(path@, s - 17);
                assert(is_user_status_path(path@, id@));
                let other = choose|other: Seq<char>| is_user_status_path(path@, other);
                let u1 = choose|u: Seq<char>|
                    is_segment(u) && is_segment(id@) && path@ == #[trigger] user_status_path(u, id@);
                let u2 = choose|u: Seq<char>|
                    is_segment(u) && is_segment(other) && path@ == #[trigger] user_status_path(u, other);
                lemma_user_status_path_unique(u1, id@, u2, other);
            }
            Route::UserStatus(id)
        },
        None => {
            proof {
                assert forall|id: Seq<char>| !is_user_status_path(path@, id) by {
                    if is_user_status_path(path@, id) {
                        let u = choose|u: Seq<char>|
                            is_segment(u) && is_segment(id) && path@ == #[trigger] user_status_path(u, id);
                        lemma_shape_of_user_status_path(path@, u, id);
                    }
                }
            }
            Route::Unknown
        },
    }
}

/// The user segment of a user-status path does not change its route: any
/// two users' paths to one status identifier route to that identifier.
pub proof fn lemma_route_ignores_user(u1: Seq<char>, u2: Seq<char>, id: Seq<char>)
    requires
        is_segment(u1),
        is_segment(u2),
        is_segment(id),
    ensures
        route_of(user_status_path(u1, id)) == RouteView::UserStatus(id),
        route_of(user_status_path(u2, id)) == RouteView::UserStatus(id),
{
    lemma_route_of_user_status_path(u1, id);
    lemma_route_of_user_status_path(u2, id);
}

/// The path of a user's status routes to that status identifier.
pub proof fn lemma_route_of_user_status_path(user: Seq<char>, id: Seq<char>)
    requires
        is_segment(user),
        is_segment(id),
    ensures
        route_of(user_status_path(user, id)) == RouteView::UserStatus(id),
{
    reveal_strlit("/users/");
    reveal_strlit("/api/v1/statuses");
    reveal_strlit("/nodeinfo/2.0");
    let p = user_status_path(user, id);
    assert(p[1] == 'u');
    assert(p != STATUSES_PATH@) by {
        assert(STATUSES_PATH@[1] == 'a');
    }
    assert(p != NODEINFO_PATH@) by {
        assert(NODEINFO_PATH@[1] == 'n');
    }
    assert(is_user_status_path(p, id));
    let other = choose|other: Seq<char>| is_user_status_path(p, other);
    let u2 = choose|u: Seq<char>| is_segment(u) && is_segment(other) && p == #[trigger] user_status_path(u, other);
    lemma_user_status_path_unique(user, id, u2, other);
}

} // verus!
