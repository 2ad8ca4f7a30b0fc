//! The routing table of the web companion: which handler answers a request,
//! by its method and path, segment by segment as the `warp` path filters
//! read them.

use vstd::prelude::*;
use crate::text::{chars_of, push_char};

verus! {

/// The request methods the routes tell apart.
pub enum Method {
    Get,
    Post,
    Other,
}

/// The handler that answers a request.
pub enum Route {
    /// `hello/<name>`: a greeting.
    Hello(String),
    /// `user/auth/register`, by POST.
    Register,
    /// `user/auth/login`, by POST.
    Login,
    /// `user/auth/logout`, by any method (the token filters follow).
    Logout,
    /// `user/auth/refresh-session`, by POST.
    RefreshSession,
    /// `admin/queue/dates`, by GET: the prize queue of the administrators.
    Prizes,
}

pub enum RouteView {
    Hello(Seq<char>),
    Register,
    Login,
    Logout,
    RefreshSession,
    Prizes,
}

impl View for Route {
    type V = RouteView;

    open spec fn view(&self) -> RouteView {
        match self {
            Route::Hello(n) => RouteView::Hello(n@),
            Route::Register => RouteView::Register,
            Route::Login => RouteView::Login,
            Route::Logout => RouteView::Logout,
            Route::RefreshSession => RouteView::RefreshSession,
            Route::Prizes => RouteView::Prizes,
        }
    }
}

/// The position of the first `/` in `p`, or its length when there is none.
pub open spec fn slash_index(p: Seq<char>) -> nat
    decreases p.len(),
{
    if p.len() == 0 || p[0] == '/' {
        0
    } else {
        1 + slash_index(p.drop_first())
    }
}

/// The current segment of an unmatched path: the text up to the first `/`.
pub open spec fn segment(p: Seq<char>) -> Seq<char> {
    p.take(slash_index(p) as int)
}

/// What is left of an unmatched path once its current segment has matched:
/// the text after the `/` that ends the segment (empty when none does).
pub open spec fn after_segment(p: Seq<char>) -> Seq<char> {
    if slash_index(p) < p.len() {
        p.skip(slash_index(p) + 1int)
    } else {
        Seq::empty()
    }
}

/// The unmatched path at the start: the request path without its leading `/`.
pub open spec fn route_path(path: Seq<char>) -> Seq<char> {
    if path.len() > 0 && path[0] == '/' {
        path.drop_first()
    } else {
        path
    }
}

/// Which handler answers `method` on `path`. The greeting needs exactly two
/// segments, the second non-empty (a trailing `/` is allowed); the other
/// routes match their first three segments and ignore the rest.
pub open spec fn route_of(method: Method, path: Seq<char>) -> Option<RouteView> {
    let p0 = route_path(path);
    let s1 = segment(p0);
    let p1 = after_segment(p0);
    let s2 = segment(p1);
    let p2 = after_segment(p1);
    let s3 = segment(p2);
    if s1 == "hello"@ && s2.len() > 0 && p2.len() == 0 {
        Some(RouteView::Hello(s2))
    } else if s1 == "user"@ && s2 == "auth"@ {
        if s3 == "register"@ && method is Post {
            Some(RouteView::Register)
        } else if s3 == "login"@ && method is Post {
            Some(RouteView::Login)
        } else if s3 == "logout"@ {
            Some(RouteView::Logout)
        } else if s3 == "refresh-session"@ && method is Post {
            Some(RouteView::RefreshSession)
        } else {
            None
        }
    } else if s1 == "admin"@ && s2 == "queue"@ && s3 == "dates"@ && method is Get {
        Some(RouteView::Prizes)
    } else {
        None
    }
}

proof fn lemma_slash_index(p: Seq<char>)
    ensures
        slash_index(p) <= p.len(),
        slash_index(p) < p.len() ==> p[slash_index(p) as int] == '/',
        forall|i: int| 0 <= i < slash_index(p) ==> p[i] != '/',
    decreases p.len(),
{
    if p.len() > 0 && p[0] != '/' {
        lemma_slash_index(p.drop_first());
        assert forall|i: int| 0 <= i < slash_index(p) implies p[i] != '/' by {
            if i > 0 {
                assert(p[i] == p.drop_first()[i - 1]);
            }
        }
    }
}

/// Splits `cs[start..]` at its first `/`: returns the segment and where the
/// rest begins.
fn take_segment(cs: &Vec<char>, start: usize) -> (r: (String, usize))
    requires
        start <= cs@.len(),
    ensures
        r.0@ == segment(cs@.skip(start as int)),
        r.1 <= cs@.len(),
        cs@.skip(r.1 as int) == after_segment(cs@.skip(start as int)),
{
    let ghost p = cs@.skip(start as int);
    proof {
        lemma_slash_index(p);
    }
    let mut seg = String::new();
    let mut i: usize = start;
    while i < cs.len() && cs[i] != '/'
        invariant
            start <= i <= cs@.len(),
            p == cs@.skip(start as int),
            seg@ == p.take(i - start),
            forall|j: int| 0 <= j < i - start ==> p[j] != '/',
            slash_index(p) <= p.len(),
            slash_index(p) < p.len() ==> p[slash_index(p) as int] == '/',
            forall|j: int| 0 <= j < slash_index(p) ==> p[j] != '/',
        decreases cs@.len() - i,
    {
        push_char(&mut seg, cs[i]);
        assert(p.take(i - start + 1) =~= p.take(i - start).push(cs@[i as int]));
        i = i + 1;
    }
    proof {
        if i < cs@.len() {
            assert(p[i - start] == cs@[i as int]);
        }
        if slash_index(p) < i - start {
            assert(p[slash_index(p) as int] == '/');
        }
    }
    assert(i - start == slash_index(p));
    if i < cs.len() {
        assert(cs@.skip(i + 1) =~= p.skip(slash_index(p) + 1int));
        (seg, i + 1)
    } else {
        assert(cs@.skip(i as int) =~= Seq::<char>::empty());
        (seg, i)
    }
}

fn same(a: &String, b: &str) -> (r: bool)
    ensures
        r == (a@ == b@),
{
    *a == String::from_str(b)
}

/// Which handler answers `method` on `path`.
pub fn routes(method: Method, path: &str) -> (r: Option<Route>)
    ensures
        match r {
            Some(route) => route_of(method, path@) == Some(route@),
            None => route_of(method, path@) is None,
        },
{
    let cs = chars_of(path);
    let start: usize = if cs.len() > 0 && cs[0] == '/' {
        1
    } else {
        0
    };
    assert(cs@.skip(start as int) =~= route_path(path@));
    let (s1, i1) = take_segment(&cs, start);
    let (s2, i2) = take_segment(&cs, i1);
    let (s3, _i3) = take_segment(&cs, i2);
    if same(&s1, "hello") && s2.unicode_len() > 0 && i2 == cs.len() {
        assert(cs@.skip(i2 as int) =~= Seq::<char>::empty());
        return Some(Route::Hello(s2));
    }
    proof {
        if cs@.skip(i2 as int).len() == 0 {
            assert(i2 == cs@.len());
        }
    }
    if same(&s1, "user") && same(&s2, "auth") {
        let post = match method {
            Method::Post => true,
            _ => false,
        };
        if same(&s3, "register") && post {
            Some(Route::Register)
        } else if same(&s3, "login") && post {
            Some(Route::Login)
        } else if same(&s3, "logout") {
            Some(Route::Logout)
        } else if same(&s3, "refresh-session") && post {
            Some(Route::RefreshSession)
        } else {
            None
        }
    } else {
        let get = match method {
            Method::Get => true,
            _ => false,
        };
        if same(&s1, "admin") && same(&s2, "queue") && same(&s3, "dates") && get {
            Some(Route::Prizes)
        } else {
            None
        }
    }
}

/// The greeting answered on `hello/<name>`.
pub open spec fn greeting_text(name: Seq<char>) -> Seq<char> {
    "Hello, "@ + name + "!"@
}

/// The greeting answered on `hello/<name>`.
pub fn greeting(name: &str) -> (s: String)
    ensures
        s@ == greeting_text(name@),
{
    let mut s = String::from_str("Hello, ");
    s.append(name);
    s.append("!");
    s
}

}

verus! {

proof fn lemma_segment_split(w: Seq<char>, rest: Seq<char>)
    requires
        forall|i: int| 0 <= i < w.len() ==> w[i] != '/',
        rest.len() == 0 || rest[0] == '/',
    ensures
        slash_index(w + rest) == w.len(),
        segment(w + rest) == w,
        after_segment(w + rest) == (if rest.len() == 0 { Seq::<char>::empty() } else { rest.drop_first() }),
    decreases w.len(),
{
    if w.len() == 0 {
        assert(w + rest =~= rest);
    } else {
        let w1 = w.drop_first();
        assert forall|i: int| 0 <= i < w1.len() implies w1[i] != '/' by {
            assert(w1[i] == w[i + 1]);
        }
        lemma_segment_split(w1, rest);
        assert((w + rest).drop_first() =~= w1 + rest);
        assert((w + rest)[0] == w[0]);
    }
    assert((w + rest).take(w.len() as int) =~= w);
    if rest.len() > 0 {
        assert((w + rest).skip(w.len() + 1int) =~= rest.drop_first());
    }
}

proof fn lemma_three_segments(a: Seq<char>, b: Seq<char>, c: Seq<char>, tail: Seq<char>)
    requires
        forall|i: int| 0 <= i < a.len() ==> a[i] != '/',
        forall|i: int| 0 <= i < b.len() ==> b[i] != '/',
        forall|i: int| 0 <= i < c.len() ==> c[i] != '/',
        tail.len() == 0 || tail[0] == '/',
    ensures
        ({
            let p0 = route_path(seq!['/'] + a + seq!['/'] + b + seq!['/'] + c + tail);
            let p1 = after_segment(p0);
            let p2 = after_segment(p1);
            &&& segment(p0) == a
            &&& segment(p1) == b
            &&& segment(p2) == c
        }),
{
    let path = seq!['/'] + a + seq!['/'] + b + seq!['/'] + c + tail;
    let p0 = a + (seq!['/'] + b + seq!['/'] + c + tail);
    assert(route_path(path) =~= p0);
    lemma_segment_split(a, seq!['/'] + b + seq!['/'] + c + tail);
    let p1 = b + (seq!['/'] + c + tail);
    assert((seq!['/'] + b + seq!['/'] + c + tail).drop_first() =~= p1);
    lemma_segment_split(b, seq!['/'] + c + tail);
    assert((seq!['/'] + c + tail).drop_first() =~= c + tail);
    lemma_segment_split(c, tail);
}

/// The routes by method, whatever follows the third segment: registration,
/// login and session refresh only by POST, logout by any method, and the
/// prize queue only by GET.
pub proof fn routes_by_method(method: Method, tail: Seq<char>)
    requires
        tail.len() == 0 || tail[0] == '/',
    ensures
        route_of(method, "/user/auth/register"@ + tail)
            == (if method is Post { Some(RouteView::Register) } else { None }),
        route_of(method, "/user/auth/login"@ + tail)
            == (if method is Post { Some(RouteView::Login) } else { None }),
        route_of(method, "/user/auth/logout"@ + tail) == Some(RouteView::Logout),
        route_of(method, "/user/auth/refresh-session"@ + tail)
            == (if method is Post { Some(RouteView::RefreshSession) } else { None }),
        route_of(method, "/admin/queue/dates"@ + tail)
            == (if method is Get { Some(RouteView::Prizes) } else { None }),
{
    reveal_strlit("/user/auth/register");
    reveal_strlit("/user/auth/login");
    reveal_strlit("/user/auth/logout");
    reveal_strlit("/user/auth/refresh-session");
    reveal_strlit("/admin/queue/dates");
    reveal_strlit("user");
    reveal_strlit("auth");
    reveal_strlit("register");
    reveal_strlit("login");
    reveal_strlit("logout");
    reveal_strlit("refresh-session");
    reveal_strlit("admin");
    reveal_strlit("queue");
    reveal_strlit("dates");
    reveal_strlit("hello");
    let s = seq!['/'];
    assert("/user/auth/register"@ + tail =~= s + "user"@ + s + "auth"@ + s + "register"@ + tail);
    lemma_three_segments("user"@, "auth"@, "register"@, tail);
    assert("/user/auth/login"@ + tail =~= s + "user"@ + s + "auth"@ + s + "login"@ + tail);
    lemma_three_segments("user"@, "auth"@, "login"@, tail);
    assert("/user/auth/logout"@ + tail =~= s + "user"@ + s + "auth"@ + s + "logout"@ + tail);
    lemma_three_segments("user"@, "auth"@, "logout"@, tail);
    assert("/user/auth/refresh-session"@ + tail =~= s + "user"@ + s + "auth"@ + s + "refresh-session"@ + tail);
    lemma_three_segments("user"@, "auth"@, "refresh-session"@, tail);
    assert("/admin/queue/dates"@ + tail =~= s + "admin"@ + s + "queue"@ + s + "dates"@ + tail);
    lemma_three_segments("admin"@, "queue"@, "dates"@, tail);
    assert("user"@ != "hello"@);
    assert("admin"@ != "hello"@);
    assert("admin"@ != "user"@);
    assert("register"@ != "login"@);
    assert("logout"@ != "register"@ && "logout"@ != "login"@);
    assert("refresh-session"@ != "register"@ && "refresh-session"@ != "login"@ && "refresh-session"@ != "logout"@);
}

/// `hello/<name>`, with or without a trailing `/`, greets by any method
/// exactly the name in the path.
pub proof fn hello_greets_the_name(method: Method, name: Seq<char>, end: Seq<char>)
    requires
        name.len() > 0,
        forall|i: int| 0 <= i < name.len() ==> name[i] != '/',
        end == Seq::<char>::empty() || end == seq!['/'],
    ensures
        route_of(method, "/hello/"@ + name + end) == Some(RouteView::Hello(name)),
{
    reveal_strlit("/hello/");
    reveal_strlit("hello");
    let p0 = route_path("/hello/"@ + name + end);
    assert(p0 =~= "hello"@ + (seq!['/'] + name + end));
    lemma_segment_split("hello"@, seq!['/'] + name + end);
    assert((seq!['/'] + name + end).drop_first() =~= name + end);
    lemma_segment_split(name, end);
    if end.len() > 0 {
        assert(end.drop_first() =~= Seq::<char>::empty());
    }
}

}
