use vstd::prelude::*;
use crate::request::Method;

verus! {

/// The handlers that a route can be bound to.
#[derive(Clone, Copy, Debug, PartialEq, Eq, Structural)]
pub enum Endpoint {
    /// Reports the client's identity string.
    Version,
    /// Reports the chain's genesis time.
    GenesisTime,
}

/// A method and a path bound to a handler.
#[derive(Clone, Debug, PartialEq, Eq)]
pub struct Route {
    pub method: Method,
    pub path: String,
    pub handler: Endpoint,
}

/// Mathematical model of a [`Route`].
pub ghost struct RouteView {
    pub method: Method,
    pub path: Seq<char>,
    pub handler: Endpoint,
}

impl View for Route {
    type V = RouteView;

    open spec fn view(&self) -> RouteView {
        RouteView { method: self.method, path: self.path@, handler: self.handler }
    }
}

/// Why a table could not be built.
#[derive(Clone, Debug, PartialEq, Eq)]
pub enum RouteError {
    /// A handler is already registered for this method and path.
    DuplicateRoute { method: Method, path: String },
}

/// Mathematical model of a [`RouteError`].
pub ghost enum RouteErrorView {
    DuplicateRoute { method: Method, path: Seq<char> },
}

impl View for RouteError {
    type V = RouteErrorView;

    open spec fn view(&self) -> RouteErrorView {
        match self {
            RouteError::DuplicateRoute { method, path } => RouteErrorView::DuplicateRoute {
                method: *method,
                path: path@,
            },
        }
    }
}

/// Whether some route of the table is registered for the method and the path.
pub open spec fn has_route(routes: Seq<RouteView>, method: Method, path: Seq<char>) -> bool {
    exists|i: int|
        0 <= i < routes.len() && (#[trigger] routes[i]).method == method && routes[i].path == path
}

/// No two routes of the table share both method and path.
pub open spec fn distinct_routes(routes: Seq<RouteView>) -> bool {
    forall|i: int, j: int|
        0 <= i < j < routes.len() ==> !((#[trigger] routes[i]).method == (
        #[trigger] routes[j]).method && routes[i].path == routes[j].path)
}

/// The outcome of registering a route: it joins the end of the table, unless
/// its method and path are taken, which is an error.
pub open spec fn registered(routes: Seq<RouteView>, route: RouteView) -> Result<
    Seq<RouteView>,
    RouteErrorView,
> {
    if has_route(routes, route.method, route.path) {
        Err(RouteErrorView::DuplicateRoute { method: route.method, path: route.path })
    } else {
        Ok(routes.push(route))
    }
}

/// The table of routes collected at startup. A second registration for a
/// method and path that are already taken is refused, so every pair of method
/// and path leads to at most one handler.
#[derive(Debug, PartialEq, Eq)]
pub struct RouteTable {
    routes: Vec<Route>,
}

impl View for RouteTable {
    type V = Seq<RouteView>;

    closed spec fn view(&self) -> Seq<RouteView> {
        self.routes@.map_values(|route: Route| route@)
    }
}

/// Mathematical model of the result of a registration.
pub open spec fn table_result_view(result: Result<RouteTable, RouteError>) -> Result<
    Seq<RouteView>,
    RouteErrorView,
> {
    match result {
        Ok(table) => Ok(table@),
        Err(error) => Err(error@),
    }
}

impl RouteTable {
    /// The table's invariant: its routes are pairwise distinct in method and path.
    #[verifier::type_invariant]
    closed spec fn wf(self) -> bool {
        distinct_routes(self@)
    }

    /// A table without routes.
    pub fn new() -> (table: RouteTable)
        ensures
            table@ == Seq::<RouteView>::empty(),
    {
        let routes: Vec<Route> = Vec::new();
        assert(routes@.map_values(|route: Route| route@) =~= Seq::<RouteView>::empty());
        RouteTable { routes }
    }

    /// The number of registered routes, which are pairwise distinct in method
    /// and path in every table.
    pub fn len(&self) -> (count: usize)
        ensures
            count == self@.len(),
            distinct_routes(self@),
    {
        proof {
            use_type_invariant(self);
        }
        self.routes.len()
    }

    /// The route at a position, in order of registration, if there is one.
    pub fn get(&self, index: usize) -> (route: Option<&Route>)
        ensures
            index < self@.len() ==> route is Some && route->0@ == self@[index as int],
            index >= self@.len() ==> route is None,
    {
        if index < self.routes.len() {
            Some(&self.routes[index])
        } else {
            None
        }
    }

    /// Whether a handler is registered for the method and the path.
    pub fn contains(&self, method: Method, path: &String) -> (found: bool)
        ensures
            found == has_route(self@, method, path@),
    {
        self.find_handler(method, path).is_some()
    }

    /// Registers a route. Fails, naming the method and path, when a handler is
    /// already registered for them; otherwise the route joins the end.
    pub fn add(self, route: Route) -> (result: Result<RouteTable, RouteError>)
        ensures
            table_result_view(result) == registered(self@, route@),
    {
        if self.contains(route.method, &route.path) {
            Err(RouteError::DuplicateRoute { method: route.method, path: route.path })
        } else {
            proof {
                use_type_invariant(&self);
                lemma_registration_keeps_routes_distinct(self@, route@);
            }
            let ghost before = self@;
            let mut routes = self.routes;
            routes.push(route);
            assert(routes@.map_values(|route: Route| route@) =~= before.push(route@));
            Ok(RouteTable { routes })
        }
    }

    /// Finds the handler registered for the method and the path: the handler
    /// of the one route with that method and path if there is one, nothing
    /// otherwise.
    pub fn find_handler(&self, method: Method, path: &String) -> (handler: Option<Endpoint>)
        ensures
            handler == handler_of(self@, method, path@),
    {
        proof {
            use_type_invariant(self);
        }
        let mut index: usize = 0;
        while index < self.routes.len()
            invariant
                index <= self.routes.len(),
                distinct_routes(self@),
                forall|i: int|
                    0 <= i < index ==> !((#[trigger] self@[i]).method == method && self@[i].path
                        == path@),
            decreases self.routes.len() - index,
        {
            let route = &self.routes[index];
            if route.method == method && route.path == *path {
                assert(self@[index as int] == route@);
                proof {
                    lemma_handler_of_is_the_registered_handler(self@, method, path@);
                }
                return Some(route.handler);
            }
            index += 1;
        }
        None
    }
}

/// The handler that a table of distinct routes holds for a method and a path:
/// that of the route registered for them, if there is one.
pub open spec fn handler_of(routes: Seq<RouteView>, method: Method, path: Seq<char>) -> Option<
    Endpoint,
> {
    if has_route(routes, method, path) {
        Some(
            routes[choose|i: int|
                0 <= i < routes.len() && (#[trigger] routes[i]).method == method && routes[i].path
                    == path].handler,
        )
    } else {
        None
    }
}

/// In a table of distinct routes, the handler found for a method and a path
/// is the handler of every route registered for them.
pub proof fn lemma_handler_of_is_the_registered_handler(
    routes: Seq<RouteView>,
    method: Method,
    path: Seq<char>,
)
    requires
        distinct_routes(routes),
    ensures
        forall|i: int|
            0 <= i < routes.len() && (#[trigger] routes[i]).method == method && routes[i].path
                == path ==> handler_of(routes, method, path) == Some(routes[i].handler),
{
    assert forall|i: int|
        0 <= i < routes.len() && (#[trigger] routes[i]).method == method && routes[i].path
            == path implies handler_of(routes, method, path) == Some(routes[i].handler) by {
        let found = choose|k: int|
            0 <= k < routes.len() && (#[trigger] routes[k]).method == method && routes[k].path
                == path;
        lemma_distinct_routes_have_one_handler(routes, found, i);
    }
}

/// Registration keeps the routes of a table distinct.
pub proof fn lemma_registration_keeps_routes_distinct(routes: Seq<RouteView>, route: RouteView)
    requires
        distinct_routes(routes),
    ensures
        registered(routes, route) matches Ok(next) ==> distinct_routes(next),
{
    if !has_route(routes, route.method, route.path) {
        let next = routes.push(route);
        assert forall|i: int, j: int| 0 <= i < j < next.len() implies !((#[trigger] next[i]).method
            == (#[trigger] next[j]).method && next[i].path == next[j].path) by {
            if j < routes.len() {
                assert(next[i] == routes[i]);
                assert(next[j] == routes[j]);
            } else {
                assert(next[i] == routes[i]);
            }
        }
    }
}

/// A second registration on the same method and path is always refused with
/// `DuplicateRoute`, whatever the handlers are and whatever the table held
/// before: the first registration stays the only one.
pub proof fn lemma_duplicate_registration_is_refused(
    routes: Seq<RouteView>,
    first: RouteView,
    second: RouteView,
)
    requires
        first.method == second.method,
        first.path == second.path,
    ensures
        registered(routes, first) matches Ok(next) ==> registered(next, second) == Err::<
            Seq<RouteView>,
            RouteErrorView,
        >(RouteErrorView::DuplicateRoute { method: second.method, path: second.path }),
        registered(routes, first) is Err ==> registered(routes, second) == registered(
            routes,
            first,
        ),
{
    if !has_route(routes, first.method, first.path) {
        let next = routes.push(first);
        assert(next[routes.len() as int] == first);
    }
}

/// The outcome of registering one route and then another.
pub open spec fn registered_both(routes: Seq<RouteView>, first: RouteView, second: RouteView)
    -> Result<Seq<RouteView>, RouteErrorView> {
    match registered(routes, first) {
        Ok(next) => registered(next, second),
        Err(error) => Err(error),
    }
}

/// The order in which two routes that differ in method or path are
/// registered does not matter: either both orders succeed or both fail, and
/// where they succeed every method and path leads to the same handler.
pub proof fn lemma_registration_order_does_not_matter(
    routes: Seq<RouteView>,
    a: RouteView,
    b: RouteView,
    method: Method,
    path: Seq<char>,
)
    requires
        distinct_routes(routes),
        !(a.method == b.method && a.path == b.path),
    ensures
        registered_both(routes, a, b) is Ok <==> registered_both(routes, b, a) is Ok,
        registered_both(routes, a, b) is Ok ==> handler_of(
            registered_both(routes, a, b)->Ok_0,
            method,
            path,
        ) == handler_of(registered_both(routes, b, a)->Ok_0, method, path),
{
    let with_a = routes.push(a);
    let with_b = routes.push(b);
    assert(with_a[routes.len() as int] == a);
    assert(with_b[routes.len() as int] == b);
    assert(has_route(with_a, b.method, b.path) <==> has_route(routes, b.method, b.path)) by {
        if has_route(with_a, b.method, b.path) {
            let i = choose|i: int|
                0 <= i < with_a.len() && (#[trigger] with_a[i]).method == b.method
                    && with_a[i].path == b.path;
            assert(with_a[i] == routes[i]);
        }
        if has_route(routes, b.method, b.path) {
            let i = choose|i: int|
                0 <= i < routes.len() && (#[trigger] routes[i]).method == b.method
                    && routes[i].path == b.path;
            assert(with_a[i] == routes[i]);
        }
    }
    assert(has_route(with_b, a.method, a.path) <==> has_route(routes, a.method, a.path)) by {
        if has_route(with_b, a.method, a.path) {
            let i = choose|i: int|
                0 <= i < with_b.len() && (#[trigger] with_b[i]).method == a.method
                    && with_b[i].path == a.path;
            assert(with_b[i] == routes[i]);
        }
        if has_route(routes, a.method, a.path) {
            let i = choose|i: int|
                0 <= i < routes.len() && (#[trigger] routes[i]).method == a.method
                    && routes[i].path == a.path;
            assert(with_b[i] == routes[i]);
        }
    }
    if registered_both(routes, a, b) is Ok {
        let ab = with_a.push(b);
        let ba = with_b.push(a);
        let n = routes.len() as int;
        lemma_registration_keeps_routes_distinct(routes, a);
        lemma_registration_keeps_routes_distinct(with_a, b);
        lemma_registration_keeps_routes_distinct(routes, b);
        lemma_registration_keeps_routes_distinct(with_b, a);
        lemma_handler_of_is_the_registered_handler(ab, method, path);
        lemma_handler_of_is_the_registered_handler(ba, method, path);
        assert(ab[n] == a && ab[n + 1] == b && ba[n] == b && ba[n + 1] == a);
        if has_route(ab, method, path) {
            let i = choose|i: int|
                0 <= i < ab.len() && (#[trigger] ab[i]).method == method && ab[i].path == path;
            let j = if i < n {
                i
            } else if i == n {
                n + 1
            } else {
                n
            };
            assert(i < n ==> ab[i] == routes[i] && ba[i] == routes[i]);
            assert(ba[j] == ab[i]);
        } else if has_route(ba, method, path) {
            let j = choose|j: int|
                0 <= j < ba.len() && (#[trigger] ba[j]).method == method && ba[j].path == path;
            let i = if j < n {
                j
            } else if j == n {
                n + 1
            } else {
                n
            };
            assert(j < n ==> ab[j] == routes[j] && ba[j] == routes[j]);
            assert(ab[i] == ba[j]);
        }
    }
}

/// In a table of distinct routes a method and path lead to one handler only.
pub proof fn lemma_distinct_routes_have_one_handler(routes: Seq<RouteView>, i: int, j: int)
    requires
        distinct_routes(routes),
        0 <= i < routes.len(),
        0 <= j < routes.len(),
        routes[i].method == routes[j].method,
        routes[i].path == routes[j].path,
    ensures
        i == j,
{
    if i < j {
        assert(!(routes[i].method == routes[j].method && routes[i].path == routes[j].path));
    } else if j < i {
        assert(!(routes[j].method == routes[i].method && routes[j].path == routes[i].path));
    }
}

} // verus!
