use vstd::prelude::*;

verus! {

/// Declared so that route schemas can carry the generator's JSON fragments through unchanged.
#[verifier::external_type_specification]
#[verifier::external_body]
pub struct ExValue(serde_json::Value);

/// One endpoint as the generator describes it. All flags arrive as text
/// (`"true"` / `"false"`), methods in lower case (`"get"`, `"post"`, ...).
pub struct RouteObject {
    pub is_route_dynamic: String,
    pub method: String,
    pub request_body: serde_json::Value,
    pub response: serde_json::Value,
    pub route: String,
}

/// A route is probed live only when it is a static `GET` route.
pub open spec fn is_probe_target(r: RouteObject) -> bool {
    r.method@ == "get"@ && r.is_route_dynamic@ == "false"@
}

/// The routes of `s` that are probed, in their declared order.
pub open spec fn probe_targets(s: Seq<RouteObject>) -> Seq<RouteObject>
    decreases s.len(),
{
    if s.len() == 0 {
        Seq::empty()
    } else if is_probe_target(s[0]) {
        seq![s[0]] + probe_targets(s.drop_first())
    } else {
        probe_targets(s.drop_first())
    }
}

/// The paths of a sequence of routes.
pub open spec fn route_paths(s: Seq<RouteObject>) -> Seq<String> {
    s.map_values(|r: RouteObject| r.route)
}

impl RouteObject {
    pub fn is_probe_target(&self) -> (r: bool)
        ensures
            r == is_probe_target(*self),
    {
        let get = String::from_str("get");
        let not_dynamic = String::from_str("false");
        self.method == get && self.is_route_dynamic == not_dynamic
    }
}

/// Keeps the static `GET` routes of a schema, in order; the others are dropped.
pub fn select_probe_targets(endpoints: Vec<RouteObject>) -> (r: Vec<RouteObject>)
    ensures
        r@ == probe_targets(endpoints@),
{
    let mut rest = endpoints;
    let mut out: Vec<RouteObject> = Vec::new();
    while rest.len() > 0
        invariant
            out@ + probe_targets(rest@) == probe_targets(endpoints@),
        decreases rest.len(),
    {
        let ghost before = rest@;
        let item = rest.remove(0);
        assert(rest@ == before.drop_first());
        if item.is_probe_target() {
            assert(out@.push(item) + probe_targets(rest@) == out@ + probe_targets(before));
            out.push(item);
        }
    }
    assert(out@ + probe_targets(rest@) == out@);
    out
}

proof fn lemma_probe_targets_push(s: Seq<RouteObject>, x: RouteObject)
    ensures
        probe_targets(s.push(x)) == probe_targets(s) + (if is_probe_target(x) {
            seq![x]
        } else {
            Seq::empty()
        }),
    decreases s.len(),
{
    if s.len() == 0 {
        assert(s.push(x).drop_first() =~= Seq::<RouteObject>::empty());
        assert(probe_targets(Seq::<RouteObject>::empty()) == Seq::<RouteObject>::empty());
    } else {
        assert(s.push(x).drop_first() =~= s.drop_first().push(x));
        lemma_probe_targets_push(s.drop_first(), x);
    }
}

/// The paths of the routes of `endpoints` that are probed, in order; the
/// schema itself is left as it is.
pub fn probe_route_paths(endpoints: &Vec<RouteObject>) -> (r: Vec<String>)
    ensures
        r@ == route_paths(probe_targets(endpoints@)),
{
    let mut out: Vec<String> = Vec::new();
    let mut i: usize = 0;
    while i < endpoints.len()
        invariant
            i <= endpoints.len(),
            out@ == route_paths(probe_targets(endpoints@.take(i as int))),
        decreases endpoints.len() - i,
    {
        let ghost prefix = endpoints@.take(i as int);
        let ghost x = endpoints@[i as int];
        assert(endpoints@.take(i + 1) == prefix.push(x));
        proof {
            lemma_probe_targets_push(prefix, x);
        }
        if endpoints[i].is_probe_target() {
            out.push(endpoints[i].route.clone());
            assert(route_paths(probe_targets(prefix) + seq![x]) =~= route_paths(
                probe_targets(prefix),
            ).push(x.route));
        } else {
            assert(probe_targets(prefix) + Seq::<RouteObject>::empty() == probe_targets(prefix));
        }
        i = i + 1;
    }
    assert(endpoints@.take(i as int) == endpoints@);
    out
}

/// The address at which a route of the local server is reached.
pub fn endpoint_url(route: &str) -> (r: String)
    ensures
        r@ == "http://localhost:8080"@ + route@,
{
    String::from_str("http://localhost:8080").concat(route)
}

} // verus!
