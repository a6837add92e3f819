//! The gateway's function registry: metadata, callers and HTTP routes of the
//! functions it exposes, keyed by function path.

use vstd::prelude::*;
use vstd::string::StringExecFns;
use crate::text::{lower_of, owned, str_eq, to_lower, to_upper, upper_of};

verus! {

/// HTTP method of a route.
#[derive(Debug, Clone, Copy, PartialEq, Eq, Structural)]
pub enum HttpMethod {
    GET,
    POST,
    PUT,
    DELETE,
    PATCH,
    HEAD,
    OPTIONS,
}

impl HttpMethod {
    pub open spec fn name_spec(self) -> Seq<char> {
        match self {
            HttpMethod::GET => "GET"@,
            HttpMethod::POST => "POST"@,
            HttpMethod::PUT => "PUT"@,
            HttpMethod::DELETE => "DELETE"@,
            HttpMethod::PATCH => "PATCH"@,
            HttpMethod::HEAD => "HEAD"@,
            HttpMethod::OPTIONS => "OPTIONS"@,
        }
    }

    /// The method's name in capitals.
    pub fn name(&self) -> (r: &'static str)
        ensures
            r@ == self.name_spec(),
    {
        match self {
            HttpMethod::GET => "GET",
            HttpMethod::POST => "POST",
            HttpMethod::PUT => "PUT",
            HttpMethod::DELETE => "DELETE",
            HttpMethod::PATCH => "PATCH",
            HttpMethod::HEAD => "HEAD",
            HttpMethod::OPTIONS => "OPTIONS",
        }
    }

    /// Reads a method name, in any case.
    pub fn parse(s: &str) -> (r: Result<HttpMethod, String>)
        ensures
            match method_of(upper_of(s@)) {
                Some(m) => r == Ok::<HttpMethod, String>(m),
                None => r is Err && r->Err_0@ == "Unknown HTTP method: "@ + s@,
            },
    {
        let u = to_upper(s);
        let u = u.as_str();
        if str_eq(u, "GET") {
            Ok(HttpMethod::GET)
        } else if str_eq(u, "POST") {
            Ok(HttpMethod::POST)
        } else if str_eq(u, "PUT") {
            Ok(HttpMethod::PUT)
        } else if str_eq(u, "DELETE") {
            Ok(HttpMethod::DELETE)
        } else if str_eq(u, "PATCH") {
            Ok(HttpMethod::PATCH)
        } else if str_eq(u, "HEAD") {
            Ok(HttpMethod::HEAD)
        } else if str_eq(u, "OPTIONS") {
            Ok(HttpMethod::OPTIONS)
        } else {
            let mut e = owned("Unknown HTTP method: ");
            e.append(s);
            Err(e)
        }
    }
}

/// The method named by capitalized text.
pub open spec fn method_of(u: Seq<char>) -> Option<HttpMethod> {
    if u == "GET"@ {
        Some(HttpMethod::GET)
    } else if u == "POST"@ {
        Some(HttpMethod::POST)
    } else if u == "PUT"@ {
        Some(HttpMethod::PUT)
    } else if u == "DELETE"@ {
        Some(HttpMethod::DELETE)
    } else if u == "PATCH"@ {
        Some(HttpMethod::PATCH)
    } else if u == "HEAD"@ {
        Some(HttpMethod::HEAD)
    } else if u == "OPTIONS"@ {
        Some(HttpMethod::OPTIONS)
    } else {
        None
    }
}

impl std::str::FromStr for HttpMethod {
    type Err = String;

    fn from_str(s: &str) -> Result<HttpMethod, String> {
        HttpMethod::parse(s)
    }
}

/// Who may call a function.
#[derive(Debug, Clone, Copy, PartialEq, Eq, Structural)]
pub enum AccessLevel {
    Public,
    Internal,
    Private,
}

/// The access level named by lower-case text.
pub open spec fn access_of(l: Seq<char>) -> Option<AccessLevel> {
    if l == "public"@ {
        Some(AccessLevel::Public)
    } else if l == "internal"@ {
        Some(AccessLevel::Internal)
    } else if l == "private"@ {
        Some(AccessLevel::Private)
    } else {
        None
    }
}

impl AccessLevel {
    /// Reads an access level, in any case.
    pub fn parse(s: &str) -> (r: Result<AccessLevel, String>)
        ensures
            match access_of(lower_of(s@)) {
                Some(a) => r == Ok::<AccessLevel, String>(a),
                None => r is Err && r->Err_0@ == "Unknown access level: "@ + s@,
            },
    {
        let l = to_lower(s);
        let l = l.as_str();
        if str_eq(l, "public") {
            Ok(AccessLevel::Public)
        } else if str_eq(l, "internal") {
            Ok(AccessLevel::Internal)
        } else if str_eq(l, "private") {
            Ok(AccessLevel::Private)
        } else {
            let mut e = owned("Unknown access level: ");
            e.append(s);
            Err(e)
        }
    }
}

impl std::str::FromStr for AccessLevel {
    type Err = String;

    fn from_str(s: &str) -> Result<AccessLevel, String> {
        AccessLevel::parse(s)
    }
}

/// The HTTP route of a function.
#[derive(Debug)]
pub struct HttpRoute {
    pub method: HttpMethod,
    pub path: String,
}

/// What the registry knows of a function.
#[derive(Debug)]
pub struct FunctionMetadata {
    /// The function's path, such as `auth.login`.
    pub fn_path: String,
    pub http_route: Option<HttpRoute>,
    pub inline: bool,
    pub access: AccessLevel,
    pub version: String,
    pub description: Option<String>,
}

/// The key of a route: `<METHOD> <path>`.
pub open spec fn route_key(method: HttpMethod, path: Seq<char>) -> Seq<char> {
    method.name_spec() + " "@ + path
}

fn make_route_key(method: &HttpMethod, path: &str) -> (r: String)
    ensures
        r@ == route_key(*method, path@),
{
    let mut k = owned(method.name());
    k.append(" ");
    k.append(path);
    k
}

impl FunctionMetadata {
    /// A field-by-field copy.
    pub fn duplicate(&self) -> (r: FunctionMetadata)
        ensures
            meta_view(r) == meta_view(*self),
            r.fn_path@ == self.fn_path@,
            r.access == self.access,
            r.inline == self.inline,
            r.version@ == self.version@,
            crate::error::opt_chars(r.description) == crate::error::opt_chars(self.description),
            r.http_route is Some <==> self.http_route is Some,
            r.http_route is Some ==> r.http_route->0.method == self.http_route->0.method
                && r.http_route->0.path@ == self.http_route->0.path@,
    {
        let http_route = match &self.http_route {
            Some(h) => Some(HttpRoute { method: h.method, path: h.path.clone() }),
            None => None,
        };
        FunctionMetadata {
            fn_path: self.fn_path.clone(),
            http_route,
            inline: self.inline,
            access: self.access,
            version: self.version.clone(),
            description: crate::error::copy_opt(&self.description),
        }
    }
}

/// What the registry keeps of a function's metadata, as plain values.
pub ghost struct MetaModel {
    pub fn_path: Seq<char>,
    pub route: Option<(HttpMethod, Seq<char>)>,
    pub inline: bool,
    pub access: AccessLevel,
    pub version: Seq<char>,
    pub description: Option<Seq<char>>,
}

/// The plain values of a function's metadata.
pub open spec fn meta_view(m: FunctionMetadata) -> MetaModel {
    MetaModel {
        fn_path: m.fn_path@,
        route: match m.http_route {
            Some(h) => Some((h.method, h.path@)),
            None => None,
        },
        inline: m.inline,
        access: m.access,
        version: m.version@,
        description: crate::error::opt_chars(m.description),
    }
}

/// Counts of the registry's contents.
#[derive(Debug, Clone, Copy, PartialEq, Eq, Structural)]
pub struct RegistryStats {
    pub total_functions: usize,
    pub http_functions: usize,
    pub public_functions: usize,
    pub internal_functions: usize,
}

/// The value paired with `key`, the last such pair winning.
pub open spec fn lookup_pairs(pairs: Seq<(Seq<char>, Seq<char>)>, key: Seq<char>) -> Option<Seq<char>>
    decreases pairs.len(),
{
    if pairs.len() == 0 {
        None
    } else if pairs.last().0 == key {
        Some(pairs.last().1)
    } else {
        lookup_pairs(pairs.drop_last(), key)
    }
}

proof fn lemma_lookup_at(pairs: Seq<(Seq<char>, Seq<char>)>, i: int)
    requires
        pairs.map_values(|p: (Seq<char>, Seq<char>)| p.0).no_duplicates(),
        0 <= i < pairs.len(),
    ensures
        lookup_pairs(pairs, pairs[i].0) == Some(pairs[i].1),
    decreases pairs.len(),
{
    let keys = pairs.map_values(|p: (Seq<char>, Seq<char>)| p.0);
    if i < pairs.len() - 1 {
        assert(keys[i] != keys[pairs.len() - 1]);
        let d = pairs.drop_last();
        assert(d.map_values(|p: (Seq<char>, Seq<char>)| p.0) =~= keys.drop_last());
        assert(d[i] == pairs[i]);
        lemma_lookup_at(d, i);
    }
}

proof fn lemma_lookup_absent(pairs: Seq<(Seq<char>, Seq<char>)>, key: Seq<char>)
    requires
        forall|i: int| 0 <= i < pairs.len() ==> pairs[i].0 != key,
    ensures
        lookup_pairs(pairs, key) is None,
    decreases pairs.len(),
{
    if pairs.len() > 0 {
        let d = pairs.drop_last();
        assert forall|i: int| 0 <= i < d.len() implies d[i].0 != key by {
            assert(d[i] == pairs[i]);
        }
        lemma_lookup_absent(d, key);
    }
}

struct Registered<F> {
    metadata: FunctionMetadata,
    caller: F,
}

/// The registry of exposed functions. `F` is the type of the callers, which
/// take the encoded input and return the encoded output or an error text.
pub struct FunctionRegistry<F> {
    functions: Vec<Registered<F>>,
    routes: Vec<(String, String)>,
}

impl<F: Fn(&[u8]) -> Result<Vec<u8>, String>> FunctionRegistry<F> {
    /// The metadata of the registered functions, in registration order.
    pub closed spec fn metadata_models(&self) -> Seq<MetaModel> {
        self.functions@.map_values(|e: Registered<F>| meta_view(e.metadata))
    }

    /// The callers of the registered functions, in registration order.
    pub closed spec fn callers(&self) -> Seq<F> {
        self.functions@.map_values(|e: Registered<F>| e.caller)
    }

    /// The paths of the registered functions, in registration order.
    pub open spec fn paths(&self) -> Seq<Seq<char>> {
        self.metadata_models().map_values(|m: MetaModel| m.fn_path)
    }

    /// The access level of each registered function, in registration order.
    pub open spec fn accesses(&self) -> Seq<AccessLevel> {
        self.metadata_models().map_values(|m: MetaModel| m.access)
    }

    /// Paths are unique and route keys are unique.
    pub open spec fn distinct(&self) -> bool {
        self.paths().no_duplicates() && self.route_keys().no_duplicates()
    }

    /// A well-formed registry holds each path and each route key once.
    pub proof fn lemma_distinct(&self)
        requires
            self.wf(),
        ensures
            self.distinct(),
    {
    }

    /// Route keys and the function paths they lead to.
    pub closed spec fn route_pairs(&self) -> Seq<(Seq<char>, Seq<char>)> {
        self.routes@.map_values(|p: (String, String)| (p.0@, p.1@))
    }

    /// The route keys, in order.
    pub open spec fn route_keys(&self) -> Seq<Seq<char>> {
        self.route_pairs().map_values(|p: (Seq<char>, Seq<char>)| p.0)
    }

    /// The function path that a route key leads to.
    pub open spec fn route_target(&self, key: Seq<char>) -> Option<Seq<char>> {
        lookup_pairs(self.route_pairs(), key)
    }

    /// Whether every registered caller accepts every input.
    pub closed spec fn callers_total(&self) -> bool {
        forall|i: int, x: &[u8]| 0 <= i < self.functions@.len() ==> #[trigger] self.functions@[i].caller.requires((x,))
    }

    /// Paths and route keys are unique, and every caller accepts every input.
    pub closed spec fn wf(&self) -> bool {
        &&& self.paths().no_duplicates()
        &&& self.route_keys().no_duplicates()
        &&& self.callers_total()
    }

    /// An empty registry.
    pub fn new() -> (r: FunctionRegistry<F>)
        ensures
            r.wf(),
            r.metadata_models().len() == 0,
            r.callers().len() == 0,
            r.paths().len() == 0,
            r.accesses().len() == 0,
            r.route_pairs().len() == 0,
    {
        let r = FunctionRegistry { functions: Vec::new(), routes: Vec::new() };
        assert(r.metadata_models() =~= Seq::<MetaModel>::empty());
        assert(r.callers() =~= Seq::<F>::empty());
        assert(r.paths() =~= Seq::<Seq<char>>::empty());
        assert(r.route_pairs() =~= Seq::<(Seq<char>, Seq<char>)>::empty());
        assert(r.route_pairs().map_values(|p: (Seq<char>, Seq<char>)| p.0) =~= Seq::<Seq<char>>::empty());
        r
    }

    fn find_path(&self, fn_path: &str) -> (r: Option<usize>)
        ensures
            match r {
                Some(i) => i < self.paths().len() && self.paths()[i as int] == fn_path@,
                None => !self.paths().contains(fn_path@),
            },
    {
        let mut i: usize = 0;
        while i < self.functions.len()
            invariant
                i <= self.functions@.len(),
                forall|k: int| 0 <= k < i ==> self.paths()[k] != fn_path@,
            decreases self.functions.len() - i,
        {
            if str_eq(self.functions[i].metadata.fn_path.as_str(), fn_path) {
                return Some(i);
            }
            i = i + 1;
        }
        None
    }

    fn find_route(&self, key: &str) -> (r: Option<usize>)
        ensures
            match r {
                Some(i) => i < self.route_pairs().len() && self.route_pairs()[i as int].0 == key@,
                None => forall|k: int| 0 <= k < self.route_pairs().len() ==> self.route_pairs()[k].0 != key@,
            },
    {
        let mut i: usize = 0;
        while i < self.routes.len()
            invariant
                i <= self.routes@.len(),
                forall|k: int| 0 <= k < i ==> self.route_pairs()[k].0 != key@,
            decreases self.routes.len() - i,
        {
            if str_eq(self.routes[i].0.as_str(), key) {
                return Some(i);
            }
            i = i + 1;
        }
        None
    }

    /// Registers a function under its path, with its caller and, when it has
    /// one, its route (which replaces an earlier route with the same key).
    /// A path registered before is refused and nothing changes.
    pub fn register_function(&mut self, metadata: FunctionMetadata, caller: F) -> (r: Result<(), String>)
        requires
            old(self).wf(),
            forall|x: &[u8]| caller.requires((x,)),
        ensures
            final(self).wf(),
            old(self).paths().contains(metadata.fn_path@) ==> r is Err && r->Err_0@
                == "Function already registered: "@ + metadata.fn_path@ && final(self).metadata_models()
                == old(self).metadata_models() && final(self).callers() == old(self).callers()
                && final(self).route_pairs() == old(self).route_pairs(),
            !old(self).paths().contains(metadata.fn_path@) ==> r is Ok && final(self).metadata_models()
                == old(self).metadata_models().push(meta_view(metadata)) && final(self).callers()
                == old(self).callers().push(caller) && match metadata.http_route {
                Some(h) => final(self).route_target(route_key(h.method, h.path@)) == Some(
                    metadata.fn_path@,
                ) && (forall|k: Seq<char>|
                    k != route_key(h.method, h.path@) ==> final(self).route_target(k)
                        == old(self).route_target(k)) && final(self).route_pairs().len()
                    == old(self).route_pairs().len() + if old(self).route_target(
                    route_key(h.method, h.path@),
                ) is None {
                    1int
                } else {
                    0int
                },
                None => final(self).route_pairs() == old(self).route_pairs(),
            },
    {
        if let Some(_) = self.find_path(metadata.fn_path.as_str()) {
            let mut e = owned("Function already registered: ");
            e.append(metadata.fn_path.as_str());
            return Err(e);
        }
        let path = metadata.fn_path.clone();
        let route_key_opt: Option<String> = match &metadata.http_route {
            Some(h) => Some(make_route_key(&h.method, h.path.as_str())),
            None => None,
        };
        let ghost old_functions = self.functions@;
        let ghost mv = meta_view(metadata);
        let ghost cv = caller;
        self.functions.push(Registered { metadata, caller });
        proof {
            assert(self.route_pairs() == old(self).route_pairs());
            assert(self.metadata_models() =~= old(self).metadata_models().push(mv));
            assert(self.callers() =~= old(self).callers().push(cv));
            assert(self.paths() =~= old(self).paths().push(path@));
            assert(self.accesses() =~= old(self).accesses().push(self.functions@.last().metadata.access));
            assert forall|i: int, x: &[u8]| 0 <= i < self.functions@.len() implies #[trigger] self.functions@[i].caller.requires((x,)) by {
                if i < old_functions.len() {
                    assert(self.functions@[i] == old_functions[i]);
                }
            }
            assert(self.paths().no_duplicates()) by {
                assert forall|a: int, b: int| 0 <= a < b < self.paths().len() implies self.paths()[a] != self.paths()[b] by {
                    if b == self.paths().len() - 1 {
                        assert(old(self).paths()[a] == self.paths()[a]);
                    } else {
                        assert(old(self).paths()[a] == self.paths()[a]);
                        assert(old(self).paths()[b] == self.paths()[b]);
                    }
                }
            }
        }
        match route_key_opt {
            Some(key) => {
                let ghost kv = key@;
                match self.find_route(key.as_str()) {
                    Some(j) => {
                        self.routes.set(j, (key, path));
                        proof {
                            assert(self.route_pairs() =~= old(self).route_pairs().update(j as int, (kv, path@)));
                            assert(self.route_keys() =~= old(self).route_keys());
                            self.lemma_route_target_at(j as int);
                            old(self).lemma_route_target_at(j as int);
                            assert forall|k: Seq<char>| k != kv implies self.route_target(k) == old(self).route_target(k) by {
                                if exists|i: int| 0 <= i < self.route_pairs().len() && self.route_pairs()[i].0 == k {
                                    let i = choose|i: int| 0 <= i < self.route_pairs().len() && self.route_pairs()[i].0 == k;
                                    assert(i != j);
                                    assert(self.route_pairs()[i] == old(self).route_pairs()[i]);
                                    self.lemma_route_target_at(i);
                                    old(self).lemma_route_target_at(i);
                                } else {
                                    assert forall|i: int| 0 <= i < old(self).route_pairs().len() implies old(self).route_pairs()[i].0 != k by {
                                        assert(self.route_keys()[i] == old(self).route_keys()[i]);
                                    }
                                    lemma_lookup_absent(self.route_pairs(), k);
                                    lemma_lookup_absent(old(self).route_pairs(), k);
                                }
                            }
                        }
                    },
                    None => {
                        self.routes.push((key, path));
                        proof {
                            let n = old(self).route_pairs().len();
                            lemma_lookup_absent(old(self).route_pairs(), kv);
                            assert(self.route_pairs() =~= old(self).route_pairs().push((kv, path@)));
                            assert(self.route_keys() =~= old(self).route_keys().push(kv));
                            assert(self.route_keys().no_duplicates()) by {
                                assert forall|a: int, b: int| 0 <= a < b < self.route_keys().len() implies self.route_keys()[a] != self.route_keys()[b] by {
                                    if b == n {
                                        assert(old(self).route_pairs()[a].0 != kv);
                                    } else {
                                        assert(old(self).route_keys()[a] == self.route_keys()[a]);
                                        assert(old(self).route_keys()[b] == self.route_keys()[b]);
                                    }
                                }
                            }
                            self.lemma_route_target_at(n as int);
                            assert forall|k: Seq<char>| k != kv implies self.route_target(k) == old(self).route_target(k) by {
                                if exists|i: int| 0 <= i < self.route_pairs().len() && self.route_pairs()[i].0 == k {
                                    let i = choose|i: int| 0 <= i < self.route_pairs().len() && self.route_pairs()[i].0 == k;
                                    self.lemma_route_target_at(i);
                                    old(self).lemma_route_target_at(i);
                                } else {
                                    assert forall|i: int| 0 <= i < old(self).route_pairs().len() implies old(self).route_pairs()[i].0 != k by {
                                        assert(self.route_pairs()[i] == old(self).route_pairs()[i]);
                                    }
                                    lemma_lookup_absent(self.route_pairs(), k);
                                    lemma_lookup_absent(old(self).route_pairs(), k);
                                }
                            }
                        }
                    },
                }
            },
            None => {},
        }
        Ok(())
    }

    proof fn lemma_route_target_at(&self, i: int)
        requires
            self.route_keys().no_duplicates(),
            0 <= i < self.route_pairs().len(),
        ensures
            self.route_target(self.route_pairs()[i].0) == Some(self.route_pairs()[i].1),
    {
        lemma_lookup_at(self.route_pairs(), i);
    }

    /// Calls the function registered under `fn_path` on `input`.
    pub fn call_function(&self, fn_path: &str, input: &[u8]) -> (r: Result<Vec<u8>, String>)
        requires
            self.wf(),
        ensures
            !self.paths().contains(fn_path@) ==> r is Err && r->Err_0@ == "Function not found: "@
                + fn_path@,
            forall|i: int|
                0 <= i < self.paths().len() && self.paths()[i] == fn_path@ ==> (#[trigger] self.callers()[i]).ensures(
                    (input,),
                    r,
                ),
    {
        match self.find_path(fn_path) {
            Some(i) => {
                let caller = &self.functions[i].caller;
                assert(self.functions@[i as int].caller.requires((input,)));
                let r = caller(input);
                proof {
                    assert forall|k: int| 0 <= k < self.paths().len() && self.paths()[k] == fn_path@ implies (#[trigger] self.callers()[k]).ensures(
                        (input,),
                        r,
                    ) by {
                        if k != i {
                            assert(self.paths()[k] != self.paths()[i as int]);
                        }
                    }
                }
                r
            },
            None => {
                let mut e = owned("Function not found: ");
                e.append(fn_path);
                Err(e)
            },
        }
    }

    /// The function path that the route `<method> <path>` leads to.
    pub fn find_function_by_route(&self, method: &HttpMethod, path: &str) -> (r: Option<String>)
        requires
            self.wf(),
        ensures
            crate::error::opt_chars(r) == self.route_target(route_key(*method, path@)),
    {
        let key = make_route_key(method, path);
        match self.find_route(key.as_str()) {
            Some(j) => {
                proof {
                    self.lemma_route_target_at(j as int);
                }
                Some(self.routes[j].1.clone())
            },
            None => {
                proof {
                    lemma_lookup_absent(self.route_pairs(), key@);
                }
                None
            },
        }
    }

    /// A copy of the metadata registered under `fn_path`.
    pub fn get_metadata(&self, fn_path: &str) -> (r: Option<FunctionMetadata>)
        requires
            self.wf(),
        ensures
            r is Some <==> self.paths().contains(fn_path@),
            r is Some ==> r->0.fn_path@ == fn_path@,
            forall|i: int|
                0 <= i < self.paths().len() && self.paths()[i] == fn_path@ ==> r is Some && meta_view(r->0)
                    == #[trigger] self.metadata_models()[i],
    {
        match self.find_path(fn_path) {
            Some(i) => {
                let m = self.functions[i].metadata.duplicate();
                proof {
                    assert(self.metadata_models()[i as int] == meta_view(self.functions@[i as int].metadata));
                    assert forall|k: int| 0 <= k < self.paths().len() && self.paths()[k] == fn_path@ implies meta_view(m)
                        == #[trigger] self.metadata_models()[k] by {
                        if k != i {
                            assert(self.paths()[k] != self.paths()[i as int]);
                        }
                    }
                }
                Some(m)
            },
            None => None,
        }
    }

    /// The registered paths, in registration order.
    pub fn list_functions(&self) -> (r: Vec<String>)
        requires
            self.wf(),
        ensures
            crate::catalog::strings_view(r@) == self.paths(),
            crate::catalog::strings_view(r@).no_duplicates(),
    {
        let mut v: Vec<String> = Vec::new();
        let mut i: usize = 0;
        while i < self.functions.len()
            invariant
                i <= self.functions@.len(),
                v@.len() == i,
                forall|k: int| 0 <= k < i ==> (#[trigger] v@[k])@ == self.paths()[k],
            decreases self.functions.len() - i,
        {
            v.push(self.functions[i].metadata.fn_path.clone());
            i = i + 1;
        }
        assert(crate::catalog::strings_view(v@) =~= self.paths());
        v
    }

    /// Each route key with the path it leads to.
    pub fn list_http_routes(&self) -> (r: Vec<(String, String)>)
        requires
            self.wf(),
        ensures
            r@.map_values(|p: (String, String)| (p.0@, p.1@)) == self.route_pairs(),
            r@.map_values(|p: (String, String)| p.0@).no_duplicates(),
    {
        let mut v: Vec<(String, String)> = Vec::new();
        let mut i: usize = 0;
        while i < self.routes.len()
            invariant
                i <= self.routes@.len(),
                v@.len() == i,
                forall|k: int| 0 <= k < i ==> ((#[trigger] v@[k]).0@, v@[k].1@) == self.route_pairs()[k],
            decreases self.routes.len() - i,
        {
            v.push((self.routes[i].0.clone(), self.routes[i].1.clone()));
            i = i + 1;
        }
        assert(v@.map_values(|p: (String, String)| (p.0@, p.1@)) =~= self.route_pairs());
        assert(v@.map_values(|p: (String, String)| p.0@) =~= self.route_keys());
        v
    }

    /// How many functions, routes, and public and internal functions there are.
    pub fn stats(&self) -> (r: RegistryStats)
        ensures
            r.total_functions == self.paths().len(),
            r.http_functions == self.route_pairs().len(),
            r.public_functions == self.accesses().filter(|a: AccessLevel| a == AccessLevel::Public).len(),
            r.internal_functions == self.accesses().filter(|a: AccessLevel| a == AccessLevel::Internal).len(),
    {
        let mut public: usize = 0;
        let mut internal: usize = 0;
        let mut i: usize = 0;
        while i < self.functions.len()
            invariant
                i <= self.functions@.len(),
                public == self.accesses().take(i as int).filter(|a: AccessLevel| a == AccessLevel::Public).len(),
                internal == self.accesses().take(i as int).filter(|a: AccessLevel| a == AccessLevel::Internal).len(),
                public <= i,
                internal <= i,
            decreases self.functions.len() - i,
        {
            let a = self.functions[i].metadata.access;
            proof {
                let t = self.accesses().take(i + 1);
                assert(t.drop_last() =~= self.accesses().take(i as int));
                assert(t.last() == a);
                reveal(Seq::filter);
            }
            match a {
                AccessLevel::Public => public = public + 1,
                AccessLevel::Internal => internal = internal + 1,
                AccessLevel::Private => {},
            }
            i = i + 1;
        }
        assert(self.accesses().take(i as int) =~= self.accesses());
        RegistryStats {
            total_functions: self.functions.len(),
            http_functions: self.routes.len(),
            public_functions: public,
            internal_functions: internal,
        }
    }
}

} // verus!
