//! The algorithm catalog: which algorithms the engine knows, what they take,
//! and which implementations offer them.

use vstd::prelude::*;
use crate::text::{owned, str_eq};
use vstd::string::StrSliceExecFns;

verus! {

/// One of the two implementation channels of the engine.
#[derive(Debug, Clone, Copy, PartialEq, Eq, Structural)]
pub enum Implementation {
    Native,
    Alternate,
}

/// The implementation that a wire label names. `rust` and `python` are
/// accepted as older names of the two channels.
pub open spec fn implementation_of_label(s: Seq<char>) -> Option<Implementation> {
    if s == "native"@ || s == "rust"@ {
        Some(Implementation::Native)
    } else if s == "alternate"@ || s == "python"@ {
        Some(Implementation::Alternate)
    } else {
        None
    }
}

impl Implementation {
    pub open spec fn label_spec(self) -> Seq<char> {
        match self {
            Implementation::Native => "native"@,
            Implementation::Alternate => "alternate"@,
        }
    }

    /// The wire label: `native` or `alternate`.
    pub fn label(&self) -> (r: &'static str)
        ensures
            r@ == self.label_spec(),
    {
        match self {
            Implementation::Native => "native",
            Implementation::Alternate => "alternate",
        }
    }

    /// Reads a wire label.
    pub fn from_label(s: &str) -> (r: Option<Implementation>)
        ensures
            r == implementation_of_label(s@),
    {
        if str_eq(s, "native") || str_eq(s, "rust") {
            Some(Implementation::Native)
        } else if str_eq(s, "alternate") || str_eq(s, "python") {
            Some(Implementation::Alternate)
        } else {
            None
        }
    }
}

/// The set of implementations that offer an algorithm.
#[derive(Debug, Clone, Copy, PartialEq, Eq, Structural)]
pub struct ImplSet {
    pub native: bool,
    pub alternate: bool,
}

/// The descriptor of one algorithm.
#[derive(Debug)]
pub struct AlgorithmInfo {
    pub name: String,
    pub description: String,
    pub implementations: Vec<String>,
    pub required_params: Vec<String>,
    pub optional_params: Vec<String>,
}

/// The characters of each string.
pub open spec fn strings_view(v: Seq<String>) -> Seq<Seq<char>> {
    v.map_values(|s: String| s@)
}

/// The names of a list of descriptors, in order.
pub open spec fn names_of(v: Seq<AlgorithmInfo>) -> Seq<Seq<char>> {
    v.map_values(|a: AlgorithmInfo| a.name@)
}

/// The native catalog, in its listing order.
pub open spec fn native_names() -> Seq<Seq<char>> {
    seq![
        "mean"@, "median"@, "mode"@, "std"@, "variance"@, "min"@, "max"@, "range"@,
        "percentile"@, "q1"@, "q3"@, "iqr"@, "count"@, "skewness"@, "kurtosis"@,
        "correlation"@, "summary"@, "generate_uniform"@, "generate_normal"@,
        "generate_exponential"@,
    ]
}

/// The optional parameters of the native algorithm at position `i`.
pub open spec fn native_optional_params(i: int) -> Seq<Seq<char>> {
    if i == 8 {
        seq!["percentile"@]
    } else if i == 17 {
        seq!["count"@, "seed"@, "min"@, "max"@]
    } else if i == 18 {
        seq!["count"@, "seed"@, "mean"@, "std_dev"@]
    } else if i == 19 {
        seq!["count"@, "seed"@, "lambda"@]
    } else {
        seq![]
    }
}

/// The descriptions of the native catalog, in its listing order.
pub open spec fn native_descriptions() -> Seq<Seq<char>> {
    seq![
        "Calculate arithmetic mean"@, "Calculate median value"@, "Find the most frequent values"@,
        "Calculate standard deviation"@, "Calculate variance"@, "Find minimum value"@,
        "Find maximum value"@, "Calculate range (max - min)"@, "Calculate percentile"@,
        "Calculate first quartile"@, "Calculate third quartile"@, "Calculate interquartile range"@,
        "Count data points"@, "Calculate sample skewness"@, "Calculate excess kurtosis"@,
        "Calculate autocorrelation"@, "Calculate comprehensive statistics summary"@,
        "Generate uniformly distributed data"@, "Generate normally distributed data"@,
        "Generate exponentially distributed data"@,
    ]
}

/// What a descriptor holds, as plain values.
pub ghost struct InfoModel {
    pub name: Seq<char>,
    pub description: Seq<char>,
    pub implementations: Seq<Seq<char>>,
    pub required_params: Seq<Seq<char>>,
    pub optional_params: Seq<Seq<char>>,
}

/// The plain values of a descriptor.
pub open spec fn info_view(a: AlgorithmInfo) -> InfoModel {
    InfoModel {
        name: a.name@,
        description: a.description@,
        implementations: strings_view(a.implementations@),
        required_params: strings_view(a.required_params@),
        optional_params: strings_view(a.optional_params@),
    }
}

/// The native descriptor at position `i`.
pub open spec fn native_info(i: int) -> InfoModel {
    InfoModel {
        name: native_names()[i],
        description: native_descriptions()[i],
        implementations: seq!["native"@],
        required_params: Seq::empty(),
        optional_params: native_optional_params(i),
    }
}

/// The whole native catalog, in its listing order.
pub open spec fn native_infos() -> Seq<InfoModel> {
    Seq::new(native_names().len(), |i: int| native_info(i))
}

/// A descriptor as the native catalog lists it.
pub open spec fn is_native_entry(a: AlgorithmInfo, i: int) -> bool {
    info_view(a) == native_info(i)
}

/// A descriptor as the alternate bridge contributes it: offered by the
/// alternate channel alone, everything else as the bridge gave it.
pub open spec fn as_alternate(d: InfoModel) -> InfoModel {
    InfoModel { implementations: seq!["alternate"@], ..d }
}

/// Copies a list of strings.
pub fn clone_strings(v: &Vec<String>) -> (r: Vec<String>)
    ensures
        strings_view(r@) == strings_view(v@),
{
    let mut r: Vec<String> = Vec::new();
    let mut i: usize = 0;
    while i < v.len()
        invariant
            i <= v@.len(),
            r@.len() == i,
            forall|k: int| 0 <= k < i ==> (#[trigger] r@[k])@ == v@[k]@,
        decreases v.len() - i,
    {
        r.push(v[i].clone());
        i = i + 1;
    }
    assert(strings_view(r@) =~= strings_view(v@));
    r
}

impl AlgorithmInfo {
    /// A field-by-field copy.
    pub fn duplicate(&self) -> (r: AlgorithmInfo)
        ensures
            r.name@ == self.name@,
            r.description@ == self.description@,
            strings_view(r.implementations@) == strings_view(self.implementations@),
            strings_view(r.required_params@) == strings_view(self.required_params@),
            strings_view(r.optional_params@) == strings_view(self.optional_params@),
    {
        AlgorithmInfo {
            name: self.name.clone(),
            description: self.description.clone(),
            implementations: clone_strings(&self.implementations),
            required_params: clone_strings(&self.required_params),
            optional_params: clone_strings(&self.optional_params),
        }
    }
}

fn native_entry(name: &str, description: &str, optional: Vec<String>) -> (r: AlgorithmInfo)
    ensures
        r.name@ == name@,
        r.description@ == description@,
        strings_view(r.implementations@) == seq!["native"@],
        strings_view(r.required_params@) == Seq::<Seq<char>>::empty(),
        strings_view(r.optional_params@) == strings_view(optional@),
{
    let mut implementations: Vec<String> = Vec::new();
    implementations.push(owned("native"));
    assert(strings_view(implementations@) =~= seq!["native"@]);
    let required_params: Vec<String> = Vec::new();
    assert(strings_view(required_params@) =~= Seq::<Seq<char>>::empty());
    AlgorithmInfo {
        name: owned(name),
        description: owned(description),
        implementations,
        required_params,
        optional_params: optional,
    }
}

fn params1(a: &str) -> (r: Vec<String>)
    ensures
        strings_view(r@) == seq![a@],
{
    let mut v: Vec<String> = Vec::new();
    v.push(owned(a));
    assert(strings_view(v@) =~= seq![a@]);
    v
}

fn params3(a: &str, b: &str, c: &str) -> (r: Vec<String>)
    ensures
        strings_view(r@) == seq![a@, b@, c@],
{
    let mut v: Vec<String> = Vec::new();
    v.push(owned(a));
    v.push(owned(b));
    v.push(owned(c));
    assert(strings_view(v@) =~= seq![a@, b@, c@]);
    v
}

fn params4(a: &str, b: &str, c: &str, d: &str) -> (r: Vec<String>)
    ensures
        strings_view(r@) == seq![a@, b@, c@, d@],
{
    let mut v: Vec<String> = Vec::new();
    v.push(owned(a));
    v.push(owned(b));
    v.push(owned(c));
    v.push(owned(d));
    assert(strings_view(v@) =~= seq![a@, b@, c@, d@]);
    v
}

/// The native catalog: every algorithm that the native kernels implement,
/// each offered by the native channel alone.
#[verifier::rlimit(60)]
pub fn get_supported_algorithms() -> (r: Vec<AlgorithmInfo>)
    ensures
        r@.len() == native_names().len(),
        forall|i: int| 0 <= i < r@.len() ==> is_native_entry(#[trigger] r@[i], i),
        r@.map_values(|a: AlgorithmInfo| info_view(a)) == native_infos(),
{
    let mut v: Vec<AlgorithmInfo> = Vec::new();
    v.push(native_entry("mean", "Calculate arithmetic mean", Vec::new()));
    v.push(native_entry("median", "Calculate median value", Vec::new()));
    v.push(native_entry("mode", "Find the most frequent values", Vec::new()));
    v.push(native_entry("std", "Calculate standard deviation", Vec::new()));
    v.push(native_entry("variance", "Calculate variance", Vec::new()));
    v.push(native_entry("min", "Find minimum value", Vec::new()));
    v.push(native_entry("max", "Find maximum value", Vec::new()));
    v.push(native_entry("range", "Calculate range (max - min)", Vec::new()));
    v.push(native_entry("percentile", "Calculate percentile", params1("percentile")));
    v.push(native_entry("q1", "Calculate first quartile", Vec::new()));
    v.push(native_entry("q3", "Calculate third quartile", Vec::new()));
    v.push(native_entry("iqr", "Calculate interquartile range", Vec::new()));
    v.push(native_entry("count", "Count data points", Vec::new()));
    v.push(native_entry("skewness", "Calculate sample skewness", Vec::new()));
    v.push(native_entry("kurtosis", "Calculate excess kurtosis", Vec::new()));
    v.push(native_entry("correlation", "Calculate autocorrelation", Vec::new()));
    v.push(
        native_entry("summary", "Calculate comprehensive statistics summary", Vec::new()),
    );
    v.push(
        native_entry(
            "generate_uniform",
            "Generate uniformly distributed data",
            params4("count", "seed", "min", "max"),
        ),
    );
    v.push(
        native_entry(
            "generate_normal",
            "Generate normally distributed data",
            params4("count", "seed", "mean", "std_dev"),
        ),
    );
    v.push(
        native_entry(
            "generate_exponential",
            "Generate exponentially distributed data",
            params3("count", "seed", "lambda"),
        ),
    );
    assert forall|i: int| 0 <= i < v@.len() implies is_native_entry(#[trigger] v@[i], i) by {
        assert(strings_view(Seq::<String>::empty()) =~= seq![]);
    }
    assert(v@.map_values(|a: AlgorithmInfo| info_view(a)) =~= native_infos());
    v
}

/// Whether `s` is one of the strings of `v`.
pub fn contains_str(v: &Vec<String>, s: &str) -> (r: bool)
    ensures
        r == strings_view(v@).contains(s@),
{
    let mut i: usize = 0;
    while i < v.len()
        invariant
            i <= v@.len(),
            forall|k: int| 0 <= k < i ==> (#[trigger] v@[k])@ != s@,
        decreases v.len() - i,
    {
        if str_eq(v[i].as_str(), s) {
            assert(strings_view(v@)[i as int] == s@);
            return true;
        }
        i = i + 1;
    }
    assert(!strings_view(v@).contains(s@)) by {
        if strings_view(v@).contains(s@) {
            let k = choose|k: int| 0 <= k < strings_view(v@).len() && strings_view(v@)[k] == s@;
            assert(v@[k]@ == s@);
        }
    }
    false
}

/// The position of the first descriptor named `name`, if any.
pub fn find_by_name(v: &Vec<AlgorithmInfo>, name: &str) -> (r: Option<usize>)
    ensures
        match r {
            Some(i) => i < v@.len() && v@[i as int].name@ == name@ && forall|k: int|
                0 <= k < i ==> (#[trigger] v@[k]).name@ != name@,
            None => !names_of(v@).contains(name@),
        },
{
    let mut i: usize = 0;
    while i < v.len()
        invariant
            i <= v@.len(),
            forall|k: int| 0 <= k < i ==> (#[trigger] v@[k]).name@ != name@,
        decreases v.len() - i,
    {
        if str_eq(v[i].name.as_str(), name) {
            return Some(i);
        }
        i = i + 1;
    }
    assert(!names_of(v@).contains(name@)) by {
        if names_of(v@).contains(name@) {
            let k = choose|k: int| 0 <= k < names_of(v@).len() && names_of(v@)[k] == name@;
            assert(v@[k].name@ == name@);
        }
    }
    None
}

/// Whether the native catalog offers `algorithm` through the implementation
/// that `implementation` labels.
pub fn is_algorithm_supported(algorithm: &str, implementation: &str) -> (r: bool)
    ensures
        r == (native_names().contains(algorithm@) && implementation_of_label(implementation@)
            == Some(Implementation::Native)),
{
    let imp = match Implementation::from_label(implementation) {
        Some(i) => i,
        None => return false,
    };
    let algos = get_supported_algorithms();
    proof {
        assert(names_of(algos@) =~= native_names()) by {
            assert forall|k: int| 0 <= k < algos@.len() implies names_of(algos@)[k]
                == native_names()[k] by {
                assert(is_native_entry(algos@[k], k));
            }
        }
    }
    match find_by_name(&algos, algorithm) {
        Some(i) => {
            let r = contains_str(&algos[i].implementations, imp.label());
            proof {
                reveal_strlit("native");
                reveal_strlit("alternate");
                assert(is_native_entry(algos@[i as int], i as int));
                assert(names_of(algos@)[i as int] == algorithm@);
                if imp == Implementation::Alternate {
                    assert("native"@.len() != "alternate"@.len());
                    assert(seq!["native"@][0] != "alternate"@);
                    assert(!seq!["native"@].contains("alternate"@)) by {
                        if seq!["native"@].contains("alternate"@) {
                            let k = choose|k: int| 0 <= k < 1 && seq!["native"@][k] == "alternate"@;
                            assert(k == 0);
                        }
                    }
                } else {
                    assert(seq!["native"@][0] == "native"@);
                }
            }
            r
        },
        None => false,
    }
}

/// The catalog that one engine offers: the native algorithms, followed by the
/// descriptors that the alternate bridge contributed at startup.
pub struct Registry {
    native: Vec<AlgorithmInfo>,
    alternate: Vec<AlgorithmInfo>,
}

impl Registry {
    /// Every native entry stands at its place, and every alternate entry is
    /// offered by the alternate channel alone.
    pub closed spec fn wf(&self) -> bool {
        &&& self.native@.len() == native_names().len()
        &&& forall|i: int| 0 <= i < self.native@.len() ==> is_native_entry(#[trigger] self.native@[i], i)
        &&& forall|i: int|
            0 <= i < self.alternate@.len() ==> strings_view((#[trigger] self.alternate@[i]).implementations@)
                == seq!["alternate"@]
    }

    /// The names of the alternate descriptors.
    pub closed spec fn alternate_names(&self) -> Seq<Seq<char>> {
        names_of(self.alternate@)
    }

    /// The names that `list` returns, in order.
    pub open spec fn listed_names(&self) -> Seq<Seq<char>> {
        native_names() + self.alternate_names()
    }

    /// The alternate descriptors, as plain values.
    pub closed spec fn alternate_infos(&self) -> Seq<InfoModel> {
        self.alternate@.map_values(|a: AlgorithmInfo| info_view(a))
    }

    /// The descriptors that `list` returns, in order.
    pub open spec fn listed_infos(&self) -> Seq<InfoModel> {
        native_infos() + self.alternate_infos()
    }

    /// The names of the listed descriptors are the listed names.
    pub proof fn lemma_listed_names(&self)
        ensures
            self.listed_infos().map_values(|m: InfoModel| m.name) == self.listed_names(),
    {
        assert(self.listed_infos().map_values(|m: InfoModel| m.name) =~= self.listed_names());
    }

    proof fn lemma_native_infos(&self)
        requires
            self.wf(),
        ensures
            self.native@.map_values(|a: AlgorithmInfo| info_view(a)) == native_infos(),
    {
        assert forall|k: int| 0 <= k < self.native@.len() implies self.native@.map_values(
            |a: AlgorithmInfo| info_view(a),
        )[k] == native_infos()[k] by {
            assert(is_native_entry(self.native@[k], k));
        }
        assert(self.native@.map_values(|a: AlgorithmInfo| info_view(a)) =~= native_infos());
    }

    proof fn lemma_native_names(&self)
        requires
            self.wf(),
        ensures
            names_of(self.native@) == native_names(),
    {
        assert forall|k: int| 0 <= k < self.native@.len() implies names_of(self.native@)[k]
            == native_names()[k] by {
            assert(is_native_entry(self.native@[k], k));
        }
        assert(names_of(self.native@) =~= native_names());
    }

    /// The catalog of an engine whose alternate bridge is disabled.
    pub fn new() -> (r: Registry)
        ensures
            r.wf(),
            r.alternate_names() == Seq::<Seq<char>>::empty(),
            r.alternate_infos() == Seq::<InfoModel>::empty(),
    {
        let r = Registry { native: get_supported_algorithms(), alternate: Vec::new() };
        assert(r.alternate_names() =~= Seq::<Seq<char>>::empty());
        assert(r.alternate_infos() =~= Seq::<InfoModel>::empty());
        r
    }

    /// The catalog of an engine whose bridge contributed `descriptors`; each
    /// is listed as offered by the alternate channel.
    pub fn with_alternate(descriptors: Vec<AlgorithmInfo>) -> (r: Registry)
        ensures
            r.wf(),
            r.alternate_names() == names_of(descriptors@),
            r.alternate_infos() == descriptors@.map_values(|d: AlgorithmInfo| as_alternate(info_view(d))),
    {
        let mut alternate: Vec<AlgorithmInfo> = Vec::new();
        let mut i: usize = 0;
        while i < descriptors.len()
            invariant
                i <= descriptors@.len(),
                alternate@.len() == i,
                forall|k: int| 0 <= k < i ==> (#[trigger] alternate@[k]).name@ == descriptors@[k].name@,
                forall|k: int|
                    0 <= k < i ==> strings_view((#[trigger] alternate@[k]).implementations@)
                        == seq!["alternate"@],
                forall|k: int| 0 <= k < i ==> info_view(#[trigger] alternate@[k]) == as_alternate(info_view(descriptors@[k])),
            decreases descriptors.len() - i,
        {
            let d = &descriptors[i];
            let mut implementations: Vec<String> = Vec::new();
            implementations.push(owned("alternate"));
            assert(strings_view(implementations@) =~= seq!["alternate"@]);
            alternate.push(
                AlgorithmInfo {
                    name: d.name.clone(),
                    description: d.description.clone(),
                    implementations,
                    required_params: clone_strings(&d.required_params),
                    optional_params: clone_strings(&d.optional_params),
                },
            );
            i = i + 1;
        }
        let r = Registry { native: get_supported_algorithms(), alternate };
        assert(r.alternate_names() =~= names_of(descriptors@));
        assert(r.alternate_infos() =~= descriptors@.map_values(|d: AlgorithmInfo| as_alternate(info_view(d))));
        r
    }

    /// Which implementations offer `name`.
    pub fn implementations(&self, name: &str) -> (r: ImplSet)
        requires
            self.wf(),
        ensures
            r.native == native_names().contains(name@),
            r.alternate == self.alternate_names().contains(name@),
    {
        proof {
            self.lemma_native_names();
        }
        let native = find_by_name(&self.native, name).is_some();
        let alternate = find_by_name(&self.alternate, name).is_some();
        proof {
            if native {
                let i = choose|i: int| 0 <= i < self.native@.len() && self.native@[i].name@ == name@;
                assert(names_of(self.native@)[i] == name@);
            }
            if alternate {
                let i = choose|i: int|
                    0 <= i < self.alternate@.len() && self.alternate@[i].name@ == name@;
                assert(names_of(self.alternate@)[i] == name@);
            }
        }
        ImplSet { native, alternate }
    }

    /// Every descriptor, native ones first; the same on every call.
    pub fn list(&self) -> (r: Vec<AlgorithmInfo>)
        requires
            self.wf(),
        ensures
            names_of(r@) == self.listed_names(),
            r@.map_values(|a: AlgorithmInfo| info_view(a)) == self.listed_infos(),
    {
        proof {
            self.lemma_native_names();
            self.lemma_native_infos();
        }
        let mut r: Vec<AlgorithmInfo> = Vec::new();
        let mut i: usize = 0;
        while i < self.native.len()
            invariant
                i <= self.native@.len(),
                r@.len() == i,
                forall|k: int| 0 <= k < i ==> info_view(#[trigger] r@[k]) == info_view(self.native@[k]),
            decreases self.native.len() - i,
        {
            r.push(self.native[i].duplicate());
            i = i + 1;
        }
        let mut j: usize = 0;
        while j < self.alternate.len()
            invariant
                i == self.native@.len(),
                j <= self.alternate@.len(),
                r@.len() == i + j,
                forall|k: int| 0 <= k < i ==> info_view(#[trigger] r@[k]) == info_view(self.native@[k]),
                forall|k: int|
                    0 <= k < j ==> info_view(#[trigger] r@[i + k]) == info_view(self.alternate@[k]),
            decreases self.alternate.len() - j,
        {
            r.push(self.alternate[j].duplicate());
            j = j + 1;
        }
        let ghost whole = self.native@.map_values(|a: AlgorithmInfo| info_view(a)) + self.alternate_infos();
        assert forall|k: int| 0 <= k < r@.len() implies r@.map_values(|a: AlgorithmInfo| info_view(a))[k]
            == whole[k] by {
            if k >= i {
                assert(info_view(r@[i + (k - i)]) == info_view(self.alternate@[k - i]));
            }
        }
        assert(r@.map_values(|a: AlgorithmInfo| info_view(a)) =~= whole);
        assert(names_of(r@) =~= names_of(self.native@) + names_of(self.alternate@)) by {
            assert forall|k: int| 0 <= k < r@.len() implies names_of(r@)[k] == (names_of(self.native@)
                + names_of(self.alternate@))[k] by {
                if k >= i {
                    assert(info_view(r@[i + (k - i)]) == info_view(self.alternate@[k - i]));
                } else {
                    assert(info_view(r@[k]) == info_view(self.native@[k]));
                }
            }
        }
        r
    }

    /// The first listed descriptor named `name`.
    pub fn lookup(&self, name: &str) -> (r: Option<AlgorithmInfo>)
        requires
            self.wf(),
        ensures
            r is Some <==> self.listed_names().contains(name@),
            r is Some ==> r->0.name@ == name@,
            r is Some ==> exists|k: int|
                0 <= k < self.listed_infos().len() && self.listed_names()[k] == name@ && (forall|j: int|
                    0 <= j < k ==> self.listed_names()[j] != name@) && info_view(r->0)
                    == self.listed_infos()[k],
    {
        proof {
            self.lemma_native_names();
            self.lemma_native_infos();
        }
        match find_by_name(&self.native, name) {
            Some(i) => {
                assert(names_of(self.native@)[i as int] == name@);
                assert(self.listed_names()[i as int] == name@);
                assert(self.listed_infos()[i as int] == info_view(self.native@[i as int]));
                assert forall|j: int| 0 <= j < i implies self.listed_names()[j] != name@ by {
                    assert(self.listed_names()[j] == self.native@[j].name@);
                }
                Some(self.native[i].duplicate())
            },
            None => match find_by_name(&self.alternate, name) {
                Some(j) => {
                    let ghost k = native_names().len() + j;
                    assert(self.listed_names()[k] == name@);
                    assert(self.listed_infos()[k] == info_view(self.alternate@[j as int]));
                    assert forall|m: int| 0 <= m < k implies self.listed_names()[m] != name@ by {
                        if m < native_names().len() {
                            assert(self.listed_names()[m] == names_of(self.native@)[m]);
                            if names_of(self.native@)[m] == name@ {
                                assert(names_of(self.native@).contains(name@));
                            }
                        } else {
                            assert(self.listed_names()[m] == self.alternate@[m - native_names().len()].name@);
                        }
                    }
                    Some(self.alternate[j].duplicate())
                },
                None => {
                    assert(!self.listed_names().contains(name@)) by {
                        if self.listed_names().contains(name@) {
                            let k = choose|k: int|
                                0 <= k < self.listed_names().len() && self.listed_names()[k] == name@;
                            if k < native_names().len() {
                                assert(names_of(self.native@)[k] == name@);
                            } else {
                                assert(names_of(self.alternate@)[k - native_names().len()] == name@);
                            }
                        }
                    }
                    None
                },
            },
        }
    }
}

} // verus!
