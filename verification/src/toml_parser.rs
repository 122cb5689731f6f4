//! The template parser: reads a declarative stack-template document into a
//! structured model — the folder tree flattened to paths, per-ecosystem
//! dependency lists, and per-ecosystem script maps. Reading the concrete TOML
//! text into a document tree is delegated to the `toml` crate; everything the
//! schema means is decided here, on the tree.

use vstd::prelude::*;
use vstd::string::StringExecFns;
use crate::doc_tree::{
    doc_lookup, doc_view, docs_view, entries_view, lemma_docs_view, lemma_entries_view, Doc,
    DocValue,
};
use crate::module::{then_wf, Module, ModuleView};
use crate::str_equal;

verus! {

/// Makes Verus aware of the `toml` crate's value type, which the conversion
/// into the document tree reads.
#[verifier::external_type_specification]
#[verifier::external_body]
pub struct ExTomlValue(toml::Value);

/// Why a template document was rejected.
#[derive(Debug, Clone, PartialEq)]
pub enum TemplateParseError {
    /// The document text is not a well-formed document at all.
    InvalidDocument,
    /// A required field is absent; the payload names it.
    MissingField(String),
    /// A field is present but of the wrong shape; the payload names it.
    MalformedField(String),
}

/// The mathematical value of a `TemplateParseError`.
pub enum TemplateParseErrorView {
    InvalidDocument,
    MissingField(Seq<char>),
    MalformedField(Seq<char>),
}

impl View for TemplateParseError {
    type V = TemplateParseErrorView;

    open spec fn view(&self) -> TemplateParseErrorView {
        match self {
            TemplateParseError::InvalidDocument => TemplateParseErrorView::InvalidDocument,
            TemplateParseError::MissingField(f) => TemplateParseErrorView::MissingField(f@),
            TemplateParseError::MalformedField(f) => TemplateParseErrorView::MalformedField(f@),
        }
    }
}

/// A list of strings, if every element of the list is a string.
pub open spec fn spec_str_list(vs: Seq<Doc>) -> Option<Seq<Seq<char>>>
    decreases vs.len(),
{
    if vs.len() == 0 {
        Option::Some(Seq::empty())
    } else {
        match (spec_str_list(vs.drop_last()), vs.last()) {
            (Option::Some(pre), Doc::Str(s)) => Option::Some(pre.push(s)),
            _ => Option::None,
        }
    }
}

/// A list of hook commands, if every element is a non-empty list of strings.
pub open spec fn spec_cmd_list(vs: Seq<Doc>) -> Option<Seq<Seq<Seq<char>>>>
    decreases vs.len(),
{
    if vs.len() == 0 {
        Option::Some(Seq::empty())
    } else {
        match spec_cmd_list(vs.drop_last()) {
            Option::Some(pre) => match vs.last() {
                Doc::List(ws) => match spec_str_list(ws) {
                    Option::Some(cmd) => if cmd.len() > 0 {
                        Option::Some(pre.push(cmd))
                    } else {
                        Option::None
                    },
                    Option::None => Option::None,
                },
                _ => Option::None,
            },
            Option::None => Option::None,
        }
    }
}

/// What one dependency record means. `name` is required; `version` defaults
/// to the sentinel that defers to the package manager; `dev` defaults to
/// false; `features` must be a list of strings when present; `then` must be
/// a list of non-empty string lists when present. The first ill-formed field,
/// checked in that order, decides the error.
pub open spec fn spec_dep(es: Seq<(Seq<char>, Doc)>) -> Result<
    ModuleView,
    TemplateParseErrorView,
> {
    if doc_lookup(es, "name"@) is None {
        Result::Err(TemplateParseErrorView::MissingField("name"@))
    } else if !(doc_lookup(es, "name"@)->Some_0 is Str) {
        Result::Err(TemplateParseErrorView::MalformedField("name"@))
    } else if doc_lookup(es, "version"@) matches Option::Some(d) && !(d is Str) {
        Result::Err(TemplateParseErrorView::MalformedField("version"@))
    } else if doc_lookup(es, "dev"@) matches Option::Some(d) && !(d is Bool) {
        Result::Err(TemplateParseErrorView::MalformedField("dev"@))
    } else if doc_lookup(es, "features"@) matches Option::Some(d) && !(d is List
        && spec_str_list(d->List_0) is Some) {
        Result::Err(TemplateParseErrorView::MalformedField("features"@))
    } else if doc_lookup(es, "then"@) matches Option::Some(d) && !(d is List && spec_cmd_list(
        d->List_0,
    ) is Some) {
        Result::Err(TemplateParseErrorView::MalformedField("then"@))
    } else {
        Result::Ok(
            ModuleView {
                name: doc_lookup(es, "name"@)->Some_0->Str_0,
                version: match doc_lookup(es, "version"@) {
                    Option::Some(d) => d->Str_0,
                    Option::None => "latest"@,
                },
                dev: match doc_lookup(es, "dev"@) {
                    Option::Some(d) => d->Bool_0,
                    Option::None => false,
                },
                features: match doc_lookup(es, "features"@) {
                    Option::Some(d) => spec_str_list(d->List_0),
                    Option::None => Option::None,
                },
                then_cmds: match doc_lookup(es, "then"@) {
                    Option::Some(d) => spec_cmd_list(d->List_0),
                    Option::None => Option::None,
                },
            },
        )
    }
}

/// What a dependency record that is not a table means.
pub open spec fn spec_dep_doc(d: Doc) -> Result<ModuleView, TemplateParseErrorView> {
    match d {
        Doc::Table(es) => spec_dep(es),
        _ => Result::Err(TemplateParseErrorView::MalformedField("deps"@)),
    }
}

/// A dependency list, in document order; the first ill-formed record decides
/// the error.
pub open spec fn spec_dep_list(vs: Seq<Doc>) -> Result<Seq<ModuleView>, TemplateParseErrorView>
    decreases vs.len(),
{
    if vs.len() == 0 {
        Result::Ok(Seq::empty())
    } else {
        match spec_dep_list(vs.drop_last()) {
            Result::Ok(pre) => match spec_dep_doc(vs.last()) {
                Result::Ok(m) => Result::Ok(pre.push(m)),
                Result::Err(e) => Result::Err(e),
            },
            Result::Err(e) => Result::Err(e),
        }
    }
}

/// Any element that is not a string makes the whole list ill-formed.
proof fn lemma_str_list_none(vs: Seq<Doc>, i: int)
    requires
        0 <= i < vs.len(),
        !(vs[i] is Str),
    ensures
        spec_str_list(vs) is None,
    decreases vs.len(),
{
    if i < vs.len() - 1 {
        lemma_str_list_none(vs.drop_last(), i);
    }
}

/// A well-formed prefix extends by one element.
proof fn lemma_take_succ<A>(s: Seq<A>, i: int)
    requires
        0 <= i < s.len(),
    ensures
        s.take(i + 1).drop_last() =~= s.take(i),
        s.take(i + 1).last() == s[i],
{
}

/// Every command in a well-formed hook list is non-empty.
proof fn lemma_cmd_list_nonempty(vs: Seq<Doc>)
    ensures
        spec_cmd_list(vs) matches Option::Some(cs) ==> forall|i: int|
            0 <= i < cs.len() ==> cs[i].len() > 0,
    decreases vs.len(),
{
    if vs.len() > 0 {
        lemma_cmd_list_nonempty(vs.drop_last());
    }
}

/// Reads a list node whose elements must all be strings.
#[verifier::loop_isolation(false)]
fn extract_str_list(vs: &Vec<DocValue>) -> (r: Option<Vec<String>>)
    ensures
        match r {
            Option::Some(ss) => spec_str_list(docs_view(vs@)) == Option::Some(ss.deep_view()),
            Option::None => spec_str_list(docs_view(vs@)) is None,
        },
{
    proof {
        lemma_docs_view(vs@);
    }
    let ghost ds = docs_view(vs@);
    let mut out: Vec<String> = Vec::new();
    let mut i: usize = 0;
    while i < vs.len()
        invariant
            i <= vs@.len(),
            spec_str_list(ds.take(i as int)) == Option::Some(out.deep_view()),
        decreases vs@.len() - i,
    {
        match &vs[i] {
            DocValue::Str(s) => {
                let ghost pre = out.deep_view();
                out.push(s.clone());
                proof {
                    lemma_take_succ(ds, i as int);
                    assert(doc_view(vs@[i as int]) == Doc::Str(s@));
                    assert(out.deep_view() =~= pre.push(s@));
                }
            },
            _ => {
                proof {
                    assert(doc_view(vs@[i as int]) == ds[i as int]);
                    lemma_str_list_none(ds, i as int);
                }
                return Option::None;
            },
        }
        i = i + 1;
    }
    proof {
        assert(ds.take(vs@.len() as int) =~= ds);
    }
    Option::Some(out)
}

/// Reads a list node whose elements must all be non-empty string lists.
#[verifier::loop_isolation(false)]
fn extract_cmd_list(vs: &Vec<DocValue>) -> (r: Option<Vec<Vec<String>>>)
    ensures
        match r {
            Option::Some(cs) => spec_cmd_list(docs_view(vs@)) == Option::Some(cs.deep_view()),
            Option::None => spec_cmd_list(docs_view(vs@)) is None,
        },
{
    proof {
        lemma_docs_view(vs@);
    }
    let ghost ds = docs_view(vs@);
    let mut out: Vec<Vec<String>> = Vec::new();
    let mut i: usize = 0;
    while i < vs.len()
        invariant
            i <= vs@.len(),
            spec_cmd_list(ds.take(i as int)) == Option::Some(out.deep_view()),
        decreases vs@.len() - i,
    {
        match &vs[i] {
            DocValue::List(ws) => {
                proof {
                    assert(doc_view(vs@[i as int]) == Doc::List(docs_view(ws@)));
                }
                match extract_str_list(ws) {
                    Option::Some(cmd) => {
                        if cmd.len() == 0 {
                            proof {
                                lemma_cmd_list_none(ds, i as int);
                            }
                            return Option::None;
                        }
                        let ghost pre = out.deep_view();
                        let ghost cmdv = cmd.deep_view();
                        out.push(cmd);
                        proof {
                            lemma_take_succ(ds, i as int);
                            assert(out.deep_view() =~= pre.push(cmdv));
                        }
                    },
                    Option::None => {
                        proof {
                            lemma_cmd_list_none(ds, i as int);
                        }
                        return Option::None;
                    },
                }
            },
            _ => {
                proof {
                    lemma_cmd_list_none(ds, i as int);
                }
                return Option::None;
            },
        }
        i = i + 1;
    }
    proof {
        assert(ds.take(vs@.len() as int) =~= ds);
    }
    Option::Some(out)
}

/// Any ill-formed element makes the whole hook list ill-formed.
proof fn lemma_cmd_list_none(vs: Seq<Doc>, i: int)
    requires
        0 <= i < vs.len(),
        !(vs[i] is List && (spec_str_list(vs[i]->List_0) matches Option::Some(cmd)
            && cmd.len() > 0)),
    ensures
        spec_cmd_list(vs) is None,
    decreases vs.len(),
{
    if i < vs.len() - 1 {
        lemma_cmd_list_none(vs.drop_last(), i);
    }
}

/// Reads one dependency record.
fn parse_dep(d: &DocValue) -> (r: Result<Module, TemplateParseError>)
    ensures
        match r {
            Result::Ok(m) => spec_dep_doc(d@) == Result::<ModuleView,
                TemplateParseErrorView,
            >::Ok(m@) && m.wf(),
            Result::Err(e) => spec_dep_doc(d@) == Result::<ModuleView,
                TemplateParseErrorView,
            >::Err(e@),
        },
{
    match d {
        DocValue::Table(raw) => {
            proof {
                assert(d@ == Doc::Table(entries_view(raw@)));
            }
            let ghost es = entries_view(raw@);
            let name: String = match d.get("name") {
                Option::None => {
                    return Result::Err(TemplateParseError::MissingField("name".to_owned()));
                },
                Option::Some(DocValue::Str(s)) => s.clone(),
                Option::Some(other) => {
                    proof {
                        assert(!(doc_lookup(es, "name"@)->Some_0 is Str));
                    }
                    return Result::Err(TemplateParseError::MalformedField("name".to_owned()));
                },
            };
            let version: String = match d.get("version") {
                Option::None => "latest".to_owned(),
                Option::Some(DocValue::Str(s)) => s.clone(),
                Option::Some(other) => {
                    return Result::Err(TemplateParseError::MalformedField("version".to_owned()));
                },
            };
            let dev: bool = match d.get("dev") {
                Option::None => false,
                Option::Some(DocValue::Bool(b)) => *b,
                Option::Some(other) => {
                    return Result::Err(TemplateParseError::MalformedField("dev".to_owned()));
                },
            };
            let features: Option<Vec<String>> = match d.get("features") {
                Option::None => Option::None,
                Option::Some(DocValue::List(ws)) => match extract_str_list(ws) {
                    Option::Some(ss) => Option::Some(ss),
                    Option::None => {
                        return Result::Err(
                            TemplateParseError::MalformedField("features".to_owned()),
                        );
                    },
                },
                Option::Some(other) => {
                    return Result::Err(TemplateParseError::MalformedField("features".to_owned()));
                },
            };
            let then_cmds: Option<Vec<Vec<String>>> = match d.get("then") {
                Option::None => Option::None,
                Option::Some(DocValue::List(ws)) => {
                    proof {
                        lemma_cmd_list_nonempty(docs_view(ws@));
                    }
                    match extract_cmd_list(ws) {
                        Option::Some(cs) => Option::Some(cs),
                        Option::None => {
                            return Result::Err(
                                TemplateParseError::MalformedField("then".to_owned()),
                            );
                        },
                    }
                },
                Option::Some(other) => {
                    return Result::Err(TemplateParseError::MalformedField("then".to_owned()));
                },
            };
            let m = Module::new(name, version, dev, then_cmds, features);
            proof {
                assert(spec_dep(es) == Result::<ModuleView, TemplateParseErrorView>::Ok(m@));
            }
            Result::Ok(m)
        },
        _ => Result::Err(TemplateParseError::MalformedField("deps".to_owned())),
    }
}

/// The first ill-formed record decides the error for the whole list.
proof fn lemma_dep_list_err(vs: Seq<Doc>, i: int)
    requires
        0 <= i < vs.len(),
        spec_dep_list(vs.take(i)) is Ok,
        spec_dep_doc(vs[i]) is Err,
    ensures
        spec_dep_list(vs) == Result::<Seq<ModuleView>, TemplateParseErrorView>::Err(
            spec_dep_doc(vs[i])->Err_0,
        ),
    decreases vs.len(),
{
    if i == vs.len() - 1 {
        assert(vs.take(i) =~= vs.drop_last());
    } else {
        assert(vs.drop_last().take(i) =~= vs.take(i));
        assert(vs.drop_last()[i] == vs[i]);
        lemma_dep_list_err(vs.drop_last(), i);
    }
}

/// Reads an array of dependency records, in document order.
#[verifier::loop_isolation(false)]
fn format_deps(entries: &Vec<DocValue>) -> (r: Result<Vec<Module>, TemplateParseError>)
    ensures
        match r {
            Result::Ok(ms) => spec_dep_list(docs_view(entries@)) == Result::<Seq<ModuleView>,
                TemplateParseErrorView,
            >::Ok(ms.deep_view()) && (forall|i: int|
                0 <= i < ms@.len() ==> (#[trigger] ms@[i]).wf()),
            Result::Err(e) => spec_dep_list(docs_view(entries@)) == Result::<Seq<ModuleView>,
                TemplateParseErrorView,
            >::Err(e@),
        },
{
    proof {
        lemma_docs_view(entries@);
    }
    let ghost ds = docs_view(entries@);
    let mut out: Vec<Module> = Vec::new();
    proof {
        assert(ds.take(0) =~= Seq::<Doc>::empty());
        assert(out.deep_view() =~= Seq::<ModuleView>::empty());
    }
    let mut i: usize = 0;
    while i < entries.len()
        invariant
            i <= entries@.len(),
            out@.len() == i,
            spec_dep_list(ds.take(i as int)) == Result::<Seq<ModuleView>,
                TemplateParseErrorView,
            >::Ok(out.deep_view()),
            forall|k: int| 0 <= k < i ==> (#[trigger] out@[k]).wf(),
        decreases entries@.len() - i,
    {
        match parse_dep(&entries[i]) {
            Result::Ok(m) => {
                let ghost pre = out.deep_view();
                let ghost mv = m@;
                proof {
                    lemma_take_succ(ds, i as int);
                }
                out.push(m);
                proof {
                    assert(out.deep_view() =~= pre.push(mv));
                }
            },
            Result::Err(e) => {
                proof {
                    lemma_dep_list_err(ds, i as int);
                }
                return Result::Err(e);
            },
        }
        i = i + 1;
    }
    proof {
        assert(ds.take(entries@.len() as int) =~= ds);
    }
    Result::Ok(out)
}

/// The first value bound to a key in an association list, if any.
pub open spec fn assoc_get<V>(entries: Seq<(Seq<char>, V)>, key: Seq<char>) -> Option<V>
    decreases entries.len(),
{
    if entries.len() == 0 {
        Option::None
    } else if entries.first().0 == key {
        Option::Some(entries.first().1)
    } else {
        assoc_get(entries.drop_first(), key)
    }
}

/// The per-ecosystem dependency lists of a template, in ecosystem order.
#[derive(Debug)]
pub struct Dependencies {
    entries: Vec<(String, Vec<Module>)>,
}

impl View for Dependencies {
    type V = Seq<(Seq<char>, Seq<ModuleView>)>;

    closed spec fn view(&self) -> Seq<(Seq<char>, Seq<ModuleView>)> {
        self.entries.deep_view()
    }
}

impl Dependencies {
    /// Every module in every list has well-formed hooks.
    pub open spec fn wf(&self) -> bool {
        forall|i: int, j: int|
            0 <= i < self@.len() && 0 <= j < self@[i].1.len() ==> then_wf(
                #[trigger] self@[i].1[j].then_cmds,
            )
    }

    /// The dependency list of one ecosystem, if the template mentions it.
    pub fn get<'a>(&'a self, key: &str) -> (r: Option<&'a Vec<Module>>)
        ensures
            match r {
                Option::Some(ms) => assoc_get(self@, key@) == Option::Some(ms.deep_view()),
                Option::None => assoc_get(self@, key@) is None,
            },
    {
        assoc_find_deps(&self.entries, key)
    }

    /// Whether the template mentions an ecosystem at all.
    pub fn contains_key(&self, key: &str) -> (r: bool)
        ensures
            r == (assoc_get(self@, key@) is Some),
    {
        match self.get(key) {
            Option::Some(_) => true,
            Option::None => false,
        }
    }
}

/// Finds the first entry with the given key in a dependency list.
#[verifier::loop_isolation(false)]
fn assoc_find_deps<'a>(entries: &'a Vec<(String, Vec<Module>)>, key: &str) -> (r: Option<
    &'a Vec<Module>,
>)
    ensures
        match r {
            Option::Some(ms) => assoc_get(entries.deep_view(), key@) == Option::Some(
                ms.deep_view(),
            ),
            Option::None => assoc_get(entries.deep_view(), key@) is None,
        },
{
    let ghost es = entries.deep_view();
    proof {
        assert(es.skip(0) =~= es);
    }
    let mut i: usize = 0;
    while i < entries.len()
        invariant
            i <= entries@.len(),
            es.len() == entries@.len(),
            assoc_get(es, key@) == assoc_get(es.skip(i as int), key@),
            forall|k: int| 0 <= k < i ==> es[k].0 != key@,
        decreases entries@.len() - i,
    {
        proof {
            assert(es[i as int] == (entries@[i as int].0@, entries@[i as int].1.deep_view()));
            assert(es.skip(i as int).first() == es[i as int]);
        }
        if str_equal(entries[i].0.as_str(), key) {
            return Option::Some(&entries[i].1);
        }
        proof {
            assert(es.skip(i as int).drop_first() =~= es.skip(i + 1));
        }
        i = i + 1;
    }
    proof {
        assert(es.skip(entries@.len() as int) =~= Seq::<(Seq<char>, Seq<ModuleView>)>::empty());
    }
    Option::None
}

/// The ecosystems the schema knows; keys outside this set are ignored.
pub open spec fn known_ecosystems() -> Seq<Seq<char>> {
    seq!["npm"@, "cargo"@, "composer"@]
}

/// The dependency lists gathered for the given ecosystem keys, in key order.
/// A missing ecosystem contributes an empty list; one bound to anything but
/// an array is ill-formed, and the key names the field in the error.
pub open spec fn spec_fetch_deps(keys: Seq<Seq<char>>, es: Seq<(Seq<char>, Doc)>) -> Result<
    Seq<(Seq<char>, Seq<ModuleView>)>,
    TemplateParseErrorView,
>
    decreases keys.len(),
{
    if keys.len() == 0 {
        Result::Ok(Seq::empty())
    } else {
        match spec_fetch_deps(keys.drop_last(), es) {
            Result::Ok(pre) => {
                match doc_lookup(es, keys.last()) {
                    Option::None => Result::Ok(pre.push((keys.last(), Seq::empty()))),
                    Option::Some(d) => if !(d is List) {
                        Result::Err(TemplateParseErrorView::MalformedField(keys.last()))
                    } else {
                        match spec_dep_list(d->List_0) {
                            Result::Ok(ms) => Result::Ok(pre.push((keys.last(), ms))),
                            Result::Err(e) => Result::Err(e),
                        }
                    },
                }
            },
            Result::Err(e) => Result::Err(e),
        }
    }
}

/// The first failing key decides the error for the whole gathering.
proof fn lemma_fetch_deps_err(
    keys: Seq<Seq<char>>,
    es: Seq<(Seq<char>, Doc)>,
    i: int,
    e: TemplateParseErrorView,
)
    requires
        0 <= i < keys.len(),
        spec_fetch_deps(keys.take(i), es) is Ok,
        doc_lookup(es, keys[i]) matches Option::Some(d) && (if !(d is List) {
            e == TemplateParseErrorView::MalformedField(keys[i])
        } else {
            spec_dep_list(d->List_0) == Result::<Seq<ModuleView>, TemplateParseErrorView>::Err(e)
        }),
    ensures
        spec_fetch_deps(keys, es) == Result::<Seq<(Seq<char>, Seq<ModuleView>)>,
            TemplateParseErrorView,
        >::Err(e),
    decreases keys.len(),
{
    if i == keys.len() - 1 {
        assert(keys.take(i) =~= keys.drop_last());
    } else {
        assert(keys.drop_last().take(i) =~= keys.take(i));
        assert(keys.drop_last()[i] == keys[i]);
        lemma_fetch_deps_err(keys.drop_last(), es, i, e);
    }
}

/// The `deps` table of a template document: required, and gathered over the
/// known ecosystems.
pub open spec fn spec_parse_deps(es: Seq<(Seq<char>, Doc)>) -> Result<
    Seq<(Seq<char>, Seq<ModuleView>)>,
    TemplateParseErrorView,
> {
    match doc_lookup(es, "deps"@) {
        Option::None => Result::Err(TemplateParseErrorView::MissingField("deps"@)),
        Option::Some(d) => if !(d is Table) {
            Result::Err(TemplateParseErrorView::MalformedField("deps"@))
        } else {
            spec_fetch_deps(known_ecosystems(), d->Table_0)
        },
    }
}

/// The known ecosystem keys, in their fixed order.
pub fn ecosystem_keys() -> (r: Vec<String>)
    ensures
        r.deep_view() == known_ecosystems(),
{
    let r = crate::pipeline::args3("npm", "cargo", "composer");
    proof {
        assert(r.deep_view() =~= known_ecosystems());
    }
    r
}

/// One ecosystem's scripts: names bound to script bodies, in document order.
#[derive(Debug)]
pub struct StringMap {
    entries: Vec<(String, String)>,
}

impl View for StringMap {
    type V = Seq<(Seq<char>, Seq<char>)>;

    closed spec fn view(&self) -> Seq<(Seq<char>, Seq<char>)> {
        self.entries.deep_view()
    }
}

impl DeepView for StringMap {
    type V = Seq<(Seq<char>, Seq<char>)>;

    open spec fn deep_view(&self) -> Seq<(Seq<char>, Seq<char>)> {
        self.view()
    }
}

impl StringMap {
    /// The script bound to a name, if any.
    pub fn get<'a>(&'a self, key: &str) -> (r: Option<&'a String>)
        ensures
            match r {
                Option::Some(v) => assoc_get(self@, key@) == Option::Some(v@),
                Option::None => assoc_get(self@, key@) is None,
            },
    {
        assoc_find_str(&self.entries, key)
    }

    /// Whether a script of this name is declared.
    pub fn contains_key(&self, key: &str) -> (r: bool)
        ensures
            r == (assoc_get(self@, key@) is Some),
    {
        match self.get(key) {
            Option::Some(_) => true,
            Option::None => false,
        }
    }

    /// The entries of the map, in document order.
    pub fn entries(&self) -> (r: &Vec<(String, String)>)
        ensures
            r.deep_view() == self@,
    {
        &self.entries
    }

    /// Copies the map, keeping its value.
    pub fn duplicate(&self) -> (r: StringMap)
        ensures
            r@ == self@,
    {
        let entries = crate::pipeline::clone_string_pairs(&self.entries);
        StringMap { entries }
    }
}

/// Finds the first entry with the given key in a string map.
#[verifier::loop_isolation(false)]
fn assoc_find_str<'a>(entries: &'a Vec<(String, String)>, key: &str) -> (r: Option<&'a String>)
    ensures
        match r {
            Option::Some(v) => assoc_get(entries.deep_view(), key@) == Option::Some(v@),
            Option::None => assoc_get(entries.deep_view(), key@) is None,
        },
{
    let ghost es = entries.deep_view();
    proof {
        assert(es.skip(0) =~= es);
    }
    let mut i: usize = 0;
    while i < entries.len()
        invariant
            i <= entries@.len(),
            es.len() == entries@.len(),
            assoc_get(es, key@) == assoc_get(es.skip(i as int), key@),
        decreases entries@.len() - i,
    {
        proof {
            assert(es[i as int] == (entries@[i as int].0@, entries@[i as int].1@));
            assert(es.skip(i as int).first() == es[i as int]);
        }
        if str_equal(entries[i].0.as_str(), key) {
            return Option::Some(&entries[i].1);
        }
        proof {
            assert(es.skip(i as int).drop_first() =~= es.skip(i + 1));
        }
        i = i + 1;
    }
    proof {
        assert(es.skip(entries@.len() as int) =~= Seq::<(Seq<char>, Seq<char>)>::empty());
    }
    Option::None
}

/// The per-ecosystem script maps of a template, in ecosystem order.
#[derive(Debug)]
pub struct Scripts {
    entries: Vec<(String, StringMap)>,
}

impl View for Scripts {
    type V = Seq<(Seq<char>, Seq<(Seq<char>, Seq<char>)>)>;

    closed spec fn view(&self) -> Seq<(Seq<char>, Seq<(Seq<char>, Seq<char>)>)> {
        self.entries.deep_view()
    }
}

impl Scripts {
    /// The script map of one ecosystem, if the template declares any.
    #[verifier::loop_isolation(false)]
    pub fn get<'a>(&'a self, key: &str) -> (r: Option<&'a StringMap>)
        ensures
            match r {
                Option::Some(m) => assoc_get(self@, key@) == Option::Some(m@),
                Option::None => assoc_get(self@, key@) is None,
            },
    {
        let ghost es = self@;
        proof {
            assert(es.skip(0) =~= es);
        }
        let mut i: usize = 0;
        while i < self.entries.len()
            invariant
                i <= self.entries@.len(),
                es.len() == self.entries@.len(),
                assoc_get(es, key@) == assoc_get(es.skip(i as int), key@),
            decreases self.entries@.len() - i,
        {
            proof {
                assert(es[i as int] == (
                    self.entries@[i as int].0@,
                    self.entries@[i as int].1.deep_view(),
                ));
                assert(es.skip(i as int).first() == es[i as int]);
            }
            if str_equal(self.entries[i].0.as_str(), key) {
                return Option::Some(&self.entries[i].1);
            }
            proof {
                assert(es.skip(i as int).drop_first() =~= es.skip(i + 1));
            }
            i = i + 1;
        }
        proof {
            assert(es.skip(self.entries@.len() as int) =~= Seq::<
                (Seq<char>, Seq<(Seq<char>, Seq<char>)>),
            >::empty());
        }
        Option::None
    }

    /// Whether the template declares scripts for an ecosystem.
    pub fn contains_key(&self, key: &str) -> (r: bool)
        ensures
            r == (assoc_get(self@, key@) is Some),
    {
        match self.get(key) {
            Option::Some(_) => true,
            Option::None => false,
        }
    }
}

/// A script table read verbatim: every value must be a string.
pub open spec fn spec_script_table(es: Seq<(Seq<char>, Doc)>) -> Option<
    Seq<(Seq<char>, Seq<char>)>,
>
    decreases es.len(),
{
    if es.len() == 0 {
        Option::Some(Seq::empty())
    } else {
        match (spec_script_table(es.drop_last()), es.last().1) {
            (Option::Some(pre), Doc::Str(s)) => Option::Some(pre.push((es.last().0, s))),
            _ => Option::None,
        }
    }
}

/// Any non-string value makes a script table ill-formed.
proof fn lemma_script_table_none(es: Seq<(Seq<char>, Doc)>, i: int)
    requires
        0 <= i < es.len(),
        !(es[i].1 is Str),
    ensures
        spec_script_table(es) is None,
    decreases es.len(),
{
    if i < es.len() - 1 {
        lemma_script_table_none(es.drop_last(), i);
    }
}

/// The script maps gathered for the given ecosystem keys, in key order; a
/// missing ecosystem is skipped.
pub open spec fn spec_format_scripts(keys: Seq<Seq<char>>, es: Seq<(Seq<char>, Doc)>) -> Result<
    Seq<(Seq<char>, Seq<(Seq<char>, Seq<char>)>)>,
    TemplateParseErrorView,
>
    decreases keys.len(),
{
    if keys.len() == 0 {
        Result::Ok(Seq::empty())
    } else {
        match spec_format_scripts(keys.drop_last(), es) {
            Result::Ok(pre) => match doc_lookup(es, keys.last()) {
                Option::None => Result::Ok(pre),
                Option::Some(d) => if !(d is Table) {
                    Result::Err(TemplateParseErrorView::MalformedField("scripts"@))
                } else {
                    match spec_script_table(d->Table_0) {
                        Option::Some(m) => Result::Ok(pre.push((keys.last(), m))),
                        Option::None => Result::Err(
                            TemplateParseErrorView::MalformedField("scripts"@),
                        ),
                    }
                },
            },
            Result::Err(e) => Result::Err(e),
        }
    }
}

/// The first failing key decides the error for the whole gathering.
proof fn lemma_format_scripts_err(keys: Seq<Seq<char>>, es: Seq<(Seq<char>, Doc)>, i: int)
    requires
        0 <= i < keys.len(),
        spec_format_scripts(keys.take(i), es) is Ok,
        doc_lookup(es, keys[i]) matches Option::Some(d) && !(d is Table && spec_script_table(
            d->Table_0,
        ) is Some),
    ensures
        spec_format_scripts(keys, es) == Result::<
            Seq<(Seq<char>, Seq<(Seq<char>, Seq<char>)>)>,
            TemplateParseErrorView,
        >::Err(TemplateParseErrorView::MalformedField("scripts"@)),
    decreases keys.len(),
{
    if i == keys.len() - 1 {
        assert(keys.take(i) =~= keys.drop_last());
    } else {
        assert(keys.drop_last().take(i) =~= keys.take(i));
        assert(keys.drop_last()[i] == keys[i]);
        lemma_format_scripts_err(keys.drop_last(), es, i);
    }
}

/// Reads one ecosystem's script table verbatim.
#[verifier::loop_isolation(false)]
fn extract_script_table(raw: &Vec<(String, DocValue)>) -> (r: Option<StringMap>)
    ensures
        match r {
            Option::Some(m) => spec_script_table(entries_view(raw@)) == Option::Some(m@),
            Option::None => spec_script_table(entries_view(raw@)) is None,
        },
{
    proof {
        lemma_entries_view(raw@);
    }
    let ghost es = entries_view(raw@);
    let mut out: Vec<(String, String)> = Vec::new();
    proof {
        assert(es.take(0) =~= Seq::<(Seq<char>, Doc)>::empty());
        assert(out.deep_view() =~= Seq::<(Seq<char>, Seq<char>)>::empty());
    }
    let mut i: usize = 0;
    while i < raw.len()
        invariant
            i <= raw@.len(),
            spec_script_table(es.take(i as int)) == Option::Some(out.deep_view()),
        decreases raw@.len() - i,
    {
        proof {
            lemma_take_succ(es, i as int);
        }
        match &raw[i].1 {
            DocValue::Str(s) => {
                let ghost pre = out.deep_view();
                out.push((raw[i].0.clone(), s.clone()));
                proof {
                    assert(doc_view(raw@[i as int].1) == Doc::Str(s@));
                    assert(out.deep_view() =~= pre.push((raw@[i as int].0@, s@)));
                }
            },
            _ => {
                proof {
                    lemma_script_table_none(es, i as int);
                }
                return Option::None;
            },
        }
        i = i + 1;
    }
    proof {
        assert(es.take(raw@.len() as int) =~= es);
    }
    Option::Some(StringMap { entries: out })
}

/// The `scripts` table of a template document: optional; when present, each
/// known ecosystem's entry is a string-to-string table.
pub open spec fn spec_parse_scripts(es: Seq<(Seq<char>, Doc)>) -> Result<
    Option<Seq<(Seq<char>, Seq<(Seq<char>, Seq<char>)>)>>,
    TemplateParseErrorView,
> {
    match doc_lookup(es, "scripts"@) {
        Option::None => Result::Ok(Option::None),
        Option::Some(d) => if !(d is Table) {
            Result::Err(TemplateParseErrorView::MalformedField("scripts"@))
        } else {
            match spec_format_scripts(known_ecosystems(), d->Table_0) {
                Result::Ok(s) => Result::Ok(Option::Some(s)),
                Result::Err(e) => Result::Err(e),
            }
        },
    }
}

/// A path joined from a prefix and one folder name.
pub open spec fn join_path(prefix: Seq<char>, name: Seq<char>) -> Seq<char> {
    if prefix.len() == 0 {
        name
    } else {
        prefix + "/"@ + name
    }
}

/// The paths one named subtree contributes: a leaf node contributes its own
/// root-to-node path; an inner node contributes its descendants' paths.
pub open spec fn spec_sub_paths(name: Seq<char>, children: Doc, prefix: Seq<char>) -> Result<
    Seq<Seq<char>>,
    TemplateParseErrorView,
>
    decreases children, 2int, 0int,
{
    match children {
        Doc::Table(es) => if es.len() == 0 {
            Result::Ok(seq![join_path(prefix, name)])
        } else {
            spec_sub_paths_entries(es, join_path(prefix, name))
        },
        _ => Result::Err(TemplateParseErrorView::MalformedField("subfolders"@)),
    }
}

/// The paths a table of named subtrees contributes, in entry order.
pub open spec fn spec_sub_paths_entries(es: Seq<(Seq<char>, Doc)>, prefix: Seq<char>) -> Result<
    Seq<Seq<char>>,
    TemplateParseErrorView,
>
    decreases es, 1int, es.len(),
{
    if es.len() == 0 {
        Result::Ok(Seq::empty())
    } else {
        match spec_sub_paths_entries(es.drop_last(), prefix) {
            Result::Ok(pre) => match spec_sub_paths(es.last().0, es.last().1, prefix) {
                Result::Ok(tail) => Result::Ok(pre + tail),
                Result::Err(e) => Result::Err(e),
            },
            Result::Err(e) => Result::Err(e),
        }
    }
}

/// The first failing entry decides the error for the whole table.
proof fn lemma_sub_paths_entries_err(es: Seq<(Seq<char>, Doc)>, prefix: Seq<char>, i: int)
    requires
        0 <= i < es.len(),
        spec_sub_paths_entries(es.take(i), prefix) is Ok,
        spec_sub_paths(es[i].0, es[i].1, prefix) is Err,
    ensures
        spec_sub_paths_entries(es, prefix) == Result::<Seq<Seq<char>>,
            TemplateParseErrorView,
        >::Err(spec_sub_paths(es[i].0, es[i].1, prefix)->Err_0),
    decreases es.len(),
{
    if i == es.len() - 1 {
        assert(es.take(i) =~= es.drop_last());
    } else {
        assert(es.drop_last().take(i) =~= es.take(i));
        assert(es.drop_last()[i] == es[i]);
        lemma_sub_paths_entries_err(es.drop_last(), prefix, i);
    }
}

/// Joins a path prefix and one folder name with the path separator.
fn join_path_exec(prefix: &String, name: &String) -> (r: String)
    ensures
        r@ == join_path(prefix@, name@),
{
    if prefix.as_str().is_empty() {
        name.clone()
    } else {
        prefix.clone().concat("/").concat(name.as_str())
    }
}

/// The `subfolders` tree of a template document: optional; when present, a
/// nested table of folder names whose flattening is the list of leaf paths.
pub open spec fn spec_parse_subfolders(es: Seq<(Seq<char>, Doc)>) -> Result<
    Option<Seq<Seq<char>>>,
    TemplateParseErrorView,
> {
    match doc_lookup(es, "subfolders"@) {
        Option::None => Result::Ok(Option::None),
        Option::Some(d) => if !(d is Table) {
            Result::Err(TemplateParseErrorView::MalformedField("subfolders"@))
        } else {
            match spec_sub_paths_entries(d->Table_0, Seq::empty()) {
                Result::Ok(ps) => Result::Ok(Option::Some(ps)),
                Result::Err(e) => Result::Err(e),
            }
        },
    }
}

/// Whether every table anywhere in a document binds each key at most once.
pub open spec fn doc_keys_unique(d: Doc) -> bool
    decreases d, 2int, 0int,
{
    match d {
        Doc::Table(es) => (forall|i: int, j: int|
            0 <= i < j < es.len() ==> (#[trigger] es[i].0) != (#[trigger] es[j].0))
            && entries_keys_unique(es),
        Doc::List(vs) => list_keys_unique(vs),
        _ => true,
    }
}

/// Key uniqueness, pushed through a table's entries.
pub open spec fn entries_keys_unique(es: Seq<(Seq<char>, Doc)>) -> bool
    decreases es, 1int, es.len(),
{
    es.len() == 0 || (entries_keys_unique(es.drop_last()) && doc_keys_unique(es.last().1))
}

/// Key uniqueness, pushed through a list's elements.
pub open spec fn list_keys_unique(vs: Seq<Doc>) -> bool
    decreases vs, 1int, vs.len(),
{
    vs.len() == 0 || (list_keys_unique(vs.drop_last()) && doc_keys_unique(vs.last()))
}

/// What parsing a TOML document yields, as a document tree: a function of
/// the input characters alone; nothing when the text is not a well-formed
/// TOML document.
pub uninterp spec fn toml_doc_of(s: Seq<char>) -> Option<Doc>;

/// Relies on `toml::Value`: each variant is carried over one for one, keys
/// and order as the crate hands them out; floats and datetimes, which the
/// template schema never reads, become `Other`. Called only by `get_table`,
/// whose contract states the result.
#[verifier::external_body]
fn value_to_doc(v: &toml::Value) -> DocValue {
    match v {
        toml::Value::String(s) => DocValue::Str(s.clone()),
        toml::Value::Integer(i) => DocValue::Int(*i),
        toml::Value::Boolean(b) => DocValue::Bool(*b),
        toml::Value::Array(a) => DocValue::List(a.iter().map(value_to_doc).collect()),
        toml::Value::Table(t) => DocValue::Table(
            t.iter().map(|(k, w)| (k.clone(), value_to_doc(w))).collect(),
        ),
        _ => DocValue::Other,
    }
}

/// The mathematical value of a parsed stack template.
pub struct TomlTemplateView {
    pub title: Seq<char>,
    pub subfolders: Option<Seq<Seq<char>>>,
    pub scripts: Option<Seq<(Seq<char>, Seq<(Seq<char>, Seq<char>)>)>>,
    pub dependencies: Seq<(Seq<char>, Seq<ModuleView>)>,
}

/// What a whole template document means: a required string `title`, then
/// the folder tree, the script maps and the dependency lists, the first
/// ill-formed part deciding the error in that order.
pub open spec fn spec_template(es: Seq<(Seq<char>, Doc)>) -> Result<
    TomlTemplateView,
    TemplateParseErrorView,
> {
    if doc_lookup(es, "title"@) is None {
        Result::Err(TemplateParseErrorView::MissingField("title"@))
    } else if !(doc_lookup(es, "title"@)->Some_0 is Str) {
        Result::Err(TemplateParseErrorView::MalformedField("title"@))
    } else {
        match spec_parse_subfolders(es) {
            Result::Err(e) => Result::Err(e),
            Result::Ok(sf) => match spec_parse_scripts(es) {
                Result::Err(e) => Result::Err(e),
                Result::Ok(sc) => match spec_parse_deps(es) {
                    Result::Err(e) => Result::Err(e),
                    Result::Ok(dp) => Result::Ok(
                        TomlTemplateView {
                            title: doc_lookup(es, "title"@)->Some_0->Str_0,
                            subfolders: sf,
                            scripts: sc,
                            dependencies: dp,
                        },
                    ),
                },
            },
        }
    }
}

/// What a document that is not a table means.
pub open spec fn spec_template_doc(d: Doc) -> Result<TomlTemplateView, TemplateParseErrorView> {
    match d {
        Doc::Table(es) => spec_template(es),
        _ => Result::Err(TemplateParseErrorView::MalformedField("document"@)),
    }
}

/// A parsed stack template: its title, the flattened folder paths, the
/// per-ecosystem script maps and the per-ecosystem dependency lists.
#[derive(Debug)]
pub struct TomlTemplate {
    title: String,
    subfolders: Option<Vec<String>>,
    scripts: Option<Scripts>,
    dependencies: Dependencies,
}

impl View for TomlTemplate {
    type V = TomlTemplateView;

    closed spec fn view(&self) -> TomlTemplateView {
        TomlTemplateView {
            title: self.title@,
            subfolders: self.subfolders.deep_view(),
            scripts: match self.scripts {
                Option::Some(s) => Option::Some(s@),
                Option::None => Option::None,
            },
            dependencies: self.dependencies@,
        }
    }
}

impl TomlTemplate {
    /// Every dependency list of the template is well formed.
    pub open spec fn wf(&self) -> bool {
        forall|i: int, j: int|
            0 <= i < self@.dependencies.len() && 0 <= j < self@.dependencies[i].1.len()
                ==> then_wf(#[trigger] self@.dependencies[i].1[j].then_cmds)
    }

    /// Relies on `str::parse::<toml::Table>` of the `toml` crate: parsing is
    /// a function of the input characters alone; a parsed document is a
    /// table; TOML rejects a table that binds one key twice, so every table
    /// in the result has distinct keys.
    #[verifier::external_body]
    pub fn get_table(document: &str) -> (r: Option<DocValue>)
        ensures
            match r {
                Option::Some(d) => toml_doc_of(document@) == Option::Some(d@) && d@ is Table
                    && doc_keys_unique(d@),
                Option::None => toml_doc_of(document@) is None,
            },
    {
        match document.parse::<toml::Table>() {
            Ok(t) => Some(value_to_doc(&toml::Value::Table(t))),
            Err(_) => None,
        }
    }

    /// Gathers the dependency lists for the given ecosystem keys from a
    /// `deps` table node, in key order.
    #[verifier::loop_isolation(false)]
    pub fn fetch_deps(keys: &Vec<String>, deps: &DocValue) -> (r: Result<
        Dependencies,
        TemplateParseError,
    >)
        ensures
            match deps@ {
                Doc::Table(es) => match r {
                    Result::Ok(d) => spec_fetch_deps(keys.deep_view(), es) == Result::<
                        Seq<(Seq<char>, Seq<ModuleView>)>,
                        TemplateParseErrorView,
                    >::Ok(d@) && d.wf(),
                    Result::Err(e) => spec_fetch_deps(keys.deep_view(), es) == Result::<
                        Seq<(Seq<char>, Seq<ModuleView>)>,
                        TemplateParseErrorView,
                    >::Err(e@),
                },
                _ => r matches Result::Err(e) && e@ == TemplateParseErrorView::MalformedField(
                    "deps"@,
                ),
            },
    {
        match deps {
            DocValue::Table(raw) => {
                proof {
                    assert(deps@ == Doc::Table(entries_view(raw@)));
                }
                let ghost es = entries_view(raw@);
                let ghost ks = keys.deep_view();
                let mut out: Vec<(String, Vec<Module>)> = Vec::new();
                proof {
                    assert(ks.take(0) =~= Seq::<Seq<char>>::empty());
                    assert(out.deep_view() =~= Seq::<(Seq<char>, Seq<ModuleView>)>::empty());
                }
                let mut i: usize = 0;
                while i < keys.len()
                    invariant
                        i <= keys@.len(),
                        out@.len() == i,
                        spec_fetch_deps(ks.take(i as int), es) == Result::<
                            Seq<(Seq<char>, Seq<ModuleView>)>,
                            TemplateParseErrorView,
                        >::Ok(out.deep_view()),
                        forall|a: int, b: int|
                            0 <= a < out.deep_view().len() && 0 <= b
                                < out.deep_view()[a].1.len() ==> then_wf(
                                #[trigger] out.deep_view()[a].1[b].then_cmds,
                            ),
                    decreases keys@.len() - i,
                {
                    proof {
                        lemma_take_succ(ks, i as int);
                        assert(keys@[i as int]@ == ks[i as int]);
                    }
                    let ghost pre = out.deep_view();
                    let packages: Vec<Module> = match deps.get(keys[i].as_str()) {
                        Option::None => {
                            let v: Vec<Module> = Vec::new();
                            proof {
                                assert(v.deep_view() =~= Seq::<ModuleView>::empty());
                            }
                            v
                        },
                        Option::Some(DocValue::List(entries)) => {
                            proof {
                                assert(doc_lookup(es, ks[i as int])->Some_0 == Doc::List(
                                    docs_view(entries@),
                                ));
                            }
                            match format_deps(entries) {
                                Result::Ok(ms) => ms,
                                Result::Err(e) => {
                                    proof {
                                        lemma_fetch_deps_err(ks, es, i as int, e@);
                                    }
                                    return Result::Err(e);
                                },
                            }
                        },
                        Option::Some(other) => {
                            let field = keys[i].clone();
                            proof {
                                lemma_fetch_deps_err(
                                    ks,
                                    es,
                                    i as int,
                                    TemplateParseErrorView::MalformedField(ks[i as int]),
                                );
                            }
                            return Result::Err(TemplateParseError::MalformedField(field));
                        },
                    };
                    let ghost pmods = packages@;
                    let ghost pk = packages.deep_view();
                    proof {
                        assert forall|b: int| 0 <= b < pk.len() implies then_wf(
                            pk[b].then_cmds,
                        ) by {
                            assert(pk[b] == pmods[b]@);
                            assert(pmods[b].wf());
                        }
                    }
                    out.push((keys[i].clone(), packages));
                    proof {
                        assert(out.deep_view() =~= pre.push((ks[i as int], pk)));
                        assert forall|a: int, b: int|
                            0 <= a < out.deep_view().len() && 0 <= b
                                < out.deep_view()[a].1.len() implies then_wf(
                            out.deep_view()[a].1[b].then_cmds,
                        ) by {
                            if a < pre.len() {
                                assert(out.deep_view()[a] == pre[a]);
                                assert(then_wf(pre[a].1[b].then_cmds));
                            } else {
                                assert(out.deep_view()[a] == (ks[i as int], pk));
                            }
                        }
                    }
                    i = i + 1;
                }
                proof {
                    assert(ks.take(keys@.len() as int) =~= ks);
                }
                Result::Ok(Dependencies { entries: out })
            },
            _ => Result::Err(TemplateParseError::MalformedField("deps".to_owned())),
        }
    }

    /// Reads the dependency lists of a whole template document.
    pub fn parse_deps(table: &DocValue) -> (r: Result<Dependencies, TemplateParseError>)
        ensures
            match table@ {
                Doc::Table(es) => match r {
                    Result::Ok(d) => spec_parse_deps(es) == Result::<
                        Seq<(Seq<char>, Seq<ModuleView>)>,
                        TemplateParseErrorView,
                    >::Ok(d@) && d.wf(),
                    Result::Err(e) => spec_parse_deps(es) == Result::<
                        Seq<(Seq<char>, Seq<ModuleView>)>,
                        TemplateParseErrorView,
                    >::Err(e@),
                },
                _ => r matches Result::Err(e) && e@ == TemplateParseErrorView::MalformedField(
                    "document"@,
                ),
            },
    {
        match table {
            DocValue::Table(raw) => {
                proof {
                    assert(table@ == Doc::Table(entries_view(raw@)));
                }
                match table.get("deps") {
                    Option::None => Result::Err(
                        TemplateParseError::MissingField("deps".to_owned()),
                    ),
                    Option::Some(deps) => {
                        match deps {
                            DocValue::Table(_) => {
                                let keys = ecosystem_keys();
                                Self::fetch_deps(&keys, deps)
                            },
                            _ => Result::Err(
                                TemplateParseError::MalformedField("deps".to_owned()),
                            ),
                        }
                    },
                }
            },
            _ => Result::Err(TemplateParseError::MalformedField("document".to_owned())),
        }
    }

    /// Gathers the script maps for the given ecosystem keys from a
    /// `scripts` table node.
    #[verifier::loop_isolation(false)]
    pub fn format_scripts(keys: &Vec<String>, scripts: &DocValue) -> (r: Result<
        Scripts,
        TemplateParseError,
    >)
        ensures
            match scripts@ {
                Doc::Table(es) => match r {
                    Result::Ok(s) => spec_format_scripts(keys.deep_view(), es) == Result::<
                        Seq<(Seq<char>, Seq<(Seq<char>, Seq<char>)>)>,
                        TemplateParseErrorView,
                    >::Ok(s@),
                    Result::Err(e) => spec_format_scripts(keys.deep_view(), es) == Result::<
                        Seq<(Seq<char>, Seq<(Seq<char>, Seq<char>)>)>,
                        TemplateParseErrorView,
                    >::Err(e@),
                },
                _ => r matches Result::Err(e) && e@ == TemplateParseErrorView::MalformedField(
                    "scripts"@,
                ),
            },
    {
        match scripts {
            DocValue::Table(raw) => {
                proof {
                    assert(scripts@ == Doc::Table(entries_view(raw@)));
                }
                let ghost es = entries_view(raw@);
                let ghost ks = keys.deep_view();
                let mut out: Vec<(String, StringMap)> = Vec::new();
                proof {
                    assert(ks.take(0) =~= Seq::<Seq<char>>::empty());
                    assert(out.deep_view() =~= Seq::<
                        (Seq<char>, Seq<(Seq<char>, Seq<char>)>),
                    >::empty());
                }
                let mut i: usize = 0;
                while i < keys.len()
                    invariant
                        i <= keys@.len(),
                        spec_format_scripts(ks.take(i as int), es) == Result::<
                            Seq<(Seq<char>, Seq<(Seq<char>, Seq<char>)>)>,
                            TemplateParseErrorView,
                        >::Ok(out.deep_view()),
                    decreases keys@.len() - i,
                {
                    proof {
                        lemma_take_succ(ks, i as int);
                        assert(keys@[i as int]@ == ks[i as int]);
                    }
                    match scripts.get(keys[i].as_str()) {
                        Option::None => (),
                        Option::Some(DocValue::Table(inner)) => {
                            proof {
                                assert(doc_lookup(es, ks[i as int])->Some_0 == Doc::Table(
                                    entries_view(inner@),
                                ));
                            }
                            match extract_script_table(inner) {
                                Option::Some(m) => {
                                    let ghost pre = out.deep_view();
                                    let ghost mv = m@;
                                    out.push((keys[i].clone(), m));
                                    proof {
                                        assert(out.deep_view() =~= pre.push(
                                            (ks[i as int], mv),
                                        ));
                                    }
                                },
                                Option::None => {
                                    proof {
                                        lemma_format_scripts_err(ks, es, i as int);
                                    }
                                    return Result::Err(
                                        TemplateParseError::MalformedField(
                                            "scripts".to_owned(),
                                        ),
                                    );
                                },
                            }
                        },
                        Option::Some(other) => {
                            proof {
                                lemma_format_scripts_err(ks, es, i as int);
                            }
                            return Result::Err(
                                TemplateParseError::MalformedField("scripts".to_owned()),
                            );
                        },
                    }
                    i = i + 1;
                }
                proof {
                    assert(ks.take(keys@.len() as int) =~= ks);
                }
                Result::Ok(Scripts { entries: out })
            },
            _ => Result::Err(TemplateParseError::MalformedField("scripts".to_owned())),
        }
    }

    /// Reads the script maps of a whole template document.
    pub fn parse_scripts(table: &DocValue) -> (r: Result<Option<Scripts>, TemplateParseError>)
        ensures
            match table@ {
                Doc::Table(es) => match r {
                    Result::Ok(Option::Some(s)) => spec_parse_scripts(es) == Result::<
                        Option<Seq<(Seq<char>, Seq<(Seq<char>, Seq<char>)>)>>,
                        TemplateParseErrorView,
                    >::Ok(Option::Some(s@)),
                    Result::Ok(Option::None) => spec_parse_scripts(es) == Result::<
                        Option<Seq<(Seq<char>, Seq<(Seq<char>, Seq<char>)>)>>,
                        TemplateParseErrorView,
                    >::Ok(Option::None),
                    Result::Err(e) => spec_parse_scripts(es) == Result::<
                        Option<Seq<(Seq<char>, Seq<(Seq<char>, Seq<char>)>)>>,
                        TemplateParseErrorView,
                    >::Err(e@),
                },
                _ => r matches Result::Err(e) && e@ == TemplateParseErrorView::MalformedField(
                    "document"@,
                ),
            },
    {
        match table {
            DocValue::Table(raw) => {
                proof {
                    assert(table@ == Doc::Table(entries_view(raw@)));
                }
                match table.get("scripts") {
                    Option::None => Result::Ok(Option::None),
                    Option::Some(scripts) => {
                        match scripts {
                            DocValue::Table(_) => {
                                let keys = ecosystem_keys();
                                match Self::format_scripts(&keys, scripts) {
                                    Result::Ok(s) => Result::Ok(Option::Some(s)),
                                    Result::Err(e) => Result::Err(e),
                                }
                            },
                            _ => Result::Err(
                                TemplateParseError::MalformedField("scripts".to_owned()),
                            ),
                        }
                    },
                }
            },
            _ => Result::Err(TemplateParseError::MalformedField("document".to_owned())),
        }
    }

    /// Flattens one named subtree of the folder tree, depth first.
    #[verifier::loop_isolation(false)]
    pub fn get_sub_paths(name: &String, children: &DocValue, path: &String) -> (r: Result<
        Vec<String>,
        TemplateParseError,
    >)
        ensures
            match r {
                Result::Ok(ps) => spec_sub_paths(name@, children@, path@) == Result::<
                    Seq<Seq<char>>,
                    TemplateParseErrorView,
                >::Ok(ps.deep_view()),
                Result::Err(e) => spec_sub_paths(name@, children@, path@) == Result::<
                    Seq<Seq<char>>,
                    TemplateParseErrorView,
                >::Err(e@),
            },
        decreases *children,
    {
        match children {
            DocValue::Table(raw) => {
                proof {
                    lemma_entries_view(raw@);
                    assert(children@ == Doc::Table(entries_view(raw@)));
                }
                let ghost es = entries_view(raw@);
                let joined = join_path_exec(path, name);
                if raw.len() == 0 {
                    let mut out: Vec<String> = Vec::new();
                    out.push(joined);
                    proof {
                        assert(out.deep_view() =~= seq![join_path(path@, name@)]);
                    }
                    Result::Ok(out)
                } else {
                    let mut out: Vec<String> = Vec::new();
                    proof {
                        assert(es.take(0) =~= Seq::<(Seq<char>, Doc)>::empty());
                        assert(out.deep_view() =~= Seq::<Seq<char>>::empty());
                    }
                    let mut i: usize = 0;
                    while i < raw.len()
                        invariant
                            i <= raw@.len(),
                            spec_sub_paths_entries(es.take(i as int), joined@) == Result::<
                                Seq<Seq<char>>,
                                TemplateParseErrorView,
                            >::Ok(out.deep_view()),
                        decreases raw@.len() - i,
                    {
                        proof {
                            lemma_take_succ(es, i as int);
                        }
                        match Self::get_sub_paths(&raw[i].0, &raw[i].1, &joined) {
                            Result::Ok(mut ps) => {
                                let ghost pre = out.deep_view();
                                let ghost psv = ps.deep_view();
                                out.append(&mut ps);
                                proof {
                                    assert(out.deep_view() =~= pre + psv);
                                }
                            },
                            Result::Err(e) => {
                                proof {
                                    lemma_sub_paths_entries_err(es, joined@, i as int);
                                }
                                return Result::Err(e);
                            },
                        }
                        i = i + 1;
                    }
                    proof {
                        assert(es.take(raw@.len() as int) =~= es);
                    }
                    Result::Ok(out)
                }
            },
            _ => Result::Err(TemplateParseError::MalformedField("subfolders".to_owned())),
        }
    }

    /// Reads and flattens the folder tree of a whole template document.
    #[verifier::loop_isolation(false)]
    pub fn parse_subfolders(table: &DocValue) -> (r: Result<
        Option<Vec<String>>,
        TemplateParseError,
    >)
        ensures
            match table@ {
                Doc::Table(es) => match r {
                    Result::Ok(ps) => spec_parse_subfolders(es) == Result::<
                        Option<Seq<Seq<char>>>,
                        TemplateParseErrorView,
                    >::Ok(ps.deep_view()),
                    Result::Err(e) => spec_parse_subfolders(es) == Result::<
                        Option<Seq<Seq<char>>>,
                        TemplateParseErrorView,
                    >::Err(e@),
                },
                _ => r matches Result::Err(e) && e@ == TemplateParseErrorView::MalformedField(
                    "document"@,
                ),
            },
    {
        match table {
            DocValue::Table(_) => {
                match table.get("subfolders") {
                    Option::None => Result::Ok(Option::None),
                    Option::Some(sub) => {
                        match sub {
                            DocValue::Table(raw) => {
                                proof {
                                    lemma_entries_view(raw@);
                                    assert(sub@ == Doc::Table(entries_view(raw@)));
                                }
                                let ghost es = entries_view(raw@);
                                let empty_prefix = String::new();
                                let mut out: Vec<String> = Vec::new();
                                proof {
                                    assert(es.take(0) =~= Seq::<(Seq<char>, Doc)>::empty());
                                    assert(out.deep_view() =~= Seq::<Seq<char>>::empty());
                                }
                                let mut i: usize = 0;
                                while i < raw.len()
                                    invariant
                                        i <= raw@.len(),
                                        empty_prefix@ == Seq::<char>::empty(),
                                        spec_sub_paths_entries(es.take(i as int), Seq::empty())
                                            == Result::<Seq<Seq<char>>,
                                            TemplateParseErrorView,
                                        >::Ok(out.deep_view()),
                                    decreases raw@.len() - i,
                                {
                                    proof {
                                        lemma_take_succ(es, i as int);
                                    }
                                    match Self::get_sub_paths(
                                        &raw[i].0,
                                        &raw[i].1,
                                        &empty_prefix,
                                    ) {
                                        Result::Ok(mut ps) => {
                                            let ghost pre = out.deep_view();
                                            let ghost psv = ps.deep_view();
                                            out.append(&mut ps);
                                            proof {
                                                assert(out.deep_view() =~= pre + psv);
                                            }
                                        },
                                        Result::Err(e) => {
                                            proof {
                                                lemma_sub_paths_entries_err(
                                                    es,
                                                    Seq::empty(),
                                                    i as int,
                                                );
                                            }
                                            return Result::Err(e);
                                        },
                                    }
                                    i = i + 1;
                                }
                                proof {
                                    assert(es.take(raw@.len() as int) =~= es);
                                }
                                Result::Ok(Option::Some(out))
                            },
                            _ => Result::Err(
                                TemplateParseError::MalformedField("subfolders".to_owned()),
                            ),
                        }
                    },
                }
            },
            _ => Result::Err(TemplateParseError::MalformedField("document".to_owned())),
        }
    }

    /// Parses a whole template document from its text.
    pub fn new(document: &str) -> (r: Result<TomlTemplate, TemplateParseError>)
        ensures
            match toml_doc_of(document@) {
                Option::None => r matches Result::Err(e) && e@ is InvalidDocument,
                Option::Some(d) => match spec_template_doc(d) {
                    Result::Ok(tv) => r matches Result::Ok(t) && t@ == tv && t.wf(),
                    Result::Err(ev) => r matches Result::Err(e) && e@ == ev,
                },
            },
    {
        let doc = match Self::get_table(document) {
            Option::None => {
                return Result::Err(TemplateParseError::InvalidDocument);
            },
            Option::Some(doc) => doc,
        };
        match &doc {
            DocValue::Table(raw) => {
                proof {
                    assert(doc@ == Doc::Table(entries_view(raw@)));
                }
                let ghost es = entries_view(raw@);
                let title: String = match doc.get("title") {
                    Option::None => {
                        return Result::Err(
                            TemplateParseError::MissingField("title".to_owned()),
                        );
                    },
                    Option::Some(DocValue::Str(s)) => s.clone(),
                    Option::Some(other) => {
                        return Result::Err(
                            TemplateParseError::MalformedField("title".to_owned()),
                        );
                    },
                };
                let subfolders = match Self::parse_subfolders(&doc) {
                    Result::Ok(sf) => sf,
                    Result::Err(e) => {
                        return Result::Err(e);
                    },
                };
                let scripts = match Self::parse_scripts(&doc) {
                    Result::Ok(sc) => sc,
                    Result::Err(e) => {
                        return Result::Err(e);
                    },
                };
                let dependencies = match Self::parse_deps(&doc) {
                    Result::Ok(dp) => dp,
                    Result::Err(e) => {
                        return Result::Err(e);
                    },
                };
                Result::Ok(TomlTemplate { title, subfolders, scripts, dependencies })
            },
            _ => Result::Err(TemplateParseError::MalformedField("document".to_owned())),
        }
    }

    /// The template's title.
    pub fn get_title(&self) -> (r: &str)
        ensures
            r@ == self@.title,
    {
        self.title.as_str()
    }

    /// The flattened folder paths, if the document declared a folder tree.
    pub fn get_subfolders(&self) -> (r: Option<&Vec<String>>)
        ensures
            r.deep_view() == self@.subfolders,
    {
        self.subfolders.as_ref()
    }

    /// The per-ecosystem script maps, if the document declared any.
    pub fn get_scripts(&self) -> (r: Option<&Scripts>)
        ensures
            match r {
                Option::Some(s) => self@.scripts == Option::Some(s@),
                Option::None => self@.scripts is None,
            },
    {
        self.scripts.as_ref()
    }

    /// The per-ecosystem dependency lists.
    pub fn get_dependencies(&self) -> (r: &Dependencies)
        ensures
            r@ == self@.dependencies,
            r.wf() == self.wf(),
    {
        &self.dependencies
    }
}

/// Flattening is a pure function of the document text: templates parsed
/// from equal texts hold equal subfolder path lists, and so the same path
/// set, whatever order a flattening chooses.
pub proof fn lemma_flatten_pure(
    s1: Seq<char>,
    s2: Seq<char>,
    t1: TomlTemplateView,
    t2: TomlTemplateView,
)
    requires
        s1 == s2,
        toml_doc_of(s1) is Some,
        spec_template_doc(toml_doc_of(s1)->Some_0) == Result::<
            TomlTemplateView,
            TemplateParseErrorView,
        >::Ok(t1),
        spec_template_doc(toml_doc_of(s2)->Some_0) == Result::<
            TomlTemplateView,
            TemplateParseErrorView,
        >::Ok(t2),
    ensures
        t1.subfolders == t2.subfolders,
        t1.subfolders matches Option::Some(p1) ==> t2.subfolders matches Option::Some(p2)
            && p1.to_set() == p2.to_set(),
{
}

/// A usable folder name: non-empty and free of the path separator.
pub open spec fn folder_name_ok(n: Seq<char>) -> bool {
    n.len() > 0 && forall|i: int| 0 <= i < n.len() ==> n[i] != '/'
}

/// Whether a table binds pairwise distinct folder names.
pub open spec fn table_keys_distinct(es: Seq<(Seq<char>, Doc)>) -> bool {
    forall|i: int, j: int| 0 <= i < j < es.len() ==> (#[trigger] es[i].0) != (#[trigger] es[j].0)
}

/// Whether a folder subtree uses only usable, pairwise distinct names.
pub open spec fn tree_names_ok(d: Doc) -> bool
    decreases d, 2int, 0int,
{
    match d {
        Doc::Table(es) => table_keys_distinct(es) && entries_names_ok(es),
        _ => true,
    }
}

/// Usable names, pushed through a table's entries.
pub open spec fn entries_names_ok(es: Seq<(Seq<char>, Doc)>) -> bool
    decreases es, 1int, es.len(),
{
    es.len() == 0 || (entries_names_ok(es.drop_last()) && folder_name_ok(es.last().0)
        && tree_names_ok(es.last().1))
}

/// Pairwise distinct paths.
pub open spec fn distinct_paths(ps: Seq<Seq<char>>) -> bool {
    forall|i: int, j: int| 0 <= i < j < ps.len() ==> (#[trigger] ps[i]) != (#[trigger] ps[j])
}

/// A path lies under a prefix: it is the prefix itself, or continues it at
/// a separator.
pub open spec fn path_under(p: Seq<char>, q: Seq<char>) -> bool {
    q.len() <= p.len() && p.take(q.len() as int) == q && (p.len() == q.len() || p[q.len() as int]
        == '/')
}

/// Every entry of `entries_names_ok` has a usable name and subtree.
proof fn lemma_entries_names_ok_at(es: Seq<(Seq<char>, Doc)>, i: int)
    requires
        entries_names_ok(es),
        0 <= i < es.len(),
    ensures
        folder_name_ok(es[i].0),
        tree_names_ok(es[i].1),
    decreases es.len(),
{
    if i < es.len() - 1 {
        lemma_entries_names_ok_at(es.drop_last(), i);
    }
}

/// A path cannot lie under joins of the same prefix with two different
/// usable names.
proof fn lemma_under_disjoint(p: Seq<char>, prefix: Seq<char>, a: Seq<char>, b: Seq<char>)
    requires
        folder_name_ok(a),
        folder_name_ok(b),
        a != b,
        path_under(p, join_path(prefix, a)),
    ensures
        !path_under(p, join_path(prefix, b)),
{
    if !path_under(p, join_path(prefix, b)) {
        return;
    }
    reveal_strlit("/");
    assert("/"@.len() == 1);
    assert("/"@[0] == '/');
    let qa = join_path(prefix, a);
    let qb = join_path(prefix, b);
    let base: int = if prefix.len() == 0 {
        0
    } else {
        prefix.len() + 1 as int
    };
    assert(qa.len() == base + a.len());
    assert(qb.len() == base + b.len());
    assert forall|k: int| 0 <= k < a.len() implies qa[base + k] == a[k] by {}
    assert forall|k: int| 0 <= k < b.len() implies qb[base + k] == b[k] by {}
    if a.len() == b.len() {
        assert forall|k: int| 0 <= k < a.len() implies a[k] == b[k] by {
            assert(p.take(qa.len() as int)[base + k] == qa[base + k]);
            assert(p.take(qb.len() as int)[base + k] == qb[base + k]);
            assert(p[base + k] == a[k]);
            assert(p[base + k] == b[k]);
        }
        assert(a =~= b);
    } else if a.len() < b.len() {
        assert(qa.len() < qb.len());
        assert(p.len() >= qb.len());
        assert(p.len() > qa.len());
        assert(p[qa.len() as int] == '/');
        assert(p.take(qb.len() as int)[qa.len() as int] == qb[qa.len() as int]);
        assert(p[qa.len() as int] == qb[base + a.len()]);
        assert(qb[base + a.len()] == b[a.len() as int]);
        assert(b[a.len() as int] != '/');
    } else {
        assert(qb.len() < qa.len());
        assert(p.len() >= qa.len());
        assert(p.len() > qb.len());
        assert(p[qb.len() as int] == '/');
        assert(p.take(qa.len() as int)[qb.len() as int] == qa[qb.len() as int]);
        assert(p[qb.len() as int] == qa[base + b.len()]);
        assert(qa[base + b.len()] == a[b.len() as int]);
        assert(a[b.len() as int] != '/');
    }
    assert(a != b && a =~= b);
}

/// A path under a deeper join also lies under the join's own prefix.
proof fn lemma_under_lift(p: Seq<char>, prefix: Seq<char>, k: Seq<char>)
    requires
        prefix.len() > 0,
        path_under(p, join_path(prefix, k)),
    ensures
        path_under(p, prefix),
{
    reveal_strlit("/");
    assert("/"@.len() == 1);
    assert("/"@[0] == '/');
    let q = join_path(prefix, k);
    assert(q.len() == prefix.len() + 1 + k.len());
    assert forall|m: int| 0 <= m < prefix.len() implies p[m] == prefix[m] by {
        assert(p.take(q.len() as int)[m] == q[m]);
        assert(q[m] == prefix[m]);
    }
    assert(p.take(prefix.len() as int) =~= prefix);
    assert(p.take(q.len() as int)[prefix.len() as int] == q[prefix.len() as int]);
    assert(q[prefix.len() as int] == '/');
}

/// The paths of one subtree are pairwise distinct and all lie under the
/// subtree's own root-to-node path.
proof fn lemma_sub_paths_distinct(name: Seq<char>, children: Doc, prefix: Seq<char>)
    requires
        folder_name_ok(name),
        tree_names_ok(children),
    ensures
        spec_sub_paths(name, children, prefix) matches Result::Ok(ps) ==> distinct_paths(ps)
            && forall|x: int| 0 <= x < ps.len() ==> path_under(
            #[trigger] ps[x],
            join_path(prefix, name),
        ),
    decreases children, 2int, 0int,
{
    match children {
        Doc::Table(es) => {
            if es.len() == 0 {
                assert(spec_sub_paths(name, children, prefix) == Result::<Seq<Seq<char>>,
                    TemplateParseErrorView,
                >::Ok(seq![join_path(prefix, name)]));
                assert(path_under(join_path(prefix, name), join_path(prefix, name))) by {
                    assert(join_path(prefix, name).take(join_path(prefix, name).len() as int)
                        =~= join_path(prefix, name));
                }
            } else {
                let joined = join_path(prefix, name);
                lemma_sub_paths_entries_distinct(es, joined);
                if spec_sub_paths(name, children, prefix) is Ok {
                    let ps = spec_sub_paths_entries(es, joined)->Ok_0;
                    assert(joined.len() > 0);
                    assert forall|x: int| 0 <= x < ps.len() implies path_under(
                        #[trigger] ps[x],
                        joined,
                    ) by {
                        let i = choose|i: int|
                            0 <= i < es.len() && path_under(ps[x], join_path(joined, es[i].0));
                        lemma_under_lift(ps[x], joined, es[i].0);
                    }
                }
            }
        },
        _ => {},
    }
}

/// The paths of a table of subtrees are pairwise distinct, and each lies
/// under the join of the prefix with one of the table's names.
proof fn lemma_sub_paths_entries_distinct(es: Seq<(Seq<char>, Doc)>, prefix: Seq<char>)
    requires
        table_keys_distinct(es),
        entries_names_ok(es),
    ensures
        spec_sub_paths_entries(es, prefix) matches Result::Ok(ps) ==> distinct_paths(ps)
            && forall|x: int| 0 <= x < ps.len() ==> exists|i: int|
            0 <= i < es.len() && path_under(#[trigger] ps[x], join_path(prefix, es[i].0)),
    decreases es, 1int, es.len(),
{
    if es.len() > 0 {
        assert(table_keys_distinct(es.drop_last())) by {
            assert forall|i: int, j: int|
                0 <= i < j < es.drop_last().len() implies (#[trigger] es.drop_last()[i].0)
                != (#[trigger] es.drop_last()[j].0) by {
                assert(es.drop_last()[i] == es[i]);
                assert(es.drop_last()[j] == es[j]);
            }
        }
        lemma_sub_paths_entries_distinct(es.drop_last(), prefix);
        lemma_entries_names_ok_at(es, es.len() - 1);
        lemma_sub_paths_distinct(es.last().0, es.last().1, prefix);
        if spec_sub_paths_entries(es, prefix) is Ok {
            let pre = spec_sub_paths_entries(es.drop_last(), prefix)->Ok_0;
            let tail = spec_sub_paths(es.last().0, es.last().1, prefix)->Ok_0;
            let ps = pre + tail;
            assert(spec_sub_paths_entries(es, prefix) == Result::<Seq<Seq<char>>,
                TemplateParseErrorView,
            >::Ok(ps));
            assert forall|x: int| 0 <= x < ps.len() implies exists|i: int|
                0 <= i < es.len() && path_under(#[trigger] ps[x], join_path(prefix, es[i].0)) by {
                if x < pre.len() {
                    assert(ps[x] == pre[x]);
                    let i = choose|i: int|
                        0 <= i < es.drop_last().len() && path_under(
                            pre[x],
                            join_path(prefix, es.drop_last()[i].0),
                        );
                    assert(es.drop_last()[i] == es[i]);
                    assert(path_under(ps[x], join_path(prefix, es[i].0)));
                } else {
                    assert(ps[x] == tail[x - pre.len()]);
                    assert(path_under(ps[x], join_path(prefix, es.last().0)));
                    assert(0 <= es.len() - 1 < es.len() && path_under(
                        ps[x],
                        join_path(prefix, es[es.len() - 1].0),
                    ));
                }
            }
            assert forall|x: int, y: int| 0 <= x < y < ps.len() implies (#[trigger] ps[x])
                != (#[trigger] ps[y]) by {
                if y < pre.len() {
                    assert(ps[x] == pre[x]);
                    assert(ps[y] == pre[y]);
                } else if x >= pre.len() {
                    assert(ps[x] == tail[x - pre.len()]);
                    assert(ps[y] == tail[y - pre.len()]);
                } else {
                    assert(ps[x] == pre[x]);
                    assert(ps[y] == tail[y - pre.len()]);
                    if ps[x] == ps[y] {
                        let i = choose|i: int|
                            0 <= i < es.drop_last().len() && path_under(
                                pre[x],
                                join_path(prefix, es.drop_last()[i].0),
                            );
                        assert(es.drop_last()[i] == es[i]);
                        lemma_entries_names_ok_at(es, i);
                        assert(path_under(ps[y], join_path(prefix, es.last().0)));
                        assert(es[i].0 != es.last().0);
                        lemma_under_disjoint(ps[x], prefix, es[i].0, es.last().0);
                    }
                }
            }
        }
    }
}

/// Flattening never produces duplicate paths: as long as every table of
/// the folder tree binds distinct, non-empty, separator-free names, the
/// flattened path list is pairwise distinct.
pub proof fn lemma_flatten_no_duplicates(es: Seq<(Seq<char>, Doc)>, ps: Seq<Seq<char>>)
    requires
        table_keys_distinct(es),
        entries_names_ok(es),
        spec_sub_paths_entries(es, Seq::empty()) == Result::<Seq<Seq<char>>,
            TemplateParseErrorView,
        >::Ok(ps),
    ensures
        distinct_paths(ps),
{
    lemma_sub_paths_entries_distinct(es, Seq::empty());
}

/// The same invariant at the document level: a parsed folder tree whose
/// tables bind distinct, non-empty, separator-free names flattens to
/// pairwise distinct paths.
pub proof fn lemma_parse_subfolders_no_duplicates(es: Seq<(Seq<char>, Doc)>, ps: Seq<Seq<char>>)
    requires
        doc_lookup(es, "subfolders"@) matches Option::Some(d) && tree_names_ok(d),
        spec_parse_subfolders(es) == Result::<Option<Seq<Seq<char>>>,
            TemplateParseErrorView,
        >::Ok(Option::Some(ps)),
    ensures
        distinct_paths(ps),
{
    let d = doc_lookup(es, "subfolders"@)->Some_0;
    if d is Table {
        lemma_sub_paths_entries_distinct(d->Table_0, Seq::empty());
    }
}

} // verus!
