//! The declarative document a stack template is written in, as a tree of
//! plain values: strings, integers, booleans, arrays and key-ordered tables.
//! The parser reads this tree; how the tree is obtained from a concrete
//! document format is the concern of `toml_parser`.

use vstd::prelude::*;
use crate::str_equal;

verus! {

/// The mathematical value of a document node.
pub enum Doc {
    Str(Seq<char>),
    Int(i64),
    Bool(bool),
    List(Seq<Doc>),
    Table(Seq<(Seq<char>, Doc)>),
    Other,
}

/// One node of a parsed document. `Other` stands for a value of a kind the
/// template schema never reads.
#[derive(Debug, PartialEq)]
pub enum DocValue {
    Str(String),
    Int(i64),
    Bool(bool),
    List(Vec<DocValue>),
    Table(Vec<(String, DocValue)>),
    Other,
}

/// The value of one document node.
pub open spec fn doc_view(v: DocValue) -> Doc
    decreases v, 2int, 0int,
{
    match v {
        DocValue::Str(s) => Doc::Str(s@),
        DocValue::Int(i) => Doc::Int(i),
        DocValue::Bool(b) => Doc::Bool(b),
        DocValue::List(vs) => Doc::List(docs_view(vs@)),
        DocValue::Table(es) => Doc::Table(entries_view(es@)),
        DocValue::Other => Doc::Other,
    }
}

/// The values of a list of document nodes.
pub open spec fn docs_view(vs: Seq<DocValue>) -> Seq<Doc>
    decreases vs, 1int, vs.len(),
{
    if vs.len() == 0 {
        Seq::empty()
    } else {
        docs_view(vs.drop_last()).push(doc_view(vs.last()))
    }
}

/// The values of a table's entries, in order.
pub open spec fn entries_view(es: Seq<(String, DocValue)>) -> Seq<(Seq<char>, Doc)>
    decreases es, 1int, es.len(),
{
    if es.len() == 0 {
        Seq::empty()
    } else {
        entries_view(es.drop_last()).push((es.last().0@, doc_view(es.last().1)))
    }
}

impl View for DocValue {
    type V = Doc;

    open spec fn view(&self) -> Doc {
        doc_view(*self)
    }
}

impl DeepView for DocValue {
    type V = Doc;

    open spec fn deep_view(&self) -> Doc {
        doc_view(*self)
    }
}

/// A list view keeps the length and maps each node.
pub proof fn lemma_docs_view(vs: Seq<DocValue>)
    ensures
        docs_view(vs).len() == vs.len(),
        forall|i: int| 0 <= i < vs.len() ==> docs_view(vs)[i] == doc_view(vs[i]),
    decreases vs.len(),
{
    if vs.len() > 0 {
        lemma_docs_view(vs.drop_last());
        assert forall|i: int| 0 <= i < vs.len() implies docs_view(vs)[i] == doc_view(vs[i]) by {
            if i < vs.len() - 1 {
                assert(vs.drop_last()[i] == vs[i]);
            }
        }
    }
}

/// A table view keeps the length and maps each entry.
pub proof fn lemma_entries_view(es: Seq<(String, DocValue)>)
    ensures
        entries_view(es).len() == es.len(),
        forall|i: int| 0 <= i < es.len() ==> entries_view(es)[i] == (es[i].0@, doc_view(es[i].1)),
    decreases es.len(),
{
    if es.len() > 0 {
        lemma_entries_view(es.drop_last());
        assert forall|i: int| 0 <= i < es.len() implies entries_view(es)[i] == (
            es[i].0@,
            doc_view(es[i].1),
        ) by {
            if i < es.len() - 1 {
                assert(es.drop_last()[i] == es[i]);
            }
        }
    }
}

/// The first value bound to a key in a table, if any.
pub open spec fn doc_lookup(entries: Seq<(Seq<char>, Doc)>, key: Seq<char>) -> Option<Doc>
    decreases entries.len(),
{
    if entries.len() == 0 {
        Option::None
    } else if entries.first().0 == key {
        Option::Some(entries.first().1)
    } else {
        doc_lookup(entries.drop_first(), key)
    }
}

/// A key is bound in a table exactly when the lookup yields a value.
pub open spec fn doc_has_key(entries: Seq<(Seq<char>, Doc)>, key: Seq<char>) -> bool {
    doc_lookup(entries, key) is Some
}

impl DocValue {
    /// Looks a key up in a table node. On a non-table node there is nothing
    /// to find.
    #[verifier::loop_isolation(false)]
    pub fn get<'a>(&'a self, key: &str) -> (r: Option<&'a DocValue>)
        ensures
            match self@ {
                Doc::Table(entries) => match r {
                    Option::Some(d) => doc_lookup(entries, key@) == Option::Some(d@),
                    Option::None => doc_lookup(entries, key@) is None,
                },
                _ => r is None,
            },
    {
        match self {
            DocValue::Table(es) => {
                proof {
                    lemma_entries_view(es@);
                    assert(entries_view(es@).skip(0) =~= entries_view(es@));
                }
                let ghost entries = entries_view(es@);
                let mut i: usize = 0;
                while i < es.len()
                    invariant
                        i <= es.len(),
                        entries == entries_view(es@),
                        entries.len() == es@.len(),
                        forall|k: int| 0 <= k < es@.len() ==> entries[k] == (
                            es@[k].0@,
                            doc_view(es@[k].1),
                        ),
                        doc_lookup(entries, key@) == doc_lookup(
                            entries.skip(i as int),
                            key@,
                        ),
                        forall|k: int| 0 <= k < i ==> entries[k].0 != key@,
                    decreases es@.len() - i,
                {
                    if str_equal(es[i].0.as_str(), key) {
                        proof {
                            assert(entries.skip(i as int).first() == entries[i as int]);
                            assert(doc_lookup(entries.skip(i as int), key@) == Option::Some(
                                entries[i as int].1,
                            ));
                            assert(self@ == Doc::Table(entries));
                        }
                        return Option::Some(&es[i].1);
                    }
                    proof {
                        assert(entries.skip(i as int).first() == entries[i as int]);
                        assert(entries.skip(i as int).drop_first() =~= entries.skip(i + 1));
                    }
                    i = i + 1;
                }
                proof {
                    assert(entries.skip(es@.len() as int) =~= Seq::<(Seq<char>, Doc)>::empty());
                }
                Option::None
            },
            _ => Option::None,
        }
    }
}

} // verus!
