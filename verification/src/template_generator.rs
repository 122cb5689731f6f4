//! The template renderer: substitutes a variable context into every file of
//! a template tree, preserving the tree's structure. The substitution on one
//! file's text is delegated to the `handlebars` crate; walking real
//! directories into a tree and writing the result out is the caller's
//! concern.

use vstd::prelude::*;
use crate::pipeline::{ContextValue, ContextValueView};

verus! {

/// A value that can serve as a rendering context.
pub trait TemplateData {

}

/// Why a tree could not be rendered.
#[derive(Debug, Clone, PartialEq)]
pub enum RenderError {
    /// A file's contents do not render; the payload is its relative path.
    InvalidTemplate { path: String },
}

/// The mathematical value of a `RenderError`.
pub enum RenderErrorView {
    InvalidTemplate { path: Seq<char> },
}

impl View for RenderError {
    type V = RenderErrorView;

    open spec fn view(&self) -> RenderErrorView {
        match self {
            RenderError::InvalidTemplate { path } => (RenderErrorView::InvalidTemplate {
                path: path@,
            }),
        }
    }
}

/// A directory tree of template files: each entry is a relative path and the
/// file's contents. Directories appear only through the paths of the files
/// they hold.
#[derive(Debug, PartialEq)]
pub struct TemplateTree {
    pub files: Vec<(String, String)>,
}

impl View for TemplateTree {
    type V = Seq<(Seq<char>, Seq<char>)>;

    open spec fn view(&self) -> Seq<(Seq<char>, Seq<char>)> {
        self.files.deep_view()
    }
}

/// What the template engine yields for a template and a context: a function
/// of the template's characters and the context's values alone; nothing
/// when the template does not render.
pub uninterp spec fn rendered(
    template: Seq<char>,
    context: Seq<(Seq<char>, ContextValueView)>,
) -> Option<Seq<char>>;

/// Relies on `handlebars::Handlebars::render_template`: with the default
/// registry, the output is determined by the template text and the context
/// values alone.
#[verifier::external_body]
fn render_template_str(template: &str, context: &Vec<(String, ContextValue)>) -> (r: Option<
    String,
>)
    ensures
        match r {
            Option::Some(s) => rendered(template@, context.deep_view()) == Option::Some(s@),
            Option::None => rendered(template@, context.deep_view()) is None,
        },
{
    let mut data = serde_json::Map::new();
    for (k, v) in context.iter() {
        let value = match v {
            ContextValue::Text(s) => serde_json::Value::String(s.clone()),
            ContextValue::Flag(b) => serde_json::Value::Bool(*b),
        };
        data.insert(k.clone(), value);
    }
    let registry = handlebars::Handlebars::new();
    registry.render_template(template, &serde_json::Value::Object(data)).ok()
}

/// What rendering a list of files means: each file's path is kept and its
/// contents rendered, in order; the first file that does not render decides
/// the error.
pub open spec fn spec_render_files(
    files: Seq<(Seq<char>, Seq<char>)>,
    context: Seq<(Seq<char>, ContextValueView)>,
) -> Result<Seq<(Seq<char>, Seq<char>)>, Seq<char>>
    decreases files.len(),
{
    if files.len() == 0 {
        Result::Ok(Seq::empty())
    } else {
        match spec_render_files(files.drop_last(), context) {
            Result::Ok(pre) => match rendered(files.last().1, context) {
                Option::Some(out) => Result::Ok(pre.push((files.last().0, out))),
                Option::None => Result::Err(files.last().0),
            },
            Result::Err(e) => Result::Err(e),
        }
    }
}

/// The first file that does not render decides the error.
proof fn lemma_render_files_err(
    files: Seq<(Seq<char>, Seq<char>)>,
    context: Seq<(Seq<char>, ContextValueView)>,
    i: int,
)
    requires
        0 <= i < files.len(),
        spec_render_files(files.take(i), context) is Ok,
        rendered(files[i].1, context) is None,
    ensures
        spec_render_files(files, context) == Result::<Seq<(Seq<char>, Seq<char>)>,
            Seq<char>,
        >::Err(files[i].0),
    decreases files.len(),
{
    if i == files.len() - 1 {
        assert(files.take(i) =~= files.drop_last());
    } else {
        assert(files.drop_last().take(i) =~= files.take(i));
        assert(files.drop_last()[i] == files[i]);
        lemma_render_files_err(files.drop_last(), context, i);
    }
}

/// Renders a whole template tree with a context: the result holds the same
/// relative paths in the same order, each file's contents rendered; the
/// first file that does not render aborts the call and names the file.
#[verifier::loop_isolation(false)]
pub fn render_tree(tree: &TemplateTree, context: &Vec<(String, ContextValue)>) -> (r: Result<
    TemplateTree,
    RenderError,
>)
    ensures
        match r {
            Result::Ok(out) => spec_render_files(tree@, context.deep_view()) == Result::<
                Seq<(Seq<char>, Seq<char>)>,
                Seq<char>,
            >::Ok(out@),
            Result::Err(e) => spec_render_files(tree@, context.deep_view()) == Result::<
                Seq<(Seq<char>, Seq<char>)>,
                Seq<char>,
            >::Err(e@->path),
        },
{
    let ghost fs = tree@;
    let mut out: Vec<(String, String)> = Vec::new();
    proof {
        assert(fs.take(0) =~= Seq::<(Seq<char>, Seq<char>)>::empty());
        assert(out.deep_view() =~= Seq::<(Seq<char>, Seq<char>)>::empty());
    }
    let mut i: usize = 0;
    while i < tree.files.len()
        invariant
            i <= tree.files@.len(),
            fs.len() == tree.files@.len(),
            spec_render_files(fs.take(i as int), context.deep_view()) == Result::<
                Seq<(Seq<char>, Seq<char>)>,
                Seq<char>,
            >::Ok(out.deep_view()),
        decreases tree.files@.len() - i,
    {
        proof {
            assert(fs[i as int] == (tree.files@[i as int].0@, tree.files@[i as int].1@));
        }
        match render_template_str(tree.files[i].1.as_str(), context) {
            Option::Some(contents) => {
                let ghost pre = out.deep_view();
                let ghost cv = contents@;
                out.push((tree.files[i].0.clone(), contents));
                proof {
                    lemma_take_succ_files(fs, i as int);
                    assert(out.deep_view() =~= pre.push((fs[i as int].0, cv)));
                }
            },
            Option::None => {
                let path = tree.files[i].0.clone();
                proof {
                    lemma_render_files_err(fs, context.deep_view(), i as int);
                }
                return Result::Err(RenderError::InvalidTemplate { path });
            },
        }
        i = i + 1;
    }
    proof {
        assert(fs.take(tree.files@.len() as int) =~= fs);
    }
    Result::Ok(TemplateTree { files: out })
}

/// A prefix of the file list extends by one entry.
proof fn lemma_take_succ_files(s: Seq<(Seq<char>, Seq<char>)>, i: int)
    requires
        0 <= i < s.len(),
    ensures
        s.take(i + 1).drop_last() =~= s.take(i),
        s.take(i + 1).last() == s[i],
{
}

/// The relative path set of a tree's files.
pub open spec fn path_seq(files: Seq<(Seq<char>, Seq<char>)>) -> Seq<Seq<char>> {
    files.map_values(|f: (Seq<char>, Seq<char>)| f.0)
}

/// Rendering preserves structure: the destination tree holds exactly the
/// source tree's relative paths, in the same order.
pub proof fn lemma_render_preserves_paths(
    files: Seq<(Seq<char>, Seq<char>)>,
    context: Seq<(Seq<char>, ContextValueView)>,
)
    ensures
        spec_render_files(files, context) matches Result::Ok(out) ==> path_seq(out) =~= path_seq(
            files,
        ),
    decreases files.len(),
{
    if files.len() > 0 {
        lemma_render_preserves_paths(files.drop_last(), context);
        if spec_render_files(files, context) is Ok {
            let pre = spec_render_files(files.drop_last(), context)->Ok_0;
            let out = spec_render_files(files, context)->Ok_0;
            assert(out == pre.push(
                (files.last().0, rendered(files.last().1, context)->Some_0),
            ));
            assert(path_seq(out) =~= path_seq(pre).push(files.last().0));
            assert(path_seq(files) =~= path_seq(files.drop_last()).push(files.last().0));
        }
    }
}

} // verus!
