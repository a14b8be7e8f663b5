use vstd::prelude::*;

use crate::errors::IronSSGError;
use crate::model::entries_view;
use crate::model::object_text;
use crate::page_manifest::PageManifestView;
use crate::text::str_eq;

verus! {

/// What rendering a template text against a model text yields: the output
/// text, or `None` when the engine rejects the pair (a template syntax
/// error, or model text it cannot read).  The result depends on the two
/// texts alone.
pub uninterp spec fn rendered(tpl: Seq<char>, model: Seq<char>) -> Option<Seq<char>>;

/// Relies on `serde_json::from_str` to read the model text back into a data
/// value and on `handlebars::Handlebars::render_template` to render the
/// template text against it.  Neither call consults anything but its
/// arguments (the engine carries no registered templates or helpers beyond
/// the built-in ones), so the outcome is a function of the two texts.
#[verifier::external_body]
pub(crate) fn render_template_text(tpl: &str, model: &str) -> (r: Result<String, String>)
    ensures
        match r {
            Ok(s) => rendered(tpl@, model@) == Some(s@),
            Err(_) => rendered(tpl@, model@) is None,
        },
{
    let data: serde_json::Value = match serde_json::from_str(model) {
        Ok(v) => v,
        Err(e) => return Err(e.to_string()),
    };
    match handlebars::Handlebars::new().render_template(tpl, &data) {
        Ok(s) => Ok(s),
        Err(e) => Err(e.to_string()),
    }
}

/// The template text registered under `name`, if any: the first entry of the
/// store whose identifier is `name`.
pub open spec fn store_lookup(
    ts: Seq<(Seq<char>, Seq<char>)>,
    name: Seq<char>,
) -> Option<Seq<char>>
    decreases ts.len(),
{
    if ts.len() == 0 {
        None
    } else if ts[0].0 == name {
        Some(ts[0].1)
    } else {
        store_lookup(ts.drop_first(), name)
    }
}

/// The loaded templates of one run: identifiers paired with template text,
/// loaded once at startup from the template root.
pub struct TemplateStore {
    pub templates: Vec<(String, String)>,
}

impl View for TemplateStore {
    type V = Seq<(Seq<char>, Seq<char>)>;

    open spec fn view(&self) -> Seq<(Seq<char>, Seq<char>)> {
        entries_view(self.templates@)
    }
}

impl TemplateStore {
    /// An empty store.
    pub fn new() -> (s: Self)
        ensures
            s@ == Seq::<(Seq<char>, Seq<char>)>::empty(),
    {
        let s = TemplateStore { templates: Vec::new() };
        proof {
            assert(s@ =~= Seq::<(Seq<char>, Seq<char>)>::empty());
        }
        s
    }

    /// Registers one template under its identifier.
    pub fn register(&mut self, name: String, text: String)
        ensures
            final(self)@ == old(self)@.push((name@, text@)),
    {
        let ghost pre = self@;
        self.templates.push((name, text));
        proof {
            assert(self@ =~= pre.push((self.templates@.last().0@, self.templates@.last().1@)));
        }
    }

    /// Looks the identifier up and hands back a copy of the template text,
    /// exactly when the store holds it.
    pub fn lookup(&self, name: &str) -> (r: Option<String>)
        ensures
            match r {
                Some(t) => store_lookup(self@, name@) == Some(t@),
                None => store_lookup(self@, name@) is None,
            },
    {
        let ghost full = self@;
        let mut i: usize = 0;
        proof {
            assert(full.subrange(0, full.len() as int) =~= full);
        }
        while i < self.templates.len()
            invariant
                i <= self.templates@.len(),
                full == self@,
                store_lookup(full, name@) == store_lookup(
                    full.subrange(i as int, full.len() as int),
                    name@,
                ),
            decreases self.templates@.len() - i,
        {
            let e = &self.templates[i];
            proof {
                let tail = full.subrange(i as int, full.len() as int);
                assert(tail[0] == full[i as int]);
                assert(full[i as int] == (self.templates@[i as int].0@,
                self.templates@[i as int].1@));
                assert(tail.drop_first() =~= full.subrange(i + 1, full.len() as int));
            }
            if str_eq(e.0.as_str(), name) {
                return Some(e.1.clone());
            }
            i = i + 1;
        }
        proof {
            assert(full.subrange(full.len() as int, full.len() as int) =~= Seq::<
                (Seq<char>, Seq<char>),
            >::empty());
        }
        None
    }
}

/// The two ways rendering one manifest entry can fail.
pub ghost enum RenderFailureKind {
    TemplateNotFound,
    EngineFailure,
}

/// What rendering one manifest entry against a template store yields: the
/// rendered text of its view against its merged model written as JSON object
/// text, `TemplateNotFound` when the view identifier is not in the store,
/// and `EngineFailure` when the engine rejects the pair.
pub open spec fn render_spec(
    ts: Seq<(Seq<char>, Seq<char>)>,
    m: PageManifestView,
) -> Result<Seq<char>, RenderFailureKind> {
    match store_lookup(ts, m.view_file_path) {
        None => Err(RenderFailureKind::TemplateNotFound),
        Some(tpl) => match rendered(tpl, object_text(m.model)) {
            Some(out) => Ok(out),
            None => Err(RenderFailureKind::EngineFailure),
        },
    }
}

/// Whether a render error value reports the given kind of failure for the
/// given manifest entry.
pub open spec fn render_error(k: RenderFailureKind, m: PageManifestView, e: IronSSGError) -> bool {
    match k {
        RenderFailureKind::TemplateNotFound => e matches IronSSGError::TemplateNotFound(n)
            && n@ == m.view_file_path,
        RenderFailureKind::EngineFailure => e matches IronSSGError::RenderFailure(_),
    }
}

/// Rendering is deterministic: rendering one manifest entry twice against
/// one template store, with the entry's merged model (its metadata year
/// included) unchanged, yields the same outcome — on success, byte-identical
/// output text.
pub proof fn lemma_render_idempotent(
    ts: Seq<(Seq<char>, Seq<char>)>,
    m: PageManifestView,
    r1: Result<Seq<char>, RenderFailureKind>,
    r2: Result<Seq<char>, RenderFailureKind>,
)
    requires
        r1 == render_spec(ts, m),
        r2 == render_spec(ts, m),
    ensures
        r1 == r2,
{
}

} // verus!
