use vstd::prelude::*;

use crate::errors::IronSSGError;

verus! {

/// The view of an `Option<String>`: the character sequence it holds, if any.
pub open spec fn opt_text(o: Option<String>) -> Option<Seq<char>> {
    match o {
        Some(s) => Some(s@),
        None => None,
    }
}

/// The view of an `Option<Vec<String>>`: the character sequences it holds.
pub open spec fn opt_texts(o: Option<Vec<String>>) -> Option<Seq<Seq<char>>> {
    match o {
        Some(v) => Some(v.deep_view()),
        None => None,
    }
}

/// One page declaration: the source of truth for one output page.
///
/// `title` and `view` are mandatory (non-empty); everything else is optional.
/// `slug` defaults to `"index"`, `path` is an optional output sub-path, and
/// `model` may name a `.json` data file.  `controller` and `components` are
/// reserved and unused by the render stage.
#[derive(Debug)]
pub struct IronSSGPage {
    pub controller: Option<String>,
    pub path: Option<String>,
    pub slug: String,
    pub title: String,
    pub description: Option<String>,
    pub view: String,
    pub components: Option<Vec<String>>,
    pub model: Option<String>,
}

/// The mathematical view of a page declaration.
pub ghost struct PageView {
    pub controller: Option<Seq<char>>,
    pub path: Option<Seq<char>>,
    pub slug: Seq<char>,
    pub title: Seq<char>,
    pub description: Option<Seq<char>>,
    pub view: Seq<char>,
    pub components: Option<Seq<Seq<char>>>,
    pub model: Option<Seq<char>>,
}

impl View for IronSSGPage {
    type V = PageView;

    open spec fn view(&self) -> PageView {
        PageView {
            controller: opt_text(self.controller),
            path: opt_text(self.path),
            slug: self.slug@,
            title: self.title@,
            description: opt_text(self.description),
            view: self.view@,
            components: opt_texts(self.components),
            model: opt_text(self.model),
        }
    }
}

impl IronSSGPage {
    /// A field-by-field copy of this declaration.
    pub fn duplicate(&self) -> (r: IronSSGPage)
        ensures
            r@ == self@,
    {
        IronSSGPage {
            controller: clone_opt_string(&self.controller),
            path: clone_opt_string(&self.path),
            slug: self.slug.clone(),
            title: self.title.clone(),
            description: clone_opt_string(&self.description),
            view: self.view.clone(),
            components: clone_opt_vec_string(&self.components),
            model: clone_opt_string(&self.model),
        }
    }
}

impl Default for IronSSGPage {
    /// The defaults of a declaration: slug `"index"`, everything else empty.
    fn default() -> (r: Self)
        ensures
            r@.controller is None,
            r@.path is None,
            r@.slug == "index"@,
            r@.title == Seq::<char>::empty(),
            r@.description is None,
            r@.view == Seq::<char>::empty(),
            r@.components is None,
            r@.model is None,
    {
        IronSSGPage {
            controller: None,
            path: None,
            slug: String::from_str("index"),
            title: String::new(),
            description: None,
            view: String::new(),
            components: None,
            model: None,
        }
    }
}

/// The site configuration: site-wide settings plus the ordered page
/// declarations.
#[derive(Debug)]
pub struct IronSSGConfig {
    pub logging: Option<bool>,
    pub verbose: Option<bool>,
    pub clean: Option<bool>,
    pub output: Option<String>,
    pub static_assets: Option<Vec<String>>,
    pub authors: Vec<String>,
    pub name: String,
    pub version: String,
    pub page: Vec<IronSSGPage>,
}

/// The views of a sequence of page declarations, in order.
pub open spec fn pages_view(v: Seq<IronSSGPage>) -> Seq<PageView> {
    v.map_values(|p: IronSSGPage| p@)
}

/// The mathematical view of the site configuration.
pub ghost struct ConfigView {
    pub logging: Option<bool>,
    pub verbose: Option<bool>,
    pub clean: Option<bool>,
    pub output: Option<Seq<char>>,
    pub static_assets: Option<Seq<Seq<char>>>,
    pub authors: Seq<Seq<char>>,
    pub name: Seq<char>,
    pub version: Seq<char>,
    pub page: Seq<PageView>,
}

impl View for IronSSGConfig {
    type V = ConfigView;

    open spec fn view(&self) -> ConfigView {
        ConfigView {
            logging: self.logging,
            verbose: self.verbose,
            clean: self.clean,
            output: opt_text(self.output),
            static_assets: opt_texts(self.static_assets),
            authors: self.authors.deep_view(),
            name: self.name@,
            version: self.version@,
            page: pages_view(self.page@),
        }
    }
}

impl Default for IronSSGConfig {
    /// The documented defaults: `logging = false`, `verbose = true`,
    /// `clean = true`, `output = "dist"`, no assets, no authors, no pages.
    fn default() -> (r: Self)
        ensures
            r@.logging == Some(false),
            r@.verbose == Some(true),
            r@.clean == Some(true),
            r@.output == Some("dist"@),
            r@.static_assets is None,
            r@.authors == Seq::<Seq<char>>::empty(),
            r@.name == "IronSSG Website"@,
            r@.version == "0.1.0"@,
            r@.page == Seq::<PageView>::empty(),
    {
        let r = IronSSGConfig {
            logging: Some(false),
            verbose: Some(true),
            clean: Some(true),
            output: Some(String::from_str("dist")),
            static_assets: None,
            authors: Vec::new(),
            name: String::from_str("IronSSG Website"),
            version: String::from_str("0.1.0"),
            page: Vec::new(),
        };
        proof {
            assert(r@.authors =~= Seq::<Seq<char>>::empty());
            assert(r@.page =~= Seq::<PageView>::empty());
        }
        r
    }
}

/// One page declaration as read from a configuration document, before
/// defaulting: every field may be absent.
pub struct PageSource {
    pub controller: Option<String>,
    pub path: Option<String>,
    pub slug: Option<String>,
    pub title: Option<String>,
    pub description: Option<String>,
    pub view: Option<String>,
    pub components: Option<Vec<String>>,
    pub model: Option<String>,
}

/// A configuration as read from a configuration document, before validation
/// and defaulting: every field may be absent.
pub struct ConfigSource {
    pub logging: Option<bool>,
    pub verbose: Option<bool>,
    pub clean: Option<bool>,
    pub output: Option<String>,
    pub static_assets: Option<Vec<String>>,
    pub authors: Option<Vec<String>>,
    pub name: Option<String>,
    pub version: Option<String>,
    pub page: Vec<PageSource>,
}

/// How a validated page declaration relates to its source: optional fields
/// are carried over, `slug` defaults to `"index"`, `title` and `view` default
/// to the empty string (they are checked later, when the page is built).
pub open spec fn resolved_page(p: PageSource, q: PageView) -> bool {
    &&& q.controller == opt_text(p.controller)
    &&& q.path == opt_text(p.path)
    &&& q.description == opt_text(p.description)
    &&& q.model == opt_text(p.model)
    &&& q.components == opt_texts(p.components)
    &&& q.slug == (match p.slug {
        Some(s) => s@,
        None => "index"@,
    })
    &&& q.title == (match p.title {
        Some(s) => s@,
        None => Seq::<char>::empty(),
    })
    &&& q.view == (match p.view {
        Some(s) => s@,
        None => Seq::<char>::empty(),
    })
}

/// How a validated configuration relates to its source: the required fields
/// are present and carried over, the optional ones get their documented
/// defaults, and every page declaration is resolved in order.
pub open spec fn resolved_config(s: ConfigSource, c: ConfigView) -> bool {
    &&& c.logging == Some(
        match s.logging {
            Some(b) => b,
            None => false,
        },
    )
    &&& c.verbose == Some(
        match s.verbose {
            Some(b) => b,
            None => true,
        },
    )
    &&& c.clean == Some(
        match s.clean {
            Some(b) => b,
            None => true,
        },
    )
    &&& c.output == Some(
        match s.output {
            Some(o) => o@,
            None => "dist"@,
        },
    )
    &&& c.static_assets == opt_texts(s.static_assets)
    &&& (s.authors matches Some(a) && c.authors == a.deep_view())
    &&& (s.name matches Some(n) && c.name == n@)
    &&& (s.version matches Some(v) && c.version == v@)
    &&& c.page.len() == s.page.len()
    &&& forall|i: int| 0 <= i < s.page.len() ==> resolved_page(s.page[i], #[trigger] c.page[i])
}

fn clone_opt_string(o: &Option<String>) -> (r: Option<String>)
    ensures
        r == o,
{
    match o {
        Some(s) => Some(s.clone()),
        None => None,
    }
}

fn clone_vec_string(v: &Vec<String>) -> (r: Vec<String>)
    ensures
        r.deep_view() == v.deep_view(),
        r@.len() == v@.len(),
{
    let mut out: Vec<String> = Vec::new();
    let mut i: usize = 0;
    while i < v.len()
        invariant
            i <= v@.len(),
            out@.len() == i,
            forall|j: int| 0 <= j < i ==> out.deep_view()[j] == v.deep_view()[j],
        decreases v@.len() - i,
    {
        out.push(v[i].clone());
        i = i + 1;
    }
    proof {
        assert(out.deep_view() =~= v.deep_view());
    }
    out
}

fn clone_opt_vec_string(o: &Option<Vec<String>>) -> (r: Option<Vec<String>>)
    ensures
        opt_texts(r) == opt_texts(*o),
{
    match o {
        Some(v) => Some(clone_vec_string(v)),
        None => None,
    }
}

fn resolve_page(p: &PageSource) -> (q: IronSSGPage)
    ensures
        resolved_page(*p, q@),
{
    IronSSGPage {
        controller: clone_opt_string(&p.controller),
        path: clone_opt_string(&p.path),
        slug: match &p.slug {
            Some(s) => s.clone(),
            None => String::from_str("index"),
        },
        title: match &p.title {
            Some(s) => s.clone(),
            None => String::new(),
        },
        description: clone_opt_string(&p.description),
        view: match &p.view {
            Some(s) => s.clone(),
            None => String::new(),
        },
        components: clone_opt_vec_string(&p.components),
        model: clone_opt_string(&p.model),
    }
}

/// Validates a configuration source and applies the documented defaults.
///
/// Fails with `ConfigError` exactly when one of the required top-level fields
/// (`name`, `version`, `authors`) is absent; such a failure is fatal to the
/// whole run.  On success the returned configuration is the source with every
/// optional field defaulted and every page declaration resolved.
pub fn validate_config(src: ConfigSource) -> (r: Result<IronSSGConfig, IronSSGError>)
    ensures
        r is Err <==> (src.name is None || src.version is None || src.authors is None),
        r matches Err(e) ==> e matches IronSSGError::ConfigError(m) && (
        if src.name is None {
            m@ == "missing required field 'name'"@
        } else if src.version is None {
            m@ == "missing required field 'version'"@
        } else {
            m@ == "missing required field 'authors'"@
        }),
        r matches Ok(c) ==> resolved_config(src, c@),
{
    if src.name.is_none() {
        return Err(
            IronSSGError::ConfigError(String::from_str("missing required field 'name'")),
        );
    }
    if src.version.is_none() {
        return Err(
            IronSSGError::ConfigError(String::from_str("missing required field 'version'")),
        );
    }
    if src.authors.is_none() {
        return Err(
            IronSSGError::ConfigError(String::from_str("missing required field 'authors'")),
        );
    }
    let mut pages: Vec<IronSSGPage> = Vec::new();
    let mut i: usize = 0;
    while i < src.page.len()
        invariant
            i <= src.page@.len(),
            pages@.len() == i,
            forall|j: int| 0 <= j < i ==> resolved_page(src.page@[j], (#[trigger] pages@[j])@),
        decreases src.page@.len() - i,
    {
        let q = resolve_page(&src.page[i]);
        pages.push(q);
        i = i + 1;
    }
    let config = IronSSGConfig {
        logging: Some(
            match src.logging {
                Some(b) => b,
                None => false,
            },
        ),
        verbose: Some(
            match src.verbose {
                Some(b) => b,
                None => true,
            },
        ),
        clean: Some(
            match src.clean {
                Some(b) => b,
                None => true,
            },
        ),
        output: Some(
            match src.output {
                Some(o) => o,
                None => String::from_str("dist"),
            },
        ),
        static_assets: src.static_assets,
        authors: match src.authors {
            Some(a) => a,
            None => Vec::new(),
        },
        name: match src.name {
            Some(n) => n,
            None => String::new(),
        },
        version: match src.version {
            Some(v) => v,
            None => String::new(),
        },
        page: pages,
    };
    proof {
        assert forall|k: int| 0 <= k < src.page.len() implies resolved_page(
            src.page[k],
            #[trigger] config@.page[k],
        ) by {
            assert(config@.page[k] == config.page@[k]@);
        }
    }
    Ok(config)
}

} // verus!
