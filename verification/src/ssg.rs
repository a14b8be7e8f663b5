use vstd::prelude::*;

use crate::config::pages_view;
use crate::config::ConfigView;
use crate::config::IronSSGConfig;
use crate::config::IronSSGPage;
use crate::config::PageView;
use crate::errors::IronSSGError;
use crate::model::build_metadata_text;
use crate::model::metadata_text;
use crate::model::parse_model_object;
use crate::model::parsed_model;
use crate::model::set_key;
use crate::model::with_metadata;
use crate::page_manifest::manifest_views;
use crate::page_manifest::PageManifest;
use crate::page_manifest::PageManifestView;
use crate::render::render_error;
use crate::render::render_spec;
use crate::render::render_template_text;
use crate::render::RenderFailureKind;
use crate::render::TemplateStore;
use crate::text::is_json_path;
use crate::text::join_comma;
use crate::text::joined;
use crate::text::path_has_json_ext;
use crate::text::str_eq;
use crate::text::trim_end_slashes;
use crate::text::trimmed_end_slashes;

verus! {

/// The outcome of reading one page's model file, handed in by the caller
/// that did the reading: the page declares no readable model, the file's
/// text, or the reason the file could not be read.
#[derive(Debug)]
pub enum ModelSource {
    NoModel,
    Loaded(String),
    Unreadable(String),
}

/// The ways building one manifest entry can fail.
pub ghost enum BuildFailure {
    MissingTitle,
    MissingView,
    ModelUnreadable,
    ModelInvalid,
}

/// The output directory of a configuration: its `output` field, or `dist`.
pub open spec fn output_dir_view(c: ConfigView) -> Seq<char> {
    match c.output {
        Some(o) => o,
        None => "dist"@,
    }
}

/// The site-level author attribution: the configured authors, joined.
pub open spec fn site_author_view(c: ConfigView) -> Seq<char> {
    joined(c.authors, ", "@)
}

/// The resolved output directory of one declaration: when `path` is present,
/// non-empty and not exactly `/`, it is appended to the output directory
/// with its trailing slashes trimmed; otherwise the output directory itself.
pub open spec fn dist_path_spec(output: Seq<char>, path: Option<Seq<char>>) -> Seq<char> {
    match path {
        Some(p) => if p.len() > 0 && p != "/"@ {
            output + seq!['/'] + trimmed_end_slashes(p)
        } else {
            output
        },
        None => output,
    }
}

/// The resolved output file of one declaration: `{dist_path}/{slug}.html`.
pub open spec fn dist_file_spec(
    output: Seq<char>,
    path: Option<Seq<char>>,
    slug: Seq<char>,
) -> Seq<char> {
    dist_path_spec(output, path) + seq!['/'] + slug + ".html"@
}

/// Whether a declaration names a model file that is to be read: a `model`
/// path ending in `.json`.  Any other `model` value means no external model.
pub open spec fn wants_model(p: PageView) -> bool {
    p.model matches Some(m) && is_json_path(m)
}

/// The entries the merged model starts from: empty when the page reads no
/// model file; otherwise the parsed top-level entries of the loaded text,
/// with an unreadable file or unparseable text failing the page.
pub open spec fn model_entries_spec(p: PageView, src: ModelSource) -> Result<
    Seq<(Seq<char>, Seq<char>)>,
    BuildFailure,
> {
    if !wants_model(p) {
        Ok(Seq::empty())
    } else {
        match src {
            ModelSource::Loaded(t) => match parsed_model(t@) {
                Some(es) => Ok(es),
                None => Err(BuildFailure::ModelInvalid),
            },
            ModelSource::Unreadable(_) => Err(BuildFailure::ModelUnreadable),
            ModelSource::NoModel => Err(BuildFailure::ModelUnreadable),
        }
    }
}

/// The manifest entry built from one valid declaration: resolved paths, and
/// the model entries with the computed metadata object set under the
/// `metadata` key (overwriting any entry already there).
pub open spec fn manifest_entry_spec(
    p: PageView,
    output: Seq<char>,
    entries: Seq<(Seq<char>, Seq<char>)>,
    author: Seq<char>,
    year: int,
) -> PageManifestView {
    PageManifestView {
        title: p.title,
        view_file_path: p.view,
        model_file_path: match p.model {
            Some(m) => m,
            None => Seq::empty(),
        },
        dist_path: dist_path_spec(output, p.path),
        dist_file_path: dist_file_spec(output, p.path, p.slug),
        model: set_key(
            entries,
            "metadata"@,
            metadata_text(
                p.title,
                match p.description {
                    Some(d) => d,
                    None => Seq::empty(),
                },
                author,
                year,
            ),
        ),
    }
}

/// What building one declaration yields: its manifest entry, or the failure
/// that makes the page (and only the page) fail — a missing `title`, a
/// missing `view`, or a model file that could not be read or parsed.
pub open spec fn build_spec(
    p: PageView,
    output: Seq<char>,
    src: ModelSource,
    author: Seq<char>,
    year: int,
) -> Result<PageManifestView, BuildFailure> {
    if p.title.len() == 0 {
        Err(BuildFailure::MissingTitle)
    } else if p.view.len() == 0 {
        Err(BuildFailure::MissingView)
    } else {
        match model_entries_spec(p, src) {
            Ok(es) => Ok(manifest_entry_spec(p, output, es, author, year)),
            Err(f) => Err(f),
        }
    }
}

/// Whether an error value reports the given kind of build failure.
pub open spec fn failure_error(f: BuildFailure, e: IronSSGError) -> bool {
    match f {
        BuildFailure::MissingTitle => e matches IronSSGError::MissingField(m) && m@ == "title"@,
        BuildFailure::MissingView => e matches IronSSGError::MissingField(m) && m@ == "view"@,
        BuildFailure::ModelInvalid => e matches IronSSGError::InvalidModel(_),
        BuildFailure::ModelUnreadable => e matches IronSSGError::IOError(_),
    }
}

/// The manifest entries of a whole run, in declaration order: one entry per
/// declaration that builds, none for a declaration that fails.
pub open spec fn built_entries(
    pages: Seq<PageView>,
    srcs: Seq<ModelSource>,
    output: Seq<char>,
    author: Seq<char>,
    year: int,
) -> Seq<PageManifestView>
    decreases pages.len(),
{
    if pages.len() == 0 {
        Seq::empty()
    } else {
        let rest = built_entries(pages.drop_first(), srcs.drop_first(), output, author, year);
        match build_spec(pages[0], output, srcs[0], author, year) {
            Ok(e) => seq![e] + rest,
            Err(_) => rest,
        }
    }
}

/// The build failures of a whole run, in declaration order: one per
/// declaration that fails, none for a declaration that builds.
pub open spec fn built_failures(
    pages: Seq<PageView>,
    srcs: Seq<ModelSource>,
    output: Seq<char>,
    author: Seq<char>,
    year: int,
) -> Seq<BuildFailure>
    decreases pages.len(),
{
    if pages.len() == 0 {
        Seq::empty()
    } else {
        let rest = built_failures(pages.drop_first(), srcs.drop_first(), output, author, year);
        match build_spec(pages[0], output, srcs[0], author, year) {
            Ok(_) => rest,
            Err(f) => seq![f] + rest,
        }
    }
}

/// The site generator: the configuration of the run and the manifest built
/// so far, owned by the driver and appended to one page at a time.
pub struct IronSSG {
    pub manifest: Vec<PageManifest>,
    pub config: IronSSGConfig,
}

/// How one call of `build_page_manifest` relates the generator before and
/// after the call: the configuration is untouched; a declaration that builds
/// appends exactly its manifest entry; a declaration that fails appends
/// nothing and hands back the matching error.
pub open spec fn build_outcome(
    pre: IronSSG,
    post: IronSSG,
    page: PageView,
    src: ModelSource,
    year: int,
    r: Result<(), IronSSGError>,
) -> bool {
    &&& post.config == pre.config
    &&& match build_spec(
        page,
        output_dir_view(pre.config@),
        src,
        site_author_view(pre.config@),
        year,
    ) {
        Ok(entry) => r is Ok && manifest_views(post.manifest@) == manifest_views(
            pre.manifest@,
        ).push(entry),
        Err(f) => post.manifest@ == pre.manifest@ && (r matches Err(e) && failure_error(f, e)),
    }
}

/// How one whole build pass relates the generator before and after: every
/// declaration of the configuration is tried in order against its model
/// source, the entries of the ones that build are appended to the manifest
/// in order, and the errors of the ones that fail are handed back in order.
pub open spec fn built_run(
    pre: IronSSG,
    post: IronSSG,
    srcs: Seq<ModelSource>,
    errs: Seq<IronSSGError>,
    year: int,
) -> bool {
    let pv = pages_view(pre.config.page@);
    let out = output_dir_view(pre.config@);
    let auth = site_author_view(pre.config@);
    &&& post.config == pre.config
    &&& manifest_views(post.manifest@) == manifest_views(pre.manifest@) + built_entries(
        pv,
        srcs,
        out,
        auth,
        year,
    )
    &&& errs.len() == built_failures(pv, srcs, out, auth, year).len()
    &&& forall|i: int|
        0 <= i < errs.len() ==> failure_error(
            built_failures(pv, srcs, out, auth, year)[i],
            #[trigger] errs[i],
        )
}

/// The rendered pages of a whole run, in manifest order: for every entry
/// whose view resolves and renders, its resolved output file path paired
/// with the rendered text; nothing for an entry that fails.
pub open spec fn rendered_outputs(
    ts: Seq<(Seq<char>, Seq<char>)>,
    ms: Seq<PageManifestView>,
) -> Seq<(Seq<char>, Seq<char>)>
    decreases ms.len(),
{
    if ms.len() == 0 {
        Seq::empty()
    } else {
        let rest = rendered_outputs(ts, ms.drop_first());
        match render_spec(ts, ms[0]) {
            Ok(out) => seq![(ms[0].dist_file_path, out)] + rest,
            Err(_) => rest,
        }
    }
}

/// The render failures of a whole run, in manifest order: the entry and the
/// kind of failure, one per entry that fails, none for an entry that
/// renders.
pub open spec fn rendered_failures(
    ts: Seq<(Seq<char>, Seq<char>)>,
    ms: Seq<PageManifestView>,
) -> Seq<(PageManifestView, RenderFailureKind)>
    decreases ms.len(),
{
    if ms.len() == 0 {
        Seq::empty()
    } else {
        let rest = rendered_failures(ts, ms.drop_first());
        match render_spec(ts, ms[0]) {
            Ok(_) => rest,
            Err(k) => seq![(ms[0], k)] + rest,
        }
    }
}

/// The directories to copy: the configured asset directories that exist.
pub open spec fn existing_dirs(dirs: Seq<Seq<char>>, exists: Seq<bool>) -> Seq<Seq<char>>
    decreases dirs.len(),
{
    if dirs.len() == 0 {
        Seq::empty()
    } else {
        let rest = existing_dirs(dirs.drop_first(), exists.drop_first());
        if exists[0] {
            seq![dirs[0]] + rest
        } else {
            rest
        }
    }
}

/// The directories to skip with a warning: the configured asset directories
/// that do not exist.
pub open spec fn missing_dirs(dirs: Seq<Seq<char>>, exists: Seq<bool>) -> Seq<Seq<char>>
    decreases dirs.len(),
{
    if dirs.len() == 0 {
        Seq::empty()
    } else {
        let rest = missing_dirs(dirs.drop_first(), exists.drop_first());
        if exists[0] {
            rest
        } else {
            seq![dirs[0]] + rest
        }
    }
}

/// Splits the configured asset directories by whether they exist (the
/// caller, having looked, says which do): the first list is to be copied in
/// order, the second to be skipped with a warning.  A missing directory is
/// non-fatal — it only moves to the warning list and leaves every other
/// directory to be copied.
pub fn plan_asset_copy(dirs: &Vec<String>, exists: &Vec<bool>) -> (r: (Vec<String>, Vec<String>))
    requires
        dirs@.len() == exists@.len(),
    ensures
        r.0.deep_view() == existing_dirs(dirs.deep_view(), exists@),
        r.1.deep_view() == missing_dirs(dirs.deep_view(), exists@),
{
    let ghost dv = dirs.deep_view();
    let mut copy: Vec<String> = Vec::new();
    let mut skip: Vec<String> = Vec::new();
    let mut i: usize = 0;
    proof {
        assert(dv.subrange(0, dv.len() as int) =~= dv);
        assert(exists@.subrange(0, dv.len() as int) =~= exists@);
        assert(copy.deep_view() + existing_dirs(dv, exists@) =~= existing_dirs(dv, exists@));
        assert(skip.deep_view() + missing_dirs(dv, exists@) =~= missing_dirs(dv, exists@));
    }
    while i < dirs.len()
        invariant
            i <= dv.len(),
            dirs@.len() == dv.len(),
            exists@.len() == dv.len(),
            dv == dirs.deep_view(),
            copy.deep_view() + existing_dirs(
                dv.subrange(i as int, dv.len() as int),
                exists@.subrange(i as int, dv.len() as int),
            ) == existing_dirs(dv, exists@),
            skip.deep_view() + missing_dirs(
                dv.subrange(i as int, dv.len() as int),
                exists@.subrange(i as int, dv.len() as int),
            ) == missing_dirs(dv, exists@),
        decreases dv.len() - i,
    {
        proof {
            let dtail = dv.subrange(i as int, dv.len() as int);
            let etail = exists@.subrange(i as int, dv.len() as int);
            assert(dtail[0] == dv[i as int]);
            assert(dv[i as int] == dirs@[i as int]@);
            assert(etail[0] == exists@[i as int]);
            assert(dtail.drop_first() =~= dv.subrange(i + 1, dv.len() as int));
            assert(etail.drop_first() =~= exists@.subrange(i + 1, dv.len() as int));
        }
        if exists[i] {
            copy.push(dirs[i].clone());
            proof {
                assert(copy.deep_view() =~= copy.deep_view().drop_last().push(dv[i as int]));
                assert(copy.deep_view().drop_last().push(dv[i as int]) + existing_dirs(
                    dv.subrange(i + 1, dv.len() as int),
                    exists@.subrange(i + 1, dv.len() as int),
                ) =~= copy.deep_view().drop_last() + existing_dirs(
                    dv.subrange(i as int, dv.len() as int),
                    exists@.subrange(i as int, dv.len() as int),
                ));
            }
        } else {
            skip.push(dirs[i].clone());
            proof {
                assert(skip.deep_view() =~= skip.deep_view().drop_last().push(dv[i as int]));
                assert(skip.deep_view().drop_last().push(dv[i as int]) + missing_dirs(
                    dv.subrange(i + 1, dv.len() as int),
                    exists@.subrange(i + 1, dv.len() as int),
                ) =~= skip.deep_view().drop_last() + missing_dirs(
                    dv.subrange(i as int, dv.len() as int),
                    exists@.subrange(i as int, dv.len() as int),
                ));
            }
        }
        i = i + 1;
    }
    proof {
        assert(dv.subrange(dv.len() as int, dv.len() as int) =~= Seq::<Seq<char>>::empty());
        assert(exists@.subrange(dv.len() as int, dv.len() as int) =~= Seq::<bool>::empty());
        assert(copy.deep_view() + Seq::<Seq<char>>::empty() =~= copy.deep_view());
        assert(skip.deep_view() + Seq::<Seq<char>>::empty() =~= skip.deep_view());
    }
    (copy, skip)
}

/// Relies on `chrono::Utc::now` and `chrono::Datelike::year` for the current
/// calendar year.  The result depends on the wall clock, so nothing is
/// claimed of it; callers that need a reproducible year inject one instead.
#[verifier::external_body]
fn now_year() -> (y: i32) {
    chrono::Datelike::year(&chrono::Utc::now())
}

fn clone_pages(v: &Vec<IronSSGPage>) -> (r: Vec<IronSSGPage>)
    ensures
        r@.len() == v@.len(),
        pages_view(r@) == pages_view(v@),
{
    let mut out: Vec<IronSSGPage> = Vec::new();
    let mut i: usize = 0;
    while i < v.len()
        invariant
            i <= v@.len(),
            out@.len() == i,
            forall|j: int| 0 <= j < i ==> (#[trigger] out@[j])@ == v@[j]@,
        decreases v@.len() - i,
    {
        out.push(v[i].duplicate());
        i = i + 1;
    }
    proof {
        assert(pages_view(out@) =~= pages_view(v@));
    }
    out
}

impl IronSSG {
    /// A generator for one run: the given configuration and an empty
    /// manifest.
    pub fn new(config: IronSSGConfig) -> (s: Self)
        ensures
            s.config == config,
            s.manifest@ == Seq::<PageManifest>::empty(),
    {
        let s = IronSSG { manifest: Vec::new(), config };
        proof {
            assert(s.manifest@ =~= Seq::<PageManifest>::empty());
        }
        s
    }

    /// The model file to read for a declaration, if any: its `model` path
    /// exactly when that path ends in `.json`.
    pub fn model_file_to_read(page: &IronSSGPage) -> (r: Option<String>)
        ensures
            wants_model(page@) ==> (r matches Some(m) && Some(m@) == page@.model),
            !wants_model(page@) ==> r is None,
    {
        match &page.model {
            Some(m) => {
                if path_has_json_ext(m.as_str()) {
                    Some(m.clone())
                } else {
                    None
                }
            },
            None => None,
        }
    }

    fn output_string(&self) -> (r: String)
        ensures
            r@ == output_dir_view(self.config@),
    {
        match &self.config.output {
            Some(o) => o.clone(),
            None => String::from_str("dist"),
        }
    }

    fn author_string(&self) -> (r: String)
        ensures
            r@ == site_author_view(self.config@),
    {
        join_comma(&self.config.authors)
    }

    /// Builds the manifest entry for one declaration and appends it.
    ///
    /// Fails with `MissingField` when `title` or `view` is empty, with
    /// `IOError` when the declared model file could not be read, and with
    /// `InvalidModel` when its text is not valid JSON; any failure leaves
    /// the manifest untouched.
    pub fn build_page_manifest(
        &mut self,
        page: &IronSSGPage,
        source: &ModelSource,
        year: i32,
    ) -> (r: Result<(), IronSSGError>)
        ensures
            build_outcome(*old(self), *final(self), page@, *source, year as int, r),
    {
        let ghost out_dir = output_dir_view(self.config@);
        let ghost auth = site_author_view(self.config@);
        if page.title.as_str().is_empty() {
            return Err(IronSSGError::MissingField(String::from_str("title")));
        }
        if page.view.as_str().is_empty() {
            return Err(IronSSGError::MissingField(String::from_str("view")));
        }
        let output = self.output_string();
        let author = self.author_string();
        let dist_path: String = match &page.path {
            Some(p) => {
                if !p.as_str().is_empty() && !str_eq(p.as_str(), "/") {
                    let mut d = output.clone();
                    d.push('/');
                    d.append(trim_end_slashes(p.as_str()).as_str());
                    d
                } else {
                    output.clone()
                }
            },
            None => output.clone(),
        };
        let mut dist_file_path = dist_path.clone();
        dist_file_path.push('/');
        dist_file_path.append(page.slug.as_str());
        dist_file_path.append(".html");
        let wants = match &page.model {
            Some(m) => path_has_json_ext(m.as_str()),
            None => false,
        };
        proof {
            assert(wants == wants_model(page@));
        }
        let entries: Vec<(String, String)> = if wants {
            match source {
                ModelSource::Loaded(t) => match parse_model_object(t.as_str()) {
                    Ok(v) => v,
                    Err(e) => {
                        return Err(e);
                    },
                },
                ModelSource::Unreadable(msg) => {
                    return Err(IronSSGError::IOError(msg.clone()));
                },
                ModelSource::NoModel => {
                    return Err(IronSSGError::IOError(String::from_str("model file was not read")));
                },
            }
        } else {
            Vec::new()
        };
        proof {
            if !wants {
                assert(crate::model::entries_view(entries@) =~= Seq::<
                    (Seq<char>, Seq<char>),
                >::empty());
            }
            assert(model_entries_spec(page@, *source) == Ok::<_, BuildFailure>(
                crate::model::entries_view(entries@),
            ));
        }
        let description: String = match &page.description {
            Some(d) => d.clone(),
            None => String::new(),
        };
        let meta = build_metadata_text(
            page.title.as_str(),
            description.as_str(),
            author.as_str(),
            year,
        );
        let model = with_metadata(entries, meta);
        let entry = PageManifest {
            title: page.title.clone(),
            view_file_path: page.view.clone(),
            model_file_path: match &page.model {
                Some(m) => m.clone(),
                None => String::new(),
            },
            dist_path,
            dist_file_path,
            model,
        };
        proof {
            let ghost spec_entry = build_spec(page@, out_dir, *source, auth, year as int)->Ok_0;
            assert(entry@ == spec_entry);
        }
        self.manifest.push(entry);
        proof {
            assert(manifest_views(self.manifest@) =~= manifest_views(old(self).manifest@).push(
                self.manifest@.last()@,
            ));
        }
        Ok(())
    }

    /// Builds manifest entries for every declaration of the configuration,
    /// in order, with the given metadata year.  A declaration that fails is
    /// skipped — its error is collected and every other declaration still
    /// builds — so the errors come back in declaration order beside the
    /// entries appended to the manifest.
    pub fn build_manifests_with_year(&mut self, sources: &Vec<ModelSource>, year: i32) -> (errs:
        Vec<IronSSGError>)
        requires
            sources@.len() == old(self).config.page@.len(),
        ensures
            built_run(*old(self), *final(self), sources@, errs@, year as int),
    {
        let ghost pv = pages_view(old(self).config.page@);
        let ghost out_dir = output_dir_view(old(self).config@);
        let ghost auth = site_author_view(old(self).config@);
        let ghost y = year as int;
        let ghost full_entries = built_entries(pv, sources@, out_dir, auth, y);
        let ghost full_failures = built_failures(pv, sources@, out_dir, auth, y);
        let pages = clone_pages(&self.config.page);
        let mut errs: Vec<IronSSGError> = Vec::new();
        let ghost mut kinds: Seq<BuildFailure> = Seq::empty();
        let mut i: usize = 0;
        proof {
            assert(pv.subrange(0, pv.len() as int) =~= pv);
            assert(sources@.subrange(0, sources@.len() as int) =~= sources@);
            assert(manifest_views(self.manifest@) + full_entries =~= manifest_views(
                old(self).manifest@,
            ) + full_entries);
            assert(Seq::<BuildFailure>::empty() + full_failures =~= full_failures);
        }
        while i < pages.len()
            invariant
                i <= pv.len(),
                pages@.len() == pv.len(),
                sources@.len() == pv.len(),
                pages_view(pages@) == pv,
                self.config == old(self).config,
                pv == pages_view(old(self).config.page@),
                out_dir == output_dir_view(old(self).config@),
                auth == site_author_view(old(self).config@),
                y == year as int,
                full_entries == built_entries(pv, sources@, out_dir, auth, y),
                full_failures == built_failures(pv, sources@, out_dir, auth, y),
                manifest_views(self.manifest@) + built_entries(
                    pv.subrange(i as int, pv.len() as int),
                    sources@.subrange(i as int, pv.len() as int),
                    out_dir,
                    auth,
                    y,
                ) == manifest_views(old(self).manifest@) + full_entries,
                kinds + built_failures(
                    pv.subrange(i as int, pv.len() as int),
                    sources@.subrange(i as int, pv.len() as int),
                    out_dir,
                    auth,
                    y,
                ) == full_failures,
                errs@.len() == kinds.len(),
                forall|j: int| 0 <= j < kinds.len() ==> failure_error(kinds[j], #[trigger] errs@[j]),
            decreases pv.len() - i,
        {
            let ghost ptail = pv.subrange(i as int, pv.len() as int);
            let ghost stail = sources@.subrange(i as int, pv.len() as int);
            proof {
                assert(ptail[0] == pv[i as int]);
                assert(pv[i as int] == pages@[i as int]@);
                assert(stail[0] == sources@[i as int]);
                assert(ptail.drop_first() =~= pv.subrange(i + 1, pv.len() as int));
                assert(stail.drop_first() =~= sources@.subrange(i + 1, pv.len() as int));
            }
            let ghost pre_manifest = manifest_views(self.manifest@);
            let ghost pre_self = *self;
            let r = self.build_page_manifest(&pages[i], &sources[i], year);
            proof {
                assert(build_outcome(pre_self, *self, pages@[i as int]@, sources@[i as int], y, r));
                assert(output_dir_view(pre_self.config@) == out_dir);
                assert(site_author_view(pre_self.config@) == auth);
                let bs = build_spec(ptail[0], out_dir, stail[0], auth, y);
                assert(bs == build_spec(
                    pages@[i as int]@,
                    output_dir_view(pre_self.config@),
                    sources@[i as int],
                    site_author_view(pre_self.config@),
                    y,
                ));
                match bs {
                    Ok(entry) => {
                        assert(manifest_views(self.manifest@) =~= pre_manifest.push(entry));
                        assert(pre_manifest.push(entry) + built_entries(
                            ptail.drop_first(),
                            stail.drop_first(),
                            out_dir,
                            auth,
                            y,
                        ) =~= pre_manifest + built_entries(ptail, stail, out_dir, auth, y));
                        assert(built_failures(ptail, stail, out_dir, auth, y) == built_failures(
                            ptail.drop_first(),
                            stail.drop_first(),
                            out_dir,
                            auth,
                            y,
                        ));
                    },
                    Err(f) => {
                        assert(built_entries(ptail, stail, out_dir, auth, y) == built_entries(
                            ptail.drop_first(),
                            stail.drop_first(),
                            out_dir,
                            auth,
                            y,
                        ));
                        assert(kinds.push(f) + built_failures(
                            ptail.drop_first(),
                            stail.drop_first(),
                            out_dir,
                            auth,
                            y,
                        ) =~= kinds + built_failures(ptail, stail, out_dir, auth, y));
                    },
                }
            }
            match r {
                Ok(_) => {},
                Err(e) => {
                    errs.push(e);
                    proof {
                        let bs = build_spec(ptail[0], out_dir, stail[0], auth, y);
                        kinds = kinds.push(bs->Err_0);
                    }
                },
            }
            i = i + 1;
        }
        proof {
            assert(pv.subrange(pv.len() as int, pv.len() as int) =~= Seq::<PageView>::empty());
            assert(sources@.subrange(pv.len() as int, pv.len() as int) =~= Seq::<
                ModelSource,
            >::empty());
            assert(manifest_views(self.manifest@) + Seq::<PageManifestView>::empty()
                =~= manifest_views(self.manifest@));
            assert(kinds + Seq::<BuildFailure>::empty() =~= kinds);
        }
        errs
    }

    /// Builds manifest entries for every declaration with the current
    /// calendar year as the metadata year.  The year is read from the wall
    /// clock, so the outcome is that of `build_manifests_with_year` for some
    /// year; callers that need a reproducible manifest inject the year
    /// there instead.
    pub fn build_manifests(&mut self, sources: &Vec<ModelSource>) -> (errs: Vec<IronSSGError>)
        requires
            sources@.len() == old(self).config.page@.len(),
        ensures
            exists|y: int| built_run(*old(self), *final(self), sources@, errs@, y),
    {
        let year = now_year();
        let errs = self.build_manifests_with_year(sources, year);
        proof {
            assert(built_run(*old(self), *self, sources@, errs@, year as int));
        }
        errs
    }

    /// Renders one manifest entry: looks its view up in the store and
    /// renders the template text against the merged model written as JSON
    /// object text, handing back the rendered output text.  Fails with
    /// `TemplateNotFound` exactly when the view identifier is not in the
    /// store, and with `RenderFailure` when the engine rejects the pair.
    pub fn generate_page(&self, store: &TemplateStore, manifest: &PageManifest) -> (r: Result<
        String,
        IronSSGError,
    >)
        ensures
            match render_spec(store@, manifest@) {
                Ok(out) => r matches Ok(s) && s@ == out,
                Err(k) => r matches Err(e) && render_error(k, manifest@, e),
            },
    {
        let tpl = match store.lookup(manifest.view_file_path.as_str()) {
            Some(t) => t,
            None => {
                return Err(IronSSGError::TemplateNotFound(manifest.view_file_path.clone()));
            },
        };
        let text = crate::model::model_text(&manifest.model);
        match render_template_text(tpl.as_str(), text.as_str()) {
            Ok(s) => Ok(s),
            Err(m) => Err(IronSSGError::RenderFailure(m)),
        }
    }

    /// Renders every entry of the manifest, in order.  An entry that fails
    /// is skipped — its error is collected and every other entry still
    /// renders — so the first list pairs each rendered entry's output file
    /// path with its rendered text, and the second holds the errors of the
    /// entries that failed, both in manifest order.
    pub fn generate_pages(&self, store: &TemplateStore) -> (r: (
        Vec<(String, String)>,
        Vec<IronSSGError>,
    ))
        ensures
            crate::model::entries_view(r.0@) == rendered_outputs(
                store@,
                manifest_views(self.manifest@),
            ),
            r.1@.len() == rendered_failures(store@, manifest_views(self.manifest@)).len(),
            forall|i: int|
                0 <= i < r.1@.len() ==> render_error(
                    rendered_failures(store@, manifest_views(self.manifest@))[i].1,
                    rendered_failures(store@, manifest_views(self.manifest@))[i].0,
                    #[trigger] r.1@[i],
                ),
    {
        let ghost mv = manifest_views(self.manifest@);
        let ghost ts = store@;
        let mut outputs: Vec<(String, String)> = Vec::new();
        let mut errs: Vec<IronSSGError> = Vec::new();
        let ghost mut fails: Seq<(PageManifestView, RenderFailureKind)> = Seq::empty();
        let mut i: usize = 0;
        proof {
            assert(mv.subrange(0, mv.len() as int) =~= mv);
            assert(crate::model::entries_view(outputs@) + rendered_outputs(ts, mv)
                =~= rendered_outputs(ts, mv));
            assert(fails + rendered_failures(ts, mv) =~= rendered_failures(ts, mv));
        }
        while i < self.manifest.len()
            invariant
                i <= mv.len(),
                self.manifest@.len() == mv.len(),
                mv == manifest_views(self.manifest@),
                ts == store@,
                crate::model::entries_view(outputs@) + rendered_outputs(
                    ts,
                    mv.subrange(i as int, mv.len() as int),
                ) == rendered_outputs(ts, mv),
                fails + rendered_failures(ts, mv.subrange(i as int, mv.len() as int))
                    == rendered_failures(ts, mv),
                errs@.len() == fails.len(),
                forall|j: int|
                    0 <= j < fails.len() ==> render_error(
                        fails[j].1,
                        fails[j].0,
                        #[trigger] errs@[j],
                    ),
            decreases mv.len() - i,
        {
            let ghost mtail = mv.subrange(i as int, mv.len() as int);
            proof {
                assert(mtail[0] == mv[i as int]);
                assert(mv[i as int] == self.manifest@[i as int]@);
                assert(mtail.drop_first() =~= mv.subrange(i + 1, mv.len() as int));
            }
            let entry = &self.manifest[i];
            match self.generate_page(store, entry) {
                Ok(out) => {
                    let path = entry.dist_file_path.clone();
                    outputs.push((path, out));
                    proof {
                        let rs = render_spec(ts, mtail[0]);
                        assert(crate::model::entries_view(outputs@) =~= crate::model::entries_view(
                            outputs@.drop_last(),
                        ).push((mtail[0].dist_file_path, rs->Ok_0)));
                        assert(crate::model::entries_view(outputs@.drop_last()).push(
                            (mtail[0].dist_file_path, rs->Ok_0),
                        ) + rendered_outputs(ts, mtail.drop_first())
                            =~= crate::model::entries_view(outputs@.drop_last())
                            + rendered_outputs(ts, mtail));
                        assert(rendered_failures(ts, mtail) == rendered_failures(
                            ts,
                            mtail.drop_first(),
                        ));
                    }
                },
                Err(e) => {
                    errs.push(e);
                    proof {
                        let rs = render_spec(ts, mtail[0]);
                        fails = fails.push((mtail[0], rs->Err_0));
                        assert(rendered_outputs(ts, mtail) == rendered_outputs(
                            ts,
                            mtail.drop_first(),
                        ));
                        assert(fails + rendered_failures(ts, mtail.drop_first())
                            =~= fails.drop_last() + rendered_failures(ts, mtail));
                    }
                },
            }
            i = i + 1;
        }
        proof {
            assert(mv.subrange(mv.len() as int, mv.len() as int) =~= Seq::<
                PageManifestView,
            >::empty());
            assert(crate::model::entries_view(outputs@) + Seq::<(Seq<char>, Seq<char>)>::empty()
                =~= crate::model::entries_view(outputs@));
            assert(fails + Seq::<(PageManifestView, RenderFailureKind)>::empty() =~= fails);
        }
        (outputs, errs)
    }
}

/// A declaration whose `title` or `view` is empty produces no manifest
/// entry, and its siblings are unaffected: the entries of a run are exactly
/// the entries of the run without it, while the run's failures count one
/// more.
pub proof fn lemma_invalid_page_builds_nothing(
    pages: Seq<PageView>,
    srcs: Seq<ModelSource>,
    output: Seq<char>,
    author: Seq<char>,
    year: int,
    i: int,
)
    requires
        srcs.len() == pages.len(),
        0 <= i < pages.len(),
        pages[i].title.len() == 0 || pages[i].view.len() == 0,
    ensures
        built_entries(pages, srcs, output, author, year) == built_entries(
            pages.remove(i),
            srcs.remove(i),
            output,
            author,
            year,
        ),
        built_failures(pages, srcs, output, author, year).len() == built_failures(
            pages.remove(i),
            srcs.remove(i),
            output,
            author,
            year,
        ).len() + 1,
    decreases i,
{
    if i == 0 {
        assert(build_spec(pages[0], output, srcs[0], author, year) is Err);
        assert(pages.remove(0) =~= pages.drop_first());
        assert(srcs.remove(0) =~= srcs.drop_first());
    } else {
        lemma_invalid_page_builds_nothing(
            pages.drop_first(),
            srcs.drop_first(),
            output,
            author,
            year,
            i - 1,
        );
        assert(pages.drop_first()[i - 1] == pages[i]);
        assert(pages.remove(i)[0] == pages[0]);
        assert(srcs.remove(i)[0] == srcs[0]);
        assert(pages.remove(i).drop_first() =~= pages.drop_first().remove(i - 1));
        assert(srcs.remove(i).drop_first() =~= srcs.drop_first().remove(i - 1));
    }
}

/// Every declaration is accounted for exactly once: a run yields one
/// manifest entry per declaration that builds and one failure per
/// declaration that does not, and nothing else.
pub proof fn lemma_one_outcome_per_page(
    pages: Seq<PageView>,
    srcs: Seq<ModelSource>,
    output: Seq<char>,
    author: Seq<char>,
    year: int,
)
    requires
        srcs.len() == pages.len(),
    ensures
        built_entries(pages, srcs, output, author, year).len() + built_failures(
            pages,
            srcs,
            output,
            author,
            year,
        ).len() == pages.len(),
    decreases pages.len(),
{
    if pages.len() > 0 {
        lemma_one_outcome_per_page(pages.drop_first(), srcs.drop_first(), output, author, year);
    }
}

/// The resolved output file path of a declaration: `{output}/{slug}.html`
/// when its `path` is absent, empty or exactly `/`, and
/// `{output}/{trimmed path}/{slug}.html` otherwise, with trailing slashes
/// trimmed from the path.
pub proof fn lemma_output_path_resolution(p: PageView, output: Seq<char>)
    ensures
        (p.path is None || p.path == Some(Seq::<char>::empty()) || p.path == Some("/"@))
            ==> dist_file_spec(output, p.path, p.slug) == output + seq!['/'] + p.slug + ".html"@,
        (match p.path {
            Some(q) => q.len() > 0 && q != "/"@,
            None => false,
        }) ==> dist_file_spec(output, p.path, p.slug) == output + seq!['/'] + trimmed_end_slashes(
            p.path->Some_0,
        ) + seq!['/'] + p.slug + ".html"@,
{
}

/// A configured asset directory that does not exist is only skipped: it
/// lands among the warned-about directories, and the directories copied are
/// exactly those of the plan without it — the rest of the run is unaffected.
pub proof fn lemma_missing_asset_dir_skipped(dirs: Seq<Seq<char>>, exists: Seq<bool>, i: int)
    requires
        dirs.len() == exists.len(),
        0 <= i < dirs.len(),
        !exists[i],
    ensures
        existing_dirs(dirs, exists) == existing_dirs(dirs.remove(i), exists.remove(i)),
        missing_dirs(dirs, exists).contains(dirs[i]),
    decreases i,
{
    if i == 0 {
        assert(dirs.remove(0) =~= dirs.drop_first());
        assert(exists.remove(0) =~= exists.drop_first());
        assert(missing_dirs(dirs, exists)[0] == dirs[0]);
    } else {
        lemma_missing_asset_dir_skipped(dirs.drop_first(), exists.drop_first(), i - 1);
        assert(dirs.drop_first()[i - 1] == dirs[i]);
        assert(dirs.remove(i)[0] == dirs[0]);
        assert(exists.remove(i)[0] == exists[0]);
        assert(dirs.remove(i).drop_first() =~= dirs.drop_first().remove(i - 1));
        assert(exists.remove(i).drop_first() =~= exists.drop_first().remove(i - 1));
        if exists[0] {
            assert(missing_dirs(dirs, exists) == missing_dirs(
                dirs.drop_first(),
                exists.drop_first(),
            ));
        } else {
            assert(missing_dirs(dirs, exists)[0] == dirs[0]);
            let rest = missing_dirs(dirs.drop_first(), exists.drop_first());
            let k = choose|k: int| 0 <= k < rest.len() && rest[k] == dirs[i];
            assert(missing_dirs(dirs, exists)[k + 1] == dirs[i]);
        }
    }
}

} // verus!
