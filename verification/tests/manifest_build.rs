use iron_ssg::model::build_metadata_text;
use iron_ssg::model::model_text;
use iron_ssg::model::with_metadata;
use iron_ssg::ssg::plan_asset_copy;
use iron_ssg::text::int_to_string;
use iron_ssg::text::json_quote;
use iron_ssg::text::trim_end_slashes;
use iron_ssg::text::path_has_json_ext;
use iron_ssg::text::join_comma;
use iron_ssg::IronSSG;
use iron_ssg::IronSSGConfig;
use iron_ssg::IronSSGError;
use iron_ssg::IronSSGPage;
use iron_ssg::ModelSource;

fn page(title: &str, view: &str, slug: &str) -> IronSSGPage {
    IronSSGPage {
        controller: None,
        path: None,
        slug: slug.to_string(),
        title: title.to_string(),
        description: None,
        view: view.to_string(),
        components: None,
        model: None,
    }
}

fn config_with(pages: Vec<IronSSGPage>, output: &str) -> IronSSGConfig {
    IronSSGConfig {
        logging: Some(false),
        verbose: Some(true),
        clean: Some(true),
        output: Some(output.to_string()),
        static_assets: None,
        authors: vec!["Ada Lovelace".to_string()],
        name: "My Site".to_string(),
        version: "0.1.0".to_string(),
        page: pages,
    }
}

#[test]
fn missing_title_and_view_fail_but_siblings_build() {
    let pages = vec![
        page("", "home", "index"),
        page("Home", "home", "index"),
        page("About", "", "about"),
    ];
    let mut ssg = IronSSG::new(config_with(pages, "dist"));
    let sources = vec![ModelSource::NoModel, ModelSource::NoModel, ModelSource::NoModel];
    let errs = ssg.build_manifests_with_year(&sources, 2024);
    assert_eq!(errs.len(), 2);
    assert_eq!(errs[0].message(), "Missing 'title' field");
    assert_eq!(errs[1].message(), "Missing 'view' field");
    assert_eq!(ssg.manifest.len(), 1);
    assert_eq!(ssg.manifest[0].title, "Home");
}

#[test]
fn output_path_resolution() {
    let with_path = |p: Option<&str>, slug: &str| IronSSGPage {
        controller: None,
        path: p.map(|s| s.to_string()),
        slug: slug.to_string(),
        title: "T".to_string(),
        description: None,
        view: "v".to_string(),
        components: None,
        model: None,
    };
    let pages = vec![
        with_path(None, "index"),
        with_path(Some(""), "index"),
        with_path(Some("/"), "root"),
        with_path(Some("blog/"), "post"),
        with_path(Some("a/b//"), "c"),
    ];
    let mut ssg = IronSSG::new(config_with(pages, "site"));
    let sources = vec![
        ModelSource::NoModel,
        ModelSource::NoModel,
        ModelSource::NoModel,
        ModelSource::NoModel,
        ModelSource::NoModel,
    ];
    let errs = ssg.build_manifests_with_year(&sources, 2024);
    assert!(errs.is_empty());
    assert_eq!(ssg.manifest[0].dist_path, "site");
    assert_eq!(ssg.manifest[0].dist_file_path, "site/index.html");
    assert_eq!(ssg.manifest[1].dist_file_path, "site/index.html");
    assert_eq!(ssg.manifest[2].dist_file_path, "site/root.html");
    assert_eq!(ssg.manifest[3].dist_path, "site/blog");
    assert_eq!(ssg.manifest[3].dist_file_path, "site/blog/post.html");
    assert_eq!(ssg.manifest[4].dist_path, "site/a/b");
    assert_eq!(ssg.manifest[4].dist_file_path, "site/a/b/c.html");
}

#[test]
fn invalid_model_fails_only_its_page() {
    let mut bad = page("Bad", "bad", "bad");
    bad.model = Some("bad.json".to_string());
    let good = page("Good", "good", "good");
    let mut ssg = IronSSG::new(config_with(vec![bad, good], "dist"));
    let sources = vec![
        ModelSource::Loaded("{ not json".to_string()),
        ModelSource::NoModel,
    ];
    let errs = ssg.build_manifests_with_year(&sources, 2024);
    assert_eq!(errs.len(), 1);
    assert!(matches!(errs[0], IronSSGError::InvalidModel(_)));
    assert_eq!(ssg.manifest.len(), 1);
    assert_eq!(ssg.manifest[0].title, "Good");
}

#[test]
fn unreadable_model_reports_io_error() {
    let mut p = page("T", "v", "index");
    p.model = Some("data.json".to_string());
    let mut ssg = IronSSG::new(config_with(vec![p], "dist"));
    let sources = vec![ModelSource::Unreadable("no such file".to_string())];
    let errs = ssg.build_manifests_with_year(&sources, 2024);
    assert_eq!(errs.len(), 1);
    assert_eq!(errs[0].message(), "File error: no such file");
    assert!(ssg.manifest.is_empty());
}

#[test]
fn non_json_model_is_ignored() {
    let mut p = page("T", "v", "index");
    p.model = Some("data.toml".to_string());
    assert!(IronSSG::model_file_to_read(&p).is_none());
    p.model = Some("data.json".to_string());
    assert_eq!(IronSSG::model_file_to_read(&p), Some("data.json".to_string()));

    let mut q = page("T", "v", "index");
    q.model = Some("data.toml".to_string());
    let mut ssg = IronSSG::new(config_with(vec![q], "dist"));
    let sources = vec![ModelSource::NoModel];
    let errs = ssg.build_manifests_with_year(&sources, 2024);
    assert!(errs.is_empty());
    assert_eq!(ssg.manifest.len(), 1);
    assert_eq!(ssg.manifest[0].model_file_path, "data.toml");
    assert_eq!(ssg.manifest[0].model.len(), 1);
    assert_eq!(ssg.manifest[0].model[0].0, "metadata");
}

#[test]
fn model_entries_and_metadata_merge() {
    let mut p = page("Home", "home", "index");
    p.description = Some("front door".to_string());
    p.model = Some("m.json".to_string());
    let mut ssg = IronSSG::new(config_with(vec![p], "dist"));
    let text = "{\"a\": 1, \"metadata\": {\"x\": 2}, \"b\": \"two\"}";
    let sources = vec![ModelSource::Loaded(text.to_string())];
    let errs = ssg.build_manifests_with_year(&sources, 2024);
    assert!(errs.is_empty());
    let m = &ssg.manifest[0];
    assert_eq!(m.model.len(), 3);
    assert_eq!(m.model[0].0, "a");
    assert_eq!(m.model[0].1, "1");
    assert_eq!(m.model[1].0, "metadata");
    assert_eq!(
        m.model[1].1,
        "{\"title\":\"Home\",\"description\":\"front door\",\"author\":\"Ada Lovelace\",\"year\":2024}"
    );
    assert_eq!(m.model[2].0, "b");
    assert_eq!(m.model[2].1, "\"two\"");

    let parsed: serde_json::Value = serde_json::from_str(&model_text_of(m)).unwrap();
    assert_eq!(parsed["a"], serde_json::Value::from(1));
    assert_eq!(parsed["metadata"]["title"], serde_json::Value::from("Home"));
    assert_eq!(parsed["metadata"]["year"], serde_json::Value::from(2024));
    assert_eq!(parsed["b"], serde_json::Value::from("two"));
}

fn model_text_of(m: &iron_ssg::PageManifest) -> String {
    model_text(&m.model)
}

#[test]
fn metadata_text_escapes_strings() {
    let t = build_metadata_text("Ti\"tle", "de\\sc", "a\nb", -5);
    assert_eq!(
        t,
        "{\"title\":\"Ti\\\"tle\",\"description\":\"de\\\\sc\",\"author\":\"a\\u000ab\",\"year\":-5}"
    );
}

#[test]
fn with_metadata_appends_or_overwrites() {
    let entries = vec![("a".to_string(), "1".to_string())];
    let merged = with_metadata(entries, "{}".to_string());
    assert_eq!(merged.len(), 2);
    assert_eq!(merged[1].0, "metadata");
    assert_eq!(merged[1].1, "{}");

    let entries = vec![
        ("metadata".to_string(), "\"old\"".to_string()),
        ("z".to_string(), "null".to_string()),
    ];
    let merged = with_metadata(entries, "\"new\"".to_string());
    assert_eq!(merged.len(), 2);
    assert_eq!(merged[0].0, "metadata");
    assert_eq!(merged[0].1, "\"new\"");
    assert_eq!(merged[1].0, "z");
}

#[test]
fn text_helpers() {
    assert_eq!(int_to_string(0), "0");
    assert_eq!(int_to_string(2024), "2024");
    assert_eq!(int_to_string(-5), "-5");
    assert_eq!(int_to_string(i32::MIN), "-2147483648");
    assert_eq!(int_to_string(i32::MAX), "2147483647");

    assert_eq!(trim_end_slashes("blog/"), "blog");
    assert_eq!(trim_end_slashes("a/b//"), "a/b");
    assert_eq!(trim_end_slashes("///"), "");
    assert_eq!(trim_end_slashes("plain"), "plain");

    assert!(path_has_json_ext("m.json"));
    assert!(!path_has_json_ext("m.JSON"));
    assert!(!path_has_json_ext("json"));
    assert!(!path_has_json_ext("m.json5"));
    assert!(!path_has_json_ext(""));

    assert_eq!(json_quote("plain"), "\"plain\"");
    assert_eq!(json_quote("a\"b\\c"), "\"a\\\"b\\\\c\"");
    assert_eq!(json_quote("tab\there"), "\"tab\\u0009here\"");

    assert_eq!(join_comma(&vec![]), "");
    assert_eq!(join_comma(&vec!["Ada".to_string()]), "Ada");
    assert_eq!(
        join_comma(&vec!["Ada".to_string(), "Grace".to_string()]),
        "Ada, Grace"
    );
}

#[test]
fn asset_plan_splits_by_existence() {
    let dirs = vec!["public".to_string(), "missing".to_string(), "static".to_string()];
    let exists = vec![true, false, true];
    let (copy, skip) = plan_asset_copy(&dirs, &exists);
    assert_eq!(copy, vec!["public".to_string(), "static".to_string()]);
    assert_eq!(skip, vec!["missing".to_string()]);
}
