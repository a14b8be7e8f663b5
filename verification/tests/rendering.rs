use iron_ssg::IronSSG;
use iron_ssg::IronSSGConfig;
use iron_ssg::IronSSGError;
use iron_ssg::IronSSGPage;
use iron_ssg::ModelSource;
use iron_ssg::TemplateStore;

fn page_with(title: &str, view: &str, slug: &str, path: Option<&str>) -> IronSSGPage {
    IronSSGPage {
        controller: None,
        path: path.map(|s| s.to_string()),
        slug: slug.to_string(),
        title: title.to_string(),
        description: None,
        view: view.to_string(),
        components: None,
        model: None,
    }
}

fn site_config(pages: Vec<IronSSGPage>, output: &str) -> IronSSGConfig {
    IronSSGConfig {
        logging: Some(false),
        verbose: Some(true),
        clean: Some(true),
        output: Some(output.to_string()),
        static_assets: None,
        authors: vec!["Ada Lovelace".to_string()],
        name: "My Site".to_string(),
        version: "0.1.0".to_string(),
        page: pages,
    }
}

#[test]
fn renders_home_and_about_scenario() {
    let pages = vec![
        page_with("Home", "home", "index", None),
        page_with("About", "about", "about", Some("/about")),
    ];
    let mut ssg = IronSSG::new(site_config(pages, "site"));
    let sources = vec![ModelSource::NoModel, ModelSource::NoModel];
    let errs = ssg.build_manifests_with_year(&sources, 2024);
    assert!(errs.is_empty());
    assert_eq!(ssg.manifest.len(), 2);
    assert_eq!(ssg.manifest[0].dist_file_path, "site/index.html");
    // The declared path keeps its leading slash, so the resolved string
    // carries a doubled separator; on disk it names site/about/about.html.
    assert_eq!(ssg.manifest[1].dist_file_path, "site//about/about.html");

    let mut store = TemplateStore::new();
    store.register("home".to_string(), "home page: {{metadata.title}}".to_string());
    store.register("about".to_string(), "about page: {{metadata.title}}".to_string());
    let (outputs, render_errs) = ssg.generate_pages(&store);
    assert!(render_errs.is_empty());
    assert_eq!(outputs.len(), 2);
    assert_eq!(outputs[0].0, "site/index.html");
    assert_eq!(outputs[0].1, "home page: Home");
    assert_eq!(outputs[1].0, "site//about/about.html");
    assert_eq!(outputs[1].1, "about page: About");
}

#[test]
fn rendering_is_idempotent() {
    let mut p = page_with("Home", "home", "index", None);
    p.model = Some("m.json".to_string());
    let mut ssg = IronSSG::new(site_config(vec![p], "dist"));
    let sources = vec![ModelSource::Loaded(
        "{\"items\": [1, 2, 3], \"name\": \"x\"}".to_string(),
    )];
    let errs = ssg.build_manifests_with_year(&sources, 2024);
    assert!(errs.is_empty());
    let mut store = TemplateStore::new();
    store.register(
        "home".to_string(),
        "{{name}}: {{#each items}}{{this}};{{/each}} ({{metadata.year}})".to_string(),
    );
    let first = ssg.generate_page(&store, &ssg.manifest[0]).unwrap();
    let second = ssg.generate_page(&store, &ssg.manifest[0]).unwrap();
    assert_eq!(first, second);
    assert_eq!(first, "x: 1;2;3; (2024)");
}

#[test]
fn missing_template_is_reported() {
    let pages = vec![page_with("Home", "nowhere", "index", None)];
    let mut ssg = IronSSG::new(site_config(pages, "dist"));
    let sources = vec![ModelSource::NoModel];
    let errs = ssg.build_manifests_with_year(&sources, 2024);
    assert!(errs.is_empty());
    let store = TemplateStore::new();
    let r = ssg.generate_page(&store, &ssg.manifest[0]);
    match r {
        Err(IronSSGError::TemplateNotFound(v)) => assert_eq!(v, "nowhere"),
        _ => panic!("expected a missing-template error"),
    }
}

#[test]
fn broken_template_fails_only_its_page() {
    let pages = vec![
        page_with("Bad", "bad", "bad", None),
        page_with("Good", "good", "good", None),
    ];
    let mut ssg = IronSSG::new(site_config(pages, "dist"));
    let sources = vec![ModelSource::NoModel, ModelSource::NoModel];
    let errs = ssg.build_manifests_with_year(&sources, 2024);
    assert!(errs.is_empty());
    let mut store = TemplateStore::new();
    store.register("bad".to_string(), "{{#if}}".to_string());
    store.register("good".to_string(), "fine: {{metadata.title}}".to_string());
    let (outputs, render_errs) = ssg.generate_pages(&store);
    assert_eq!(render_errs.len(), 1);
    assert!(matches!(render_errs[0], IronSSGError::RenderFailure(_)));
    assert_eq!(outputs.len(), 1);
    assert_eq!(outputs[0].0, "dist/good.html");
    assert_eq!(outputs[0].1, "fine: Good");
}

#[test]
fn template_store_lookup_finds_first_entry() {
    let mut store = TemplateStore::new();
    store.register("a".to_string(), "first".to_string());
    store.register("a".to_string(), "second".to_string());
    store.register("b".to_string(), "other".to_string());
    assert_eq!(store.lookup("a"), Some("first".to_string()));
    assert_eq!(store.lookup("b"), Some("other".to_string()));
    assert_eq!(store.lookup("c"), None);
}

#[test]
fn build_manifests_uses_wall_clock_year() {
    let pages = vec![page_with("Home", "home", "index", None)];
    let mut ssg = IronSSG::new(site_config(pages, "dist"));
    let sources = vec![ModelSource::NoModel];
    let errs = ssg.build_manifests(&sources);
    assert!(errs.is_empty());
    assert_eq!(ssg.manifest.len(), 1);
    let meta = &ssg.manifest[0].model[0];
    assert_eq!(meta.0, "metadata");
    assert!(meta.1.contains("\"year\":"));
}
