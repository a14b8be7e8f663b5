use iron_ssg::config::ConfigSource;
use iron_ssg::config::PageSource;
use iron_ssg::config::validate_config;
use iron_ssg::IronSSGConfig;
use iron_ssg::IronSSGError;
use iron_ssg::IronSSGPage;
use iron_ssg::IronSSGPageManifest;
use iron_ssg::IronSSGSiteManifest;

fn empty_source() -> ConfigSource {
    ConfigSource {
        logging: None,
        verbose: None,
        clean: None,
        output: None,
        static_assets: None,
        authors: None,
        name: None,
        version: None,
        page: Vec::new(),
    }
}

fn full_source() -> ConfigSource {
    ConfigSource {
        logging: Some(true),
        verbose: Some(false),
        clean: Some(false),
        output: Some("site".to_string()),
        static_assets: Some(vec!["public".to_string()]),
        authors: Some(vec!["Ada".to_string(), "Grace".to_string()]),
        name: Some("My Site".to_string()),
        version: Some("1.2.3".to_string()),
        page: vec![PageSource {
            controller: None,
            path: Some("/about".to_string()),
            slug: None,
            title: Some("About".to_string()),
            description: Some("about page".to_string()),
            view: Some("about".to_string()),
            components: None,
            model: None,
        }],
    }
}

#[test]
fn config_default_values() {
    let c = IronSSGConfig::default();
    assert_eq!(c.logging, Some(false));
    assert_eq!(c.verbose, Some(true));
    assert_eq!(c.clean, Some(true));
    assert_eq!(c.output, Some("dist".to_string()));
    assert!(c.static_assets.is_none());
    assert!(c.authors.is_empty());
    assert_eq!(c.name, "IronSSG Website");
    assert_eq!(c.version, "0.1.0");
    assert!(c.page.is_empty());
}

#[test]
fn page_default_values() {
    let p = IronSSGPage::default();
    assert_eq!(p.slug, "index");
    assert_eq!(p.title, "");
    assert_eq!(p.view, "");
    assert!(p.controller.is_none());
    assert!(p.path.is_none());
    assert!(p.description.is_none());
    assert!(p.components.is_none());
    assert!(p.model.is_none());
}

#[test]
fn site_manifest_default_values() {
    let m = IronSSGSiteManifest::default();
    assert_eq!(m.logging, Some(false));
    assert_eq!(m.verbose, Some(true));
    assert_eq!(m.clean, Some(true));
    assert_eq!(m.output, Some("dist".to_string()));
    assert!(m.static_assets.is_none());
    assert!(m.authors.is_empty());
    assert_eq!(m.name, "IronSSG Website");
    assert_eq!(m.version, "0.1.0");
    assert!(m.page.is_empty());
    assert_eq!(m.template_folder, "templates");

    let pm = IronSSGPageManifest::default();
    assert_eq!(pm.slug, "index");
    assert_eq!(pm.title, "");
    assert_eq!(pm.view, "");
}

#[test]
fn validate_rejects_missing_name() {
    let r = validate_config(empty_source());
    match r {
        Err(IronSSGError::ConfigError(m)) => {
            assert_eq!(m, "missing required field 'name'");
        }
        _ => panic!("expected a configuration error"),
    }
}

#[test]
fn validate_rejects_missing_version_and_authors() {
    let mut s = empty_source();
    s.name = Some("My Site".to_string());
    match validate_config(s) {
        Err(IronSSGError::ConfigError(m)) => assert_eq!(m, "missing required field 'version'"),
        _ => panic!("expected a configuration error"),
    }
    let mut s = empty_source();
    s.name = Some("My Site".to_string());
    s.version = Some("0.1.0".to_string());
    match validate_config(s) {
        Err(IronSSGError::ConfigError(m)) => assert_eq!(m, "missing required field 'authors'"),
        _ => panic!("expected a configuration error"),
    }
}

#[test]
fn validate_applies_defaults() {
    let mut s = empty_source();
    s.name = Some("My Site".to_string());
    s.version = Some("0.1.0".to_string());
    s.authors = Some(Vec::new());
    s.page = vec![PageSource {
        controller: None,
        path: None,
        slug: None,
        title: None,
        description: None,
        view: None,
        components: None,
        model: None,
    }];
    let c = validate_config(s).unwrap();
    assert_eq!(c.logging, Some(false));
    assert_eq!(c.verbose, Some(true));
    assert_eq!(c.clean, Some(true));
    assert_eq!(c.output, Some("dist".to_string()));
    assert_eq!(c.page.len(), 1);
    assert_eq!(c.page[0].slug, "index");
    assert_eq!(c.page[0].title, "");
    assert_eq!(c.page[0].view, "");
}

#[test]
fn validate_keeps_given_values() {
    let c = validate_config(full_source()).unwrap();
    assert_eq!(c.logging, Some(true));
    assert_eq!(c.verbose, Some(false));
    assert_eq!(c.clean, Some(false));
    assert_eq!(c.output, Some("site".to_string()));
    assert_eq!(c.static_assets, Some(vec!["public".to_string()]));
    assert_eq!(c.authors, vec!["Ada".to_string(), "Grace".to_string()]);
    assert_eq!(c.name, "My Site");
    assert_eq!(c.version, "1.2.3");
    assert_eq!(c.page.len(), 1);
    assert_eq!(c.page[0].title, "About");
    assert_eq!(c.page[0].view, "about");
    assert_eq!(c.page[0].path, Some("/about".to_string()));
    assert_eq!(c.page[0].slug, "index");
}

#[test]
fn error_messages() {
    assert_eq!(
        IronSSGError::ConfigError("boom".to_string()).message(),
        "Configuration error: boom"
    );
    assert_eq!(
        IronSSGError::MissingField("title".to_string()).message(),
        "Missing 'title' field"
    );
    assert_eq!(
        IronSSGError::InvalidModel("bad".to_string()).message(),
        "Invalid JSON: bad"
    );
    assert_eq!(IronSSGError::IOError("gone".to_string()).message(), "File error: gone");
    assert_eq!(
        IronSSGError::TemplateNotFound("home".to_string()).message(),
        "Template not found: home"
    );
    assert_eq!(
        IronSSGError::RenderFailure("oops".to_string()).message(),
        "Rendering error: oops"
    );
}
