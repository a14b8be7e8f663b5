use vstd::prelude::*;

use crate::config::opt_text;
use crate::config::opt_texts;

verus! {

/// A page entry of a serialized site manifest: the same shape as a page
/// declaration, kept as a plain data carrier for diagnostics output.
#[derive(Debug)]
pub struct IronSSGPageManifest {
    pub controller: Option<String>,
    pub path: Option<String>,
    pub slug: String,
    pub title: String,
    pub description: Option<String>,
    pub view: String,
    pub components: Option<Vec<String>>,
    pub model: Option<String>,
}

impl Default for IronSSGPageManifest {
    /// The defaults of a page entry: slug `"index"`, everything else empty.
    fn default() -> (r: Self)
        ensures
            opt_text(r.controller) is None,
            opt_text(r.path) is None,
            r.slug@ == "index"@,
            r.title@ == Seq::<char>::empty(),
            opt_text(r.description) is None,
            r.view@ == Seq::<char>::empty(),
            opt_texts(r.components) is None,
            opt_text(r.model) is None,
    {
        IronSSGPageManifest {
            controller: None,
            path: None,
            slug: String::from_str("index"),
            title: String::new(),
            description: None,
            view: String::new(),
            components: None,
            model: None,
        }
    }
}

/// A serialized site manifest: the site configuration together with the
/// template folder the run was made with; a plain data carrier for
/// diagnostics output.
#[derive(Debug)]
pub struct IronSSGSiteManifest {
    pub logging: Option<bool>,
    pub verbose: Option<bool>,
    pub clean: Option<bool>,
    pub output: Option<String>,
    pub static_assets: Option<Vec<String>>,
    pub authors: Vec<String>,
    pub name: String,
    pub version: String,
    pub page: Vec<IronSSGPageManifest>,
    pub template_folder: String,
}

impl Default for IronSSGSiteManifest {
    /// The documented defaults, with `templates` as the template folder.
    fn default() -> (r: Self)
        ensures
            r.logging == Some(false),
            r.verbose == Some(true),
            r.clean == Some(true),
            opt_text(r.output) == Some("dist"@),
            opt_texts(r.static_assets) is None,
            r.authors@.len() == 0,
            r.name@ == "IronSSG Website"@,
            r.version@ == "0.1.0"@,
            r.page@.len() == 0,
            r.template_folder@ == "templates"@,
    {
        IronSSGSiteManifest {
            logging: Some(false),
            verbose: Some(true),
            clean: Some(true),
            output: Some(String::from_str("dist")),
            static_assets: None,
            authors: Vec::new(),
            name: String::from_str("IronSSG Website"),
            version: String::from_str("0.1.0"),
            page: Vec::new(),
            template_folder: String::from_str("templates"),
        }
    }
}

} // verus!
