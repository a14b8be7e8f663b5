//! A declarative static-site build pipeline.
//!
//! A site is described by a configuration: site-wide settings plus an ordered
//! list of page declarations.  Each declaration is validated and resolved into
//! a render-ready manifest entry (output paths, merged data model), and every
//! entry is then rendered through a template engine.  Failures while building
//! or rendering one page are reported and do not abort the other pages.

pub mod config;
pub mod errors;
pub mod model;
pub mod page_manifest;
pub mod render;
pub mod site_manifest;
pub mod ssg;
pub mod text;

pub use config::IronSSGConfig;
pub use config::IronSSGPage;
pub use errors::IronSSGError;
pub use page_manifest::PageManifest;
pub use render::TemplateStore;
pub use site_manifest::IronSSGPageManifest;
pub use site_manifest::IronSSGSiteManifest;
pub use ssg::IronSSG;
pub use ssg::ModelSource;
