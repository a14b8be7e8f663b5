use vstd::prelude::*;

use crate::model::entries_view;

verus! {

/// One page manifest entry: the fully resolved, render-ready description of
/// one output page.
///
/// `view_file_path` is the template identifier the page is rendered with,
/// `model_file_path` the declared model file (empty when the page has none),
/// `dist_path` the resolved output directory, `dist_file_path` the resolved
/// output file `{dist_path}/{slug}.html`, and `model` the merged data model:
/// the entries of the loaded model object with the computed `metadata`
/// object attached.
#[derive(Debug)]
pub struct PageManifest {
    pub title: String,
    pub view_file_path: String,
    pub model_file_path: String,
    pub dist_path: String,
    pub dist_file_path: String,
    pub model: Vec<(String, String)>,
}

/// The mathematical view of a page manifest entry.
pub ghost struct PageManifestView {
    pub title: Seq<char>,
    pub view_file_path: Seq<char>,
    pub model_file_path: Seq<char>,
    pub dist_path: Seq<char>,
    pub dist_file_path: Seq<char>,
    pub model: Seq<(Seq<char>, Seq<char>)>,
}

impl View for PageManifest {
    type V = PageManifestView;

    open spec fn view(&self) -> PageManifestView {
        PageManifestView {
            title: self.title@,
            view_file_path: self.view_file_path@,
            model_file_path: self.model_file_path@,
            dist_path: self.dist_path@,
            dist_file_path: self.dist_file_path@,
            model: entries_view(self.model@),
        }
    }
}

/// The views of a sequence of manifest entries, in order.
pub open spec fn manifest_views(v: Seq<PageManifest>) -> Seq<PageManifestView> {
    v.map_values(|m: PageManifest| m@)
}

} // verus!
