//! A static-site generator core: it classifies filesystem entries into typed
//! converters (markdown documents, directories, passthrough files), derives
//! site URLs and breadcrumb trails from paths relative to the notes root, and
//! renders directory listings and note pages through layered templates.
//!
//! All filesystem reads and writes happen outside this library; its functions
//! take plain values (path components, file contents, directory entries) and
//! return the artifacts to write.

pub mod file_type;
pub mod hbs;
pub mod json;
pub mod strings;
pub mod util;

pub use util::RelativeFrom;
pub use util::SitePath;

use vstd::prelude::*;

verus! {

/// The shared configuration of one generator run: the three root paths, the
/// URL prefix of every generated link, and the template registry, which is
/// populated once during initialization and read-only afterwards.
pub struct AppContext {
    pub root_source: SitePath,
    pub root_dest: SitePath,
    pub root_notes: SitePath,
    pub handlebars: hbs::TemplateRegistry,
    pub base_url: String,
}

impl AppContext {
    /// The registered templates, template name to template text.
    pub open spec fn templates(&self) -> Map<Seq<char>, Seq<char>> {
        hbs::templates_of(self.handlebars)
    }

    /// The notes root lies directly under the source root, the base URL
    /// begins and ends with `/`, and the template registry is as the
    /// constructor made it apart from registered templates — the state every
    /// render contract is scoped to.
    pub open spec fn wf(&self) -> bool {
        &&& self.root_notes@ == self.root_source@.push("notes"@)
        &&& self.base_url@.len() >= 1
        &&& self.base_url@[0] == '/'
        &&& self.base_url@.last() == '/'
        &&& hbs::default_config(self.handlebars)
    }

    /// Everything but the template registry is the same in both contexts.
    pub open spec fn same_config(&self, other: &AppContext) -> bool {
        &&& self.root_source == other.root_source
        &&& self.root_dest == other.root_dest
        &&& self.root_notes == other.root_notes
        &&& self.base_url == other.base_url
    }

    /// Builds the context for a run: the notes root is `source/notes`, the
    /// base URL is the normalized configured value, and the template registry
    /// starts out empty.
    pub fn new(root_source: SitePath, root_dest: SitePath, base_url_flag: Option<&String>) -> (r:
        AppContext)
        ensures
            r.wf(),
            r.root_source@ == root_source@,
            r.root_dest@ == root_dest@,
            r.root_notes@ == root_source@.push("notes"@),
            r.base_url@ == strings::spec_normalize_base_url(
                match base_url_flag {
                    Option::None => Option::None,
                    Option::Some(s) => Option::Some(s@),
                },
            ),
            r.templates() == Map::<Seq<char>, Seq<char>>::empty(),
    {
        let base_url = strings::normalize_base_url(base_url_flag);
        let notes_name = String::from_str("notes");
        let root_notes = root_source.join(&notes_name);
        AppContext { root_source, root_dest, root_notes, handlebars: hbs::hbs_new(), base_url }
    }
}

/// Decides whether a run may begin, from what the filesystem reports of the
/// configured roots: the source path must be an existing directory, and the
/// notes root under it must be a directory too. The first check that fails
/// names the error; nothing destructive may happen before both pass.
pub fn validate_roots(source_is_dir: bool, notes_is_dir: bool) -> (r: Result<(), &'static str>)
    ensures
        !source_is_dir ==> r is Err && (r->Err_0)@ == "Invalid source path"@,
        source_is_dir && !notes_is_dir ==> r is Err && (r->Err_0)@
            == "Source directory missing required files"@,
        source_is_dir && notes_is_dir ==> r is Ok,
{
    if !source_is_dir {
        Err("Invalid source path")
    } else if !notes_is_dir {
        Err("Source directory missing required files")
    } else {
        Ok(())
    }
}

} // verus!
