//! The passthrough converter: the unconditional fallback for entries no
//! other kind recognizes; the entry is copied verbatim to the corresponding
//! destination path.

use crate::file_type::EntryMeta;
use crate::file_type::FileType;
use crate::strings::join_rel;
use crate::strings::push_char;
use crate::strings::spec_join_rel;
use crate::util::RelativeFrom;
use crate::util::SitePath;
use crate::AppContext;
use vstd::prelude::*;

verus! {

broadcast use vstd::seq_lib::group_seq_lib_default, vstd::seq::group_seq_axioms;

/// A passthrough entry: copied verbatim, never transformed.
pub struct Unknown {
    pub path: SitePath,
}

/// A copy to perform: the source file and the destination path it goes to,
/// byte for byte.
pub struct CopyAction {
    pub from: SitePath,
    pub to: SitePath,
}

/// The URL of a passthrough entry: the base URL, then the entry's parent
/// directory relative to the notes root (omitted entirely when the entry lies
/// directly in the notes root), then the entry's full file name unchanged.
pub open spec fn spec_unknown_url(context: &AppContext, path: Seq<Seq<char>>) -> Seq<char> {
    let rel = path.skip(context.root_notes@.len() as int);
    let parent = rel.drop_last();
    let dir_part = if parent.len() == 0 {
        Seq::<char>::empty()
    } else {
        spec_join_rel(parent).push('/')
    };
    context.base_url@ + dir_part + rel.last()
}

impl FileType for Unknown {
    open spec fn path_view(&self) -> Seq<Seq<char>> {
        self.path@
    }

    open spec fn url_wf(&self, context: &AppContext) -> bool {
        context.root_notes@.is_prefix_of(self.path@) && self.path@.len()
            > context.root_notes@.len()
    }

    open spec fn spec_url(&self, context: &AppContext) -> Seq<char> {
        spec_unknown_url(context, self.path@)
    }

    open spec fn spec_type_str() -> Seq<char> {
        "unknown"@
    }

    fn get_url(&self, context: &AppContext) -> (r: String) {
        let rel = match self.path.my_relative_from(&context.root_notes) {
            Some(r) => r,
            None => unreached(),
        };
        let name = match rel.file_name() {
            Some(n) => n.clone(),
            None => unreached(),
        };
        let parent = rel.parent();
        let mut url = String::from_str(context.base_url.as_str());
        if parent.depth() > 0 {
            let joined = join_rel(&parent);
            url.append(joined.as_str());
            push_char(&mut url, '/');
        }
        url.append(name.as_str());
        assert(url@ =~= self.spec_url(context));
        url
    }

    fn get_type_str(&self) -> (r: &'static str) {
        "unknown"
    }
}

/// The factory of the passthrough kind: the unconditional fallback.
pub struct UnknownFactory;

impl UnknownFactory {
    /// Probes a path: the passthrough converter accepts every entry.
    pub fn try_create(&self, path: &SitePath, _meta: EntryMeta) -> (r: Option<Unknown>)
        ensures
            r is Some,
            r->Some_0.path@ == path@,
    {
        Some(Unknown { path: path.duplicate() })
    }

    /// The passthrough kind needs no template: nothing to validate or
    /// register.
    pub fn initialize(&self, app_context: &mut AppContext) -> (r: Result<(), &'static str>)
        ensures
            r is Ok,
            *final(app_context) == *old(app_context),
    {
        Ok(())
    }
}

impl Unknown {
    /// Converts the entry: a verbatim copy of the source file to the same
    /// relative path under the destination root.
    pub fn convert(&self, context: &AppContext) -> (r: CopyAction)
        requires
            context.root_notes@.is_prefix_of(self.path@),
        ensures
            r.from@ == self.path@,
            r.to@ == context.root_dest@ + self.path@.skip(context.root_notes@.len() as int),
    {
        let rel = match self.path.my_relative_from(&context.root_notes) {
            Some(r) => r,
            None => unreached(),
        };
        CopyAction { from: self.path.duplicate(), to: context.root_dest.append(&rel) }
    }
}

} // verus!
