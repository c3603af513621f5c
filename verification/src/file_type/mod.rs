//! File-type classification and conversion: a converter per recognized kind
//! of filesystem entry, an ordered factory list that classifies any path
//! (with a passthrough fallback), one-time template initialization, and the
//! breadcrumb-trail derivation shared by every converter.

use crate::json::spec_json_string;
use crate::json::append_json_string;
use crate::strings::push_char;
use crate::strings::spec_join_rel;
use crate::util::SitePath;
use crate::AppContext;
use vstd::prelude::*;

mod dir;
mod markdown;
mod unknown;

pub use dir::Child;
pub use dir::ChildEntry;
pub use dir::ChildEntryV;
pub use dir::ChildV;
pub use dir::Dir;
pub use dir::DirFactory;
pub use dir::DirOutput;
pub use dir::lemma_child_le_total;
pub use dir::lemma_child_le_trans;
pub use dir::lemma_sort_children_multiset;
pub use dir::lemma_sort_children_sorted;
pub use dir::spec_child_json;
pub use dir::spec_child_le;
pub use dir::spec_children_inner;
pub use dir::spec_children_json;
pub use dir::spec_children_sorted;
pub use dir::spec_child_of;
pub use dir::spec_children_rows;
pub use dir::spec_dir_model_json;
pub use dir::spec_dir_url;
pub use dir::spec_insert_sorted;
pub use dir::spec_sort_children;
pub use markdown::Markdown;
pub use markdown::MarkdownFactory;
pub use markdown::html_of;
pub use markdown::is_valid_path;
pub use markdown::spec_is_markdown_name;
pub use markdown::spec_markdown_model_json;
pub use markdown::spec_markdown_url;
pub use markdown::type_str;
pub use unknown::CopyAction;
pub use unknown::Unknown;
pub use unknown::UnknownFactory;
pub use unknown::spec_unknown_url;

verus! {

broadcast use vstd::seq_lib::group_seq_lib_default, vstd::seq::group_seq_axioms;

/// A name/URL pair: one breadcrumb entry.
pub struct Link {
    pub name: String,
    pub url: String,
}

/// The mathematical value of a `Link`.
pub struct LinkV {
    pub name: Seq<char>,
    pub url: Seq<char>,
}

impl View for Link {
    type V = LinkV;

    open spec fn view(&self) -> LinkV {
        LinkV { name: self.name@, url: self.url@ }
    }
}

impl DeepView for Link {
    type V = LinkV;

    open spec fn deep_view(&self) -> LinkV {
        self@
    }
}

/// What a filesystem entry is, as the filesystem reports it: a directory,
/// a regular file, or neither.
#[derive(Clone, Copy)]
pub struct EntryMeta {
    pub is_dir: bool,
    pub is_file: bool,
}

/// One file to write: the destination path and the full contents.
pub struct FileWrite {
    pub path: SitePath,
    pub contents: String,
}

/// The texts of the template fragments found on disk, `None` where the
/// fragment's file is absent.
pub struct TemplateSources {
    pub header: Option<String>,
    pub footer: Option<String>,
    pub note_layout: Option<String>,
    pub dir_layout: Option<String>,
}

/// The `root` breadcrumb: named `root`, pointing at the base URL itself.
pub open spec fn spec_root_link(base_url: Seq<char>) -> LinkV {
    LinkV { name: "root"@, url: base_url }
}

/// The breadcrumb trail of a path relative to the notes root. In directory
/// mode the empty path (the notes root itself) has no trail at all; any other
/// path's trail starts at the `root` link and descends one ancestor per entry,
/// nearest the root first, ending at the path's immediate parent. Each entry
/// is named by its ancestor's final component and points at the base URL
/// followed by that ancestor's relative path.
pub open spec fn spec_parent_links(base_url: Seq<char>, path: Seq<Seq<char>>, is_dir: bool) -> Seq<
    LinkV,
> {
    if is_dir && path.len() == 0 {
        Seq::empty()
    } else {
        let parent = path.drop_last();
        Seq::new(
            parent.len() + 1,
            |i: int|
                if i == 0 {
                    spec_root_link(base_url)
                } else {
                    LinkV { name: parent[i - 1], url: base_url + spec_join_rel(parent.take(i)) }
                },
        )
    }
}

/// Appends one link, tracked at the level of link views.
fn push_link(v: &mut Vec<Link>, l: Link)
    ensures
        final(v).deep_view() == old(v).deep_view().push(l@),
{
    let ghost before = v.deep_view();
    let ghost lv = l@;
    v.push(l);
    assert forall|j: int| 0 <= j < v@.len() implies v.deep_view()[j] == before.push(lv)[j] by {
        if j < before.len() {
            assert(v@[j] == old(v)@[j]);
        }
    }
    assert(v.deep_view() =~= before.push(lv));
}

/// Builds the breadcrumb trail of `path` (a path relative to the notes root)
/// as `spec_parent_links` describes it. A file path must have at least one
/// component; only a directory trail may be asked of the empty path.
pub fn create_parent_links(base_url: &str, path: &SitePath, is_dir: bool) -> (r: Vec<Link>)
    requires
        is_dir || path@.len() > 0,
    ensures
        r.deep_view() == spec_parent_links(base_url@, path@, is_dir),
{
    if is_dir && path.depth() == 0 {
        let r: Vec<Link> = Vec::new();
        assert(r.deep_view() =~= spec_parent_links(base_url@, path@, is_dir));
        return r;
    }
    let ghost links = spec_parent_links(base_url@, path@, is_dir);
    let mut result: Vec<Link> = Vec::new();
    push_link(&mut result, Link { name: String::from_str("root"), url: String::from_str(base_url) });
    let parent = path.parent();
    let n = parent.components.len();
    let mut url = String::from_str(base_url);
    assert(result.deep_view() =~= links.take(1));
    assert(url@ =~= base_url@ + spec_join_rel(parent@.take(0)));
    for i in 0..n
        invariant
            n == parent@.len(),
            n == parent.components.len(),
            path@.len() > 0,
            parent@ == path@.drop_last(),
            links == spec_parent_links(base_url@, path@, is_dir),
            links.len() == n + 1,
            url@ == base_url@ + spec_join_rel(parent@.take(i as int)),
            result.deep_view() =~= links.take(i + 1),
    {
        if i > 0 {
            push_char(&mut url, '/');
        }
        url.append(parent.components[i].as_str());
        assert(parent@.take(i + 1 as int).drop_last() =~= parent@.take(i as int));
        assert(url@ =~= base_url@ + spec_join_rel(parent@.take(i + 1 as int)));
        push_link(&mut result, Link { name: parent.components[i].clone(), url: url.clone() });
        assert(result.deep_view() =~= links.take(i + 2));
    }
    assert(result.deep_view() =~= links);
    result
}

/// Law (breadcrumb shape): the notes root itself, in directory mode, has an
/// empty trail. Any other path's trail holds one entry per ancestor below the
/// root plus the leading `root` entry: the first entry is always the `root`
/// link at the base URL, and the entry at position `i` stands exactly `i`
/// levels below the root — it is named by the `i`-th component of the path's
/// parent and its URL extends the base URL by that ancestor's relative path.
pub proof fn lemma_parent_links_shape(base_url: Seq<char>, path: Seq<Seq<char>>, is_dir: bool)
    requires
        is_dir || path.len() > 0,
    ensures
        is_dir && path.len() == 0 ==> spec_parent_links(base_url, path, is_dir) == Seq::<
            LinkV,
        >::empty(),
        path.len() > 0 ==> ({
            let links = spec_parent_links(base_url, path, is_dir);
            let parent = path.drop_last();
            &&& links.len() == parent.len() + 1
            &&& links[0] == spec_root_link(base_url)
            &&& forall|i: int|
                1 <= i < links.len() ==> links[i] == (LinkV {
                    name: parent[i - 1],
                    url: base_url + spec_join_rel(parent.take(i)),
                })
        }),
{
}

/// The JSON object of one link: its name and URL.
pub open spec fn spec_link_json(l: LinkV) -> Seq<char> {
    "{\"name\":"@ + spec_json_string(l.name) + ",\"url\":"@ + spec_json_string(l.url) + "}"@
}

/// The comma-separated JSON objects of a link list, without the brackets.
pub open spec fn spec_links_inner(ls: Seq<LinkV>) -> Seq<char>
    decreases ls.len(),
{
    if ls.len() == 0 {
        Seq::empty()
    } else if ls.len() == 1 {
        spec_link_json(ls[0])
    } else {
        spec_links_inner(ls.drop_last()) + ","@ + spec_link_json(ls.last())
    }
}

/// The JSON array of a link list.
pub open spec fn spec_links_json(ls: Seq<LinkV>) -> Seq<char> {
    "["@ + spec_links_inner(ls) + "]"@
}

/// Appends the JSON object of one link.
fn append_link_json(out: &mut String, l: &Link)
    ensures
        final(out)@ == old(out)@ + spec_link_json(l@),
{
    out.append("{\"name\":");
    append_json_string(out, l.name.as_str());
    out.append(",\"url\":");
    append_json_string(out, l.url.as_str());
    out.append("}");
    assert(out@ =~= old(out)@ + spec_link_json(l@));
}

/// Appends the JSON array of a link list.
pub(crate) fn append_links_json(out: &mut String, links: &Vec<Link>)
    ensures
        final(out)@ == old(out)@ + spec_links_json(links.deep_view()),
{
    out.append("[");
    let n = links.len();
    for i in 0..n
        invariant
            n == links.len(),
            out@ == old(out)@ + "["@ + spec_links_inner(links.deep_view().take(i as int)),
    {
        if i > 0 {
            out.append(",");
        }
        append_link_json(out, &links[i]);
        assert(links.deep_view().take(i + 1 as int).drop_last() =~= links.deep_view().take(
            i as int,
        ));
        assert(links.deep_view().take(i + 1 as int).last() == links.deep_view()[i as int]);
        assert(out@ =~= old(out)@ + "["@ + spec_links_inner(links.deep_view().take(i + 1 as int)));
    }
    out.append("]");
    assert(links.deep_view().take(n as int) =~= links.deep_view());
    assert(out@ =~= old(out)@ + spec_links_json(links.deep_view()));
}

/// A composed page template: the shared header, the kind's body layout, and
/// the shared footer, separated by newlines.
pub open spec fn spec_compose_template(header: Seq<char>, body: Seq<char>, footer: Seq<char>) -> Seq<
    char,
> {
    header + "\n"@ + body + "\n"@ + footer
}

/// Concatenates header, body and footer into one template text, with a
/// newline between the parts.
pub fn compose_template(header: &str, body: &str, footer: &str) -> (r: String)
    ensures
        r@ == spec_compose_template(header@, body@, footer@),
{
    let mut out = String::from_str(header);
    out.append("\n");
    out.append(body);
    out.append("\n");
    out.append(footer);
    assert(out@ =~= spec_compose_template(header@, body@, footer@));
    out
}

/// One recognized kind of filesystem entry: it can report the entry's public
/// URL and its kind's name. `spec_url` gives the URL formula of the kind;
/// `url_wf` says which wrapped paths that formula is defined for.
pub trait FileType: Sized {
    /// The components of the path the converter wraps.
    spec fn path_view(&self) -> Seq<Seq<char>>;

    /// Which wrapped paths have a URL under this context.
    spec fn url_wf(&self, context: &AppContext) -> bool;

    /// The URL of the wrapped path under this context.
    spec fn spec_url(&self, context: &AppContext) -> Seq<char>;

    /// The kind's name.
    spec fn spec_type_str() -> Seq<char>;

    /// The public URL of the wrapped entry.
    fn get_url(&self, context: &AppContext) -> (r: String)
        requires
            self.url_wf(context),
        ensures
            r@ == self.spec_url(context),
    ;

    /// The kind's name, as listings report it.
    fn get_type_str(&self) -> (r: &'static str)
        ensures
            r@ == Self::spec_type_str(),
    ;
}

/// One classified filesystem entry: the closed set of recognized kinds, each
/// wrapping the path it was created for.
pub enum FileTypeKind {
    Dir(dir::Dir),
    Markdown(markdown::Markdown),
    Unknown(unknown::Unknown),
}

impl FileTypeKind {
    /// The components of the wrapped path.
    pub open spec fn path_view(&self) -> Seq<Seq<char>> {
        match self {
            FileTypeKind::Dir(d) => d.path@,
            FileTypeKind::Markdown(m) => m.path@,
            FileTypeKind::Unknown(u) => u.path@,
        }
    }

    /// Which wrapped paths have a URL under this context: the kind's own
    /// condition.
    pub open spec fn url_wf(&self, context: &AppContext) -> bool {
        match self {
            FileTypeKind::Dir(d) => d.url_wf(context),
            FileTypeKind::Markdown(m) => m.url_wf(context),
            FileTypeKind::Unknown(u) => u.url_wf(context),
        }
    }

    /// The URL of the wrapped path: the kind's own formula.
    pub open spec fn spec_url(&self, context: &AppContext) -> Seq<char> {
        match self {
            FileTypeKind::Dir(d) => d.spec_url(context),
            FileTypeKind::Markdown(m) => m.spec_url(context),
            FileTypeKind::Unknown(u) => u.spec_url(context),
        }
    }

    /// The kind's name.
    pub open spec fn spec_type_str(&self) -> Seq<char> {
        match self {
            FileTypeKind::Dir(_) => "dir"@,
            FileTypeKind::Markdown(_) => "markdown"@,
            FileTypeKind::Unknown(_) => "unknown"@,
        }
    }

    /// The public URL of the wrapped entry.
    pub fn get_url(&self, context: &AppContext) -> (r: String)
        requires
            self.url_wf(context),
        ensures
            r@ == self.spec_url(context),
    {
        match self {
            FileTypeKind::Dir(d) => d.get_url(context),
            FileTypeKind::Markdown(m) => m.get_url(context),
            FileTypeKind::Unknown(u) => u.get_url(context),
        }
    }

    /// The kind's name, as listings report it.
    pub fn get_type_str(&self) -> (r: &'static str)
        ensures
            r@ == self.spec_type_str(),
    {
        match self {
            FileTypeKind::Dir(d) => d.get_type_str(),
            FileTypeKind::Markdown(m) => m.get_type_str(),
            FileTypeKind::Unknown(u) => u.get_type_str(),
        }
    }
}

/// The ordered converter factories: the markdown factory is probed before the
/// directory factory, and the passthrough factory stands apart as the
/// unconditional fallback. The order is an invariant: classification must
/// resolve deterministically.
pub struct FileTypeManager {
    pub markdown_factory: markdown::MarkdownFactory,
    pub dir_factory: dir::DirFactory,
    pub unknown_factory: unknown::UnknownFactory,
}

impl FileTypeManager {
    /// A manager holding the factories in their fixed priority order.
    pub fn new() -> (r: FileTypeManager)
    {
        FileTypeManager {
            markdown_factory: markdown::MarkdownFactory,
            dir_factory: dir::DirFactory,
            unknown_factory: unknown::UnknownFactory,
        }
    }

    /// Runs every registered factory's template initialization in priority
    /// order, stopping at the first failure: it succeeds exactly when every
    /// required fragment is present and both composed templates compile, and
    /// the `markdown` and `dir` templates are then both registered. A missing
    /// template file fails naming that file, before anything later is
    /// registered.
    pub fn initialize_app_context(
        &self,
        app_context: &mut AppContext,
        sources: &TemplateSources,
    ) -> (r: Result<(), &'static str>)
        ensures
            final(app_context).same_config(old(app_context)),
            old(app_context).wf() ==> final(app_context).wf(),
            ({
                let mk = spec_compose_template(
                    sources.header->Some_0@,
                    sources.note_layout->Some_0@,
                    sources.footer->Some_0@,
                );
                let dr = spec_compose_template(
                    sources.header->Some_0@,
                    sources.dir_layout->Some_0@,
                    sources.footer->Some_0@,
                );
                &&& (r is Ok <==> sources.header is Some && sources.footer is Some
                    && sources.note_layout is Some && sources.dir_layout is Some
                    && crate::hbs::tpl_compiles(mk) && crate::hbs::tpl_compiles(dr))
                &&& (r is Ok ==> final(app_context).templates()
                    == old(app_context).templates().insert("markdown"@, mk).insert("dir"@, dr))
                &&& (sources.header is None ==> r is Err && (r->Err_0)@
                    == "Missing partials/header.hbs"@ && final(app_context).templates()
                    == old(app_context).templates())
                &&& (sources.header is Some && sources.footer is None ==> r is Err && (r->Err_0)@
                    == "Missing partials/footer.hbs"@ && final(app_context).templates()
                    == old(app_context).templates())
                &&& (sources.header is Some && sources.footer is Some && sources.note_layout
                    is None ==> r is Err && (r->Err_0)@ == "Missing /layouts/note.hbs"@ && final(app_context).templates() == old(app_context).templates())
                &&& (sources.header is Some && sources.footer is Some && sources.note_layout
                    is Some && !crate::hbs::tpl_compiles(mk) ==> r is Err && (r->Err_0)@
                    == "Error registering header|note|footer template"@ && final(app_context).templates() == old(app_context).templates())
                &&& (sources.header is Some && sources.footer is Some && sources.note_layout
                    is Some && crate::hbs::tpl_compiles(mk) && sources.dir_layout is None ==> r
                    is Err && (r->Err_0)@ == "Missing /layouts/dir.hbs"@ && final(app_context).templates() == old(app_context).templates().insert("markdown"@, mk))
                &&& (sources.header is Some && sources.footer is Some && sources.note_layout
                    is Some && sources.dir_layout is Some && crate::hbs::tpl_compiles(mk)
                    && !crate::hbs::tpl_compiles(dr) ==> r is Err && (r->Err_0)@
                    == "Error registering header|dir|footer template"@ && final(app_context).templates() == old(app_context).templates().insert("markdown"@, mk))
            }),
    {
        match self.markdown_factory.initialize(app_context, sources) {
            Ok(()) => (),
            Err(e) => {
                return Err(e);
            },
        }
        self.dir_factory.initialize(app_context, sources)
    }

    /// Classifies a path, given what the filesystem reports of it: the first
    /// factory whose probe succeeds names the kind (a regular file with a
    /// markdown extension is a note, a directory is a directory), and the
    /// passthrough kind stands for every other entry. Classification never
    /// fails.
    pub fn create_file_type(&self, path: &SitePath, meta: EntryMeta) -> (r: FileTypeKind)
        requires
            path@.len() > 0,
        ensures
            r.path_view() == path@,
            meta.is_file && spec_is_markdown_name(path@.last()) ==> r is Markdown,
            !(meta.is_file && spec_is_markdown_name(path@.last())) && meta.is_dir ==> r is Dir,
            !(meta.is_file && spec_is_markdown_name(path@.last())) && !meta.is_dir ==> r
                is Unknown,
    {
        if let Some(m) = self.markdown_factory.try_create(path, meta) {
            return FileTypeKind::Markdown(m);
        }
        if let Some(d) = self.dir_factory.try_create(path, meta) {
            return FileTypeKind::Dir(d);
        }
        match self.unknown_factory.try_create(path, meta) {
            Some(u) => FileTypeKind::Unknown(u),
            None => unreached(),
        }
    }
}

} // verus!
