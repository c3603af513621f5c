//! The markdown converter: recognizes regular files with a markdown
//! extension, renders their text to an HTML fragment, and produces the
//! note page to write under the destination root.

use crate::file_type::append_links_json;
use crate::file_type::compose_template;
use crate::file_type::create_parent_links;
use crate::file_type::spec_compose_template;
use crate::file_type::spec_links_json;
use crate::file_type::spec_parent_links;
use crate::file_type::EntryMeta;
use crate::file_type::FileType;
use crate::file_type::FileWrite;
use crate::file_type::Link;
use crate::file_type::LinkV;
use crate::file_type::TemplateSources;
use crate::hbs;
use crate::json::append_json_string;
use crate::json::spec_json_string;
use crate::strings::ends_with;
use crate::strings::file_stem;
use crate::strings::join_rel;
use crate::strings::push_char;
use crate::strings::spec_ends_with;
use crate::strings::spec_file_stem;
use crate::strings::spec_join_rel;
use crate::util::RelativeFrom;
use crate::util::SitePath;
use crate::AppContext;
use vstd::prelude::*;

verus! {

broadcast use vstd::seq_lib::group_seq_lib_default, vstd::seq::group_seq_axioms;

/// A markdown note: a regular file whose name carries a markdown extension.
pub struct Markdown {
    pub path: SitePath,
}

/// Whether a file name ends in one of the recognized markdown extensions.
pub open spec fn spec_is_markdown_name(name: Seq<char>) -> bool {
    ||| spec_ends_with(name, ".md"@)
    ||| spec_ends_with(name, ".markdown"@)
    ||| spec_ends_with(name, ".mkd"@)
}

/// The markdown kind's name, as listings report it.
pub fn type_str() -> (r: &'static str)
    ensures
        r@ == "markdown"@,
{
    "markdown"
}

/// Whether the entry at `path` is a markdown note: a regular file whose name
/// ends in `.md`, `.markdown` or `.mkd` (case-sensitive).
pub fn is_valid_path(path: &SitePath, meta: EntryMeta) -> (r: bool)
    requires
        path@.len() > 0,
    ensures
        r == (meta.is_file && spec_is_markdown_name(path@.last())),
{
    let name = match path.file_name() {
        Some(n) => n,
        None => unreached(),
    };
    meta.is_file && (ends_with(name.as_str(), ".md") || ends_with(name.as_str(), ".markdown")
        || ends_with(name.as_str(), ".mkd"))
}

/// The URL of a markdown note: the base URL, then the note's parent directory
/// relative to the notes root (omitted entirely when the note lies directly
/// in the notes root), then the file stem with `.html` in place of the
/// markdown extension.
pub open spec fn spec_markdown_url(context: &AppContext, path: Seq<Seq<char>>) -> Seq<char> {
    let rel = path.skip(context.root_notes@.len() as int);
    let parent = rel.drop_last();
    let dir_part = if parent.len() == 0 {
        Seq::<char>::empty()
    } else {
        spec_join_rel(parent).push('/')
    };
    context.base_url@ + dir_part + spec_file_stem(rel.last()) + ".html"@
}

impl FileType for Markdown {
    open spec fn path_view(&self) -> Seq<Seq<char>> {
        self.path@
    }

    open spec fn url_wf(&self, context: &AppContext) -> bool {
        context.root_notes@.is_prefix_of(self.path@) && self.path@.len()
            > context.root_notes@.len()
    }

    open spec fn spec_url(&self, context: &AppContext) -> Seq<char> {
        spec_markdown_url(context, self.path@)
    }

    open spec fn spec_type_str() -> Seq<char> {
        "markdown"@
    }

    fn get_url(&self, context: &AppContext) -> (r: String) {
        let rel = match self.path.my_relative_from(&context.root_notes) {
            Some(r) => r,
            None => unreached(),
        };
        let name = match rel.file_name() {
            Some(n) => n.clone(),
            None => unreached(),
        };
        let parent = rel.parent();
        let mut url = String::from_str(context.base_url.as_str());
        if parent.depth() > 0 {
            let joined = join_rel(&parent);
            url.append(joined.as_str());
            push_char(&mut url, '/');
        }
        let stem = file_stem(name.as_str());
        url.append(stem.as_str());
        url.append(".html");
        assert(url@ =~= self.spec_url(context));
        url
    }

    fn get_type_str(&self) -> (r: &'static str) {
        "markdown"
    }
}

/// The factory that recognizes markdown notes and owns their template.
pub struct MarkdownFactory;

impl MarkdownFactory {
    /// Probes a path: a converter exactly for a regular file whose name
    /// carries a markdown extension.
    pub fn try_create(&self, path: &SitePath, meta: EntryMeta) -> (r: Option<Markdown>)
        requires
            path@.len() > 0,
        ensures
            r is Some <==> (meta.is_file && spec_is_markdown_name(path@.last())),
            r is Some ==> r->Some_0.path@ == path@,
    {
        if is_valid_path(path, meta) {
            Some(Markdown { path: path.duplicate() })
        } else {
            None
        }
    }

    /// Validates that the shared header and footer and the note layout were
    /// all found, composes them, and registers the result as the `markdown`
    /// template: with all three fragments present, this succeeds exactly when
    /// the composed text compiles. It fails naming the first missing file, in
    /// which case (and on a compile failure) the template store is left as it
    /// was.
    pub fn initialize(&self, app_context: &mut AppContext, sources: &TemplateSources) -> (r: Result<
        (),
        &'static str,
    >)
        ensures
            final(app_context).same_config(old(app_context)),
            old(app_context).wf() ==> final(app_context).wf(),
            sources.header is None ==> r is Err && (r->Err_0)@ == "Missing partials/header.hbs"@
                && final(app_context).templates() == old(app_context).templates(),
            sources.header is Some && sources.footer is None ==> r is Err && (r->Err_0)@
                == "Missing partials/footer.hbs"@ && final(app_context).templates()
                == old(app_context).templates(),
            sources.header is Some && sources.footer is Some && sources.note_layout is None
                ==> r is Err && (r->Err_0)@ == "Missing /layouts/note.hbs"@
                && final(app_context).templates() == old(app_context).templates(),
            sources.header is Some && sources.footer is Some && sources.note_layout is Some ==> ({
                let composed = spec_compose_template(
                    sources.header->Some_0@,
                    sources.note_layout->Some_0@,
                    sources.footer->Some_0@,
                );
                &&& (r is Ok <==> hbs::tpl_compiles(composed))
                &&& (r is Ok ==> final(app_context).templates()
                    == old(app_context).templates().insert("markdown"@, composed))
                &&& (r is Err ==> (r->Err_0)@ == "Error registering header|note|footer template"@
                    && final(app_context).templates() == old(app_context).templates())
            }),
    {
        let header = match &sources.header {
            Some(h) => h,
            None => {
                return Err("Missing partials/header.hbs");
            },
        };
        let footer = match &sources.footer {
            Some(f) => f,
            None => {
                return Err("Missing partials/footer.hbs");
            },
        };
        let note = match &sources.note_layout {
            Some(n) => n,
            None => {
                return Err("Missing /layouts/note.hbs");
            },
        };
        let composed = compose_template(header.as_str(), note.as_str(), footer.as_str());
        match hbs::hbs_register(&mut app_context.handlebars, "markdown", composed.as_str()) {
            Ok(()) => Ok(()),
            Err(_) => Err("Error registering header|note|footer template"),
        }
    }
}

/// The JSON text of a note's render model: its name (the file stem), its
/// breadcrumb links, the rendered HTML content, and the base URL.
pub open spec fn spec_markdown_model_json(
    name: Seq<char>,
    parents: Seq<LinkV>,
    content: Seq<char>,
    base_url: Seq<char>,
) -> Seq<char> {
    "{\"name\":"@ + spec_json_string(name) + ",\"parents\":"@ + spec_links_json(parents)
        + ",\"content\":"@ + spec_json_string(content) + ",\"base_url\":"@ + spec_json_string(
        base_url,
    ) + "}"@
}

/// Builds the JSON text of a note's render model.
fn markdown_model_json(name: &str, parents: &Vec<Link>, content: &str, base_url: &str) -> (r:
    String)
    ensures
        r@ == spec_markdown_model_json(name@, parents.deep_view(), content@, base_url@),
{
    let mut out = String::from_str("{\"name\":");
    append_json_string(&mut out, name);
    out.append(",\"parents\":");
    append_links_json(&mut out, parents);
    out.append(",\"content\":");
    append_json_string(&mut out, content);
    out.append(",\"base_url\":");
    append_json_string(&mut out, base_url);
    out.append("}");
    assert(out@ =~= spec_markdown_model_json(name@, parents.deep_view(), content@, base_url@));
    out
}

/// What the markdown renderer produces from a note's text.
pub uninterp spec fn html_of(text: Seq<char>) -> Seq<char>;

/// Relies on pulldown_cmark's Parser::new and html::push_html: the rendered
/// HTML fragment is a function of the markdown text alone.
#[verifier::external_body]
fn render_html(text: &str) -> (r: String)
    ensures
        r@ == html_of(text@),
{
    let mut s = String::with_capacity(text.len() * 3 / 2);
    let p = pulldown_cmark::Parser::new(text);
    pulldown_cmark::html::push_html(&mut s, p);
    s
}

impl Markdown {
    /// Converts the note: renders its markdown text to an HTML fragment,
    /// renders the model through the `markdown` template, and names the
    /// destination file `parent/stem.html` under the destination root. It
    /// succeeds exactly when the engine renders the `markdown` template over
    /// the note's model (so never before that template is registered); an
    /// `Err` carries the engine's message.
    pub fn convert(&self, context: &AppContext, source_contents: &str) -> (r: Result<
        FileWrite,
        String,
    >)
        requires
            context.wf(),
            self.url_wf(context),
        ensures
            ({
                let rel = self.path@.skip(context.root_notes@.len() as int);
                let stem = spec_file_stem(rel.last());
                let data = spec_markdown_model_json(
                    stem,
                    spec_parent_links(context.base_url@, rel, false),
                    html_of(source_contents@),
                    context.base_url@,
                );
                &&& (r is Ok <==> hbs::hbs_renders(context.templates(), "markdown"@, data))
                &&& (r is Ok ==> context.templates().dom().contains("markdown"@))
                &&& (r is Ok ==> (r->Ok_0).path@ == context.root_dest@ + rel.drop_last().push(
                    stem + ".html"@,
                ))
                &&& (r is Ok ==> (r->Ok_0).contents@ == hbs::hbs_render_of(
                    context.templates(),
                    "markdown"@,
                    data,
                ))
            }),
    {
        let rel = match self.path.my_relative_from(&context.root_notes) {
            Some(r) => r,
            None => unreached(),
        };
        let name = match rel.file_name() {
            Some(n) => n.clone(),
            None => unreached(),
        };
        let stem = file_stem(name.as_str());
        let parent = rel.parent();
        let mut dest_name = stem.clone();
        dest_name.append(".html");
        let dest = context.root_dest.append(&parent).join(&dest_name);
        let content = render_html(source_contents);
        let parents = create_parent_links(context.base_url.as_str(), &rel, false);
        let data = markdown_model_json(
            stem.as_str(),
            &parents,
            content.as_str(),
            context.base_url.as_str(),
        );
        match hbs::hbs_render(&context.handlebars, "markdown", data.as_str()) {
            Ok(rendered) => {
                assert(dest@ =~= context.root_dest@ + rel@.drop_last().push(
                    spec_file_stem(rel@.last()) + ".html"@,
                ));
                Ok(FileWrite { path: dest, contents: rendered })
            },
            Err(e) => Err(e),
        }
    }
}

/// Law (re-runs are byte-identical): two successful conversions of the same
/// note text under the same context name the same destination file and
/// produce the same bytes, so regenerating a site rewrites what it wrote.
pub proof fn lemma_markdown_convert_repeatable(
    m: &Markdown,
    context: &AppContext,
    text: &str,
    r1: Result<FileWrite, String>,
    r2: Result<FileWrite, String>,
)
    requires
        call_ensures(Markdown::convert, (m, context, text), r1),
        call_ensures(Markdown::convert, (m, context, text), r2),
        r1 is Ok,
        r2 is Ok,
    ensures
        (r1->Ok_0).path@ == (r2->Ok_0).path@,
        (r1->Ok_0).contents@ == (r2->Ok_0).contents@,
{
}

} // verus!
