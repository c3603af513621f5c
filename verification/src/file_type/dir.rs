//! The directory converter: mirrors a source directory under the destination
//! root, classifies its immediate children into listing rows (directories
//! first, each bucket sorted by name ascending), and renders the listing
//! through the `dir` template into the directory's `index.html`.

use crate::file_type::append_links_json;
use crate::file_type::compose_template;
use crate::file_type::create_parent_links;
use crate::file_type::spec_compose_template;
use crate::file_type::spec_is_markdown_name;
use crate::file_type::spec_links_json;
use crate::file_type::spec_markdown_url;
use crate::file_type::spec_parent_links;
use crate::file_type::spec_unknown_url;
use crate::file_type::EntryMeta;
use crate::file_type::FileType;
use crate::file_type::FileTypeManager;
use crate::file_type::FileWrite;
use crate::file_type::Link;
use crate::file_type::LinkV;
use crate::file_type::TemplateSources;
use crate::hbs;
use crate::json::append_json_string;
use crate::json::spec_json_string;
use crate::strings::file_stem;
use crate::strings::join_rel;
use crate::strings::lex_le;
use crate::strings::push_char;
use crate::strings::spec_file_stem;
use crate::strings::spec_join_rel;
use crate::strings::spec_lex_le;
use crate::strings::str_eq;
use crate::util::RelativeFrom;
use crate::util::SitePath;
use crate::AppContext;
use vstd::prelude::*;

verus! {

broadcast use vstd::seq_lib::group_seq_lib_default, vstd::seq::group_seq_axioms;

/// A directory entry: it owns a classifier for listing its children.
pub struct Dir {
    pub path: SitePath,
    pub file_type_manager: FileTypeManager,
}

/// The URL of a directory: the base URL followed by the directory's relative
/// path with a trailing `/`, collapsing to the bare base URL for the notes
/// root itself.
pub open spec fn spec_dir_url(context: &AppContext, path: Seq<Seq<char>>) -> Seq<char> {
    let rel = path.skip(context.root_notes@.len() as int);
    if rel.len() == 0 {
        context.base_url@
    } else {
        context.base_url@ + spec_join_rel(rel).push('/')
    }
}

impl FileType for Dir {
    open spec fn path_view(&self) -> Seq<Seq<char>> {
        self.path@
    }

    open spec fn url_wf(&self, context: &AppContext) -> bool {
        context.root_notes@.is_prefix_of(self.path@)
    }

    open spec fn spec_url(&self, context: &AppContext) -> Seq<char> {
        spec_dir_url(context, self.path@)
    }

    open spec fn spec_type_str() -> Seq<char> {
        "dir"@
    }

    fn get_url(&self, context: &AppContext) -> (r: String) {
        let rel = match self.path.my_relative_from(&context.root_notes) {
            Some(r) => r,
            None => unreached(),
        };
        let mut url = String::from_str(context.base_url.as_str());
        if rel.depth() > 0 {
            let joined = join_rel(&rel);
            url.append(joined.as_str());
            push_char(&mut url, '/');
        }
        assert(url@ =~= self.spec_url(context));
        url
    }

    fn get_type_str(&self) -> (r: &'static str) {
        "dir"
    }
}

/// The factory that recognizes directories and owns their listing template.
pub struct DirFactory;

impl DirFactory {
    /// Probes a path: a converter exactly for a directory.
    pub fn try_create(&self, path: &SitePath, meta: EntryMeta) -> (r: Option<Dir>)
        ensures
            r is Some <==> meta.is_dir,
            r is Some ==> r->Some_0.path@ == path@,
    {
        if meta.is_dir {
            Some(Dir { path: path.duplicate(), file_type_manager: FileTypeManager::new() })
        } else {
            None
        }
    }

    /// Validates that the shared header and footer and the directory layout
    /// were all found, composes them, and registers the result as the `dir`
    /// template: with all three fragments present, this succeeds exactly when
    /// the composed text compiles. It fails naming the first missing file, in
    /// which case (and on a compile failure) the template store is left as it
    /// was.
    pub fn initialize(&self, app_context: &mut AppContext, sources: &TemplateSources) -> (r: Result<
        (),
        &'static str,
    >)
        ensures
            final(app_context).same_config(old(app_context)),
            old(app_context).wf() ==> final(app_context).wf(),
            sources.header is None ==> r is Err && (r->Err_0)@ == "Missing partials/header.hbs"@
                && final(app_context).templates() == old(app_context).templates(),
            sources.header is Some && sources.footer is None ==> r is Err && (r->Err_0)@
                == "Missing partials/footer.hbs"@ && final(app_context).templates()
                == old(app_context).templates(),
            sources.header is Some && sources.footer is Some && sources.dir_layout is None
                ==> r is Err && (r->Err_0)@ == "Missing /layouts/dir.hbs"@
                && final(app_context).templates() == old(app_context).templates(),
            sources.header is Some && sources.footer is Some && sources.dir_layout is Some ==> ({
                let composed = spec_compose_template(
                    sources.header->Some_0@,
                    sources.dir_layout->Some_0@,
                    sources.footer->Some_0@,
                );
                &&& (r is Ok <==> hbs::tpl_compiles(composed))
                &&& (r is Ok ==> final(app_context).templates()
                    == old(app_context).templates().insert("dir"@, composed))
                &&& (r is Err ==> (r->Err_0)@ == "Error registering header|dir|footer template"@
                    && final(app_context).templates() == old(app_context).templates())
            }),
    {
        let header = match &sources.header {
            Some(h) => h,
            None => {
                return Err("Missing partials/header.hbs");
            },
        };
        let footer = match &sources.footer {
            Some(f) => f,
            None => {
                return Err("Missing partials/footer.hbs");
            },
        };
        let dir_layout = match &sources.dir_layout {
            Some(d) => d,
            None => {
                return Err("Missing /layouts/dir.hbs");
            },
        };
        let composed = compose_template(header.as_str(), dir_layout.as_str(), footer.as_str());
        match hbs::hbs_register(&mut app_context.handlebars, "dir", composed.as_str()) {
            Ok(()) => Ok(()),
            Err(_) => Err("Error registering header|dir|footer template"),
        }
    }
}

/// An immediate child of a directory, as the filesystem lists it: its bare
/// name and what kind of entry it is.
pub struct ChildEntry {
    pub name: String,
    pub meta: EntryMeta,
}

/// The mathematical value of a `ChildEntry`.
pub struct ChildEntryV {
    pub name: Seq<char>,
    pub is_dir: bool,
    pub is_file: bool,
}

impl View for ChildEntry {
    type V = ChildEntryV;

    open spec fn view(&self) -> ChildEntryV {
        ChildEntryV { name: self.name@, is_dir: self.meta.is_dir, is_file: self.meta.is_file }
    }
}

impl DeepView for ChildEntry {
    type V = ChildEntryV;

    open spec fn deep_view(&self) -> ChildEntryV {
        self@
    }
}

/// One row of a directory listing: the child's display name (its file stem),
/// its URL, and its kind's name.
pub struct Child {
    pub name: String,
    pub url: String,
    pub file_type: String,
}

/// The mathematical value of a `Child`.
pub struct ChildV {
    pub name: Seq<char>,
    pub url: Seq<char>,
    pub file_type: Seq<char>,
}

impl View for Child {
    type V = ChildV;

    open spec fn view(&self) -> ChildV {
        ChildV { name: self.name@, url: self.url@, file_type: self.file_type@ }
    }
}

impl DeepView for Child {
    type V = ChildV;

    open spec fn deep_view(&self) -> ChildV {
        self@
    }
}

/// The listing row of one child of the directory at `dir_path`: named by its
/// file stem, with the URL and kind name its classification gives it.
pub open spec fn spec_child_of(context: &AppContext, dir_path: Seq<Seq<char>>, e: ChildEntryV) -> ChildV {
    let child_path = dir_path.push(e.name);
    if e.is_file && spec_is_markdown_name(e.name) {
        ChildV {
            name: spec_file_stem(e.name),
            url: spec_markdown_url(context, child_path),
            file_type: "markdown"@,
        }
    } else if e.is_dir {
        ChildV {
            name: spec_file_stem(e.name),
            url: spec_dir_url(context, child_path),
            file_type: "dir"@,
        }
    } else {
        ChildV {
            name: spec_file_stem(e.name),
            url: spec_unknown_url(context, child_path),
            file_type: "unknown"@,
        }
    }
}

/// The listing rows of a directory's children, in the order the entries came.
pub open spec fn spec_children_rows(
    context: &AppContext,
    dir_path: Seq<Seq<char>>,
    entries: Seq<ChildEntryV>,
) -> Seq<ChildV> {
    entries.map_values(|e: ChildEntryV| spec_child_of(context, dir_path, e))
}

/// Listing order: directories come before everything else; rows of the same
/// bucket are ordered by name ascending.
pub open spec fn spec_child_le(a: ChildV, b: ChildV) -> bool {
    let a_dir = a.file_type == "dir"@;
    let b_dir = b.file_type == "dir"@;
    if a_dir != b_dir {
        a_dir
    } else {
        spec_lex_le(a.name, b.name)
    }
}

/// Whether `a` comes no later than `b` in a listing.
fn child_le(a: &Child, b: &Child) -> (r: bool)
    ensures
        r == spec_child_le(a@, b@),
{
    let a_dir = str_eq(a.file_type.as_str(), "dir");
    let b_dir = str_eq(b.file_type.as_str(), "dir");
    if a_dir != b_dir {
        a_dir
    } else {
        lex_le(a.name.as_str(), b.name.as_str())
    }
}

/// Where a stable insertion puts a row: after every row that comes no later
/// than it, before everything else.
pub open spec fn spec_insert_sorted(s: Seq<ChildV>, c: ChildV) -> Seq<ChildV>
    decreases s.len(),
{
    if s.len() > 0 && spec_child_le(s[0], c) {
        seq![s[0]] + spec_insert_sorted(s.drop_first(), c)
    } else {
        seq![c] + s
    }
}

/// The stable sort of a listing under `spec_child_le`: each row inserted in
/// turn, keeping the incoming order of rows that the order does not part.
pub open spec fn spec_sort_children(s: Seq<ChildV>) -> Seq<ChildV>
    decreases s.len(),
{
    if s.len() == 0 {
        Seq::empty()
    } else {
        spec_insert_sorted(spec_sort_children(s.drop_last()), s.last())
    }
}

/// A stable insertion lands exactly at the first position whose row comes
/// later than the inserted one.
proof fn lemma_insert_sorted_at(s: Seq<ChildV>, c: ChildV, j: int)
    requires
        0 <= j <= s.len(),
        forall|k: int| 0 <= k < j ==> spec_child_le(#[trigger] s[k], c),
        j < s.len() ==> !spec_child_le(s[j], c),
    ensures
        spec_insert_sorted(s, c) == s.take(j) + seq![c] + s.skip(j),
    decreases s.len(),
{
    if j == 0 {
        assert(s.take(0) + seq![c] + s.skip(0) =~= seq![c] + s);
    } else {
        assert(spec_child_le(s[0], c));
        let rest = s.drop_first();
        assert forall|k: int| 0 <= k < j - 1 implies spec_child_le(#[trigger] rest[k], c) by {
            assert(rest[k] == s[k + 1]);
        }
        assert(j - 1 < rest.len() ==> !spec_child_le(rest[j - 1], c));
        lemma_insert_sorted_at(rest, c, j - 1);
        assert(seq![s[0]] + (rest.take(j - 1) + seq![c] + rest.skip(j - 1)) =~= s.take(j) + seq![c]
            + s.skip(j));
    }
}

/// A listing in sorted order: every row comes no later than each row after it.
pub open spec fn spec_children_sorted(s: Seq<ChildV>) -> bool {
    forall|i: int, j: int| 0 <= i < j < s.len() ==> spec_child_le(#[trigger] s[i], #[trigger] s[j])
}

/// Law: listing order is total — of any two rows, one comes no later than
/// the other.
pub proof fn lemma_child_le_total(a: ChildV, b: ChildV)
    ensures
        spec_child_le(a, b) || spec_child_le(b, a),
{
    crate::strings::lemma_lex_le_total(a.name, b.name);
}

/// Law: listing order is transitive.
pub proof fn lemma_child_le_trans(a: ChildV, b: ChildV, c: ChildV)
    requires
        spec_child_le(a, b),
        spec_child_le(b, c),
    ensures
        spec_child_le(a, c),
{
    if a.file_type == "dir"@ && b.file_type == "dir"@ && c.file_type == "dir"@ {
        crate::strings::lemma_lex_le_trans(a.name, b.name, c.name);
    } else if a.file_type != "dir"@ && b.file_type != "dir"@ && c.file_type != "dir"@ {
        crate::strings::lemma_lex_le_trans(a.name, b.name, c.name);
    }
}

/// Every row of an insertion's result is the inserted row or one of the
/// listing's own.
proof fn lemma_insert_sorted_elems(s: Seq<ChildV>, c: ChildV)
    ensures
        forall|i: int|
            0 <= i < spec_insert_sorted(s, c).len() ==> (#[trigger] spec_insert_sorted(s, c)[i]
                == c || s.contains(spec_insert_sorted(s, c)[i])),
    decreases s.len(),
{
    if s.len() > 0 && spec_child_le(s[0], c) {
        lemma_insert_sorted_elems(s.drop_first(), c);
        assert forall|i: int| 0 <= i < spec_insert_sorted(s, c).len() implies (
        #[trigger] spec_insert_sorted(s, c)[i] == c || s.contains(spec_insert_sorted(s, c)[i])) by {
            if i == 0 {
                assert(s.contains(s[0]));
            } else {
                let rest = spec_insert_sorted(s.drop_first(), c);
                assert(spec_insert_sorted(s, c)[i] == rest[i - 1]);
                if rest[i - 1] != c {
                    let k = choose|k: int|
                        0 <= k < s.drop_first().len() && s.drop_first()[k] == rest[i - 1];
                    assert(s[k + 1] == rest[i - 1]);
                }
            }
        }
    }
}

/// Inserting a row into a sorted listing keeps it sorted.
proof fn lemma_insert_sorted_keeps_sorted(s: Seq<ChildV>, c: ChildV)
    requires
        spec_children_sorted(s),
    ensures
        spec_children_sorted(spec_insert_sorted(s, c)),
    decreases s.len(),
{
    if s.len() > 0 && spec_child_le(s[0], c) {
        let rest = s.drop_first();
        assert(spec_children_sorted(rest)) by {
            assert forall|i: int, j: int| 0 <= i < j < rest.len() implies spec_child_le(
                #[trigger] rest[i],
                #[trigger] rest[j],
            ) by {
                assert(rest[i] == s[i + 1] && rest[j] == s[j + 1]);
            }
        }
        lemma_insert_sorted_keeps_sorted(rest, c);
        lemma_insert_sorted_elems(rest, c);
        let out = spec_insert_sorted(s, c);
        let ins_rest = spec_insert_sorted(rest, c);
        assert forall|i: int, j: int| 0 <= i < j < out.len() implies spec_child_le(
            #[trigger] out[i],
            #[trigger] out[j],
        ) by {
            if i == 0 {
                assert(out[j] == ins_rest[j - 1]);
                if ins_rest[j - 1] == c {
                } else {
                    let k = choose|k: int| 0 <= k < rest.len() && rest[k] == ins_rest[j - 1];
                    assert(rest[k] == s[k + 1]);
                    assert(spec_child_le(s[0], s[k + 1]));
                }
            } else {
                assert(out[i] == ins_rest[i - 1] && out[j] == ins_rest[j - 1]);
            }
        }
    } else {
        let out = spec_insert_sorted(s, c);
        assert forall|i: int, j: int| 0 <= i < j < out.len() implies spec_child_le(
            #[trigger] out[i],
            #[trigger] out[j],
        ) by {
            if i == 0 {
                if s.len() > 0 {
                    lemma_child_le_total(s[0], c);
                    assert(spec_child_le(c, s[0]));
                    assert(out[j] == s[j - 1]);
                    if j > 1 {
                        lemma_child_le_trans(c, s[0], s[j - 1]);
                    }
                }
            } else {
                assert(out[i] == s[i - 1] && out[j] == s[j - 1]);
            }
        }
    }
}

/// An insertion adds exactly the inserted row to the listing's rows.
proof fn lemma_insert_sorted_multiset(s: Seq<ChildV>, c: ChildV)
    ensures
        spec_insert_sorted(s, c).to_multiset() == s.to_multiset().insert(c),
    decreases s.len(),
{
    broadcast use vstd::seq_lib::group_to_multiset_ensures;

    if s.len() > 0 && spec_child_le(s[0], c) {
        let rest = s.drop_first();
        lemma_insert_sorted_multiset(rest, c);
        assert(seq![s[0]] + spec_insert_sorted(rest, c) =~= spec_insert_sorted(rest, c).insert(
            0,
            s[0],
        ));
        assert(seq![s[0]] + rest =~= rest.insert(0, s[0]));
        assert(s =~= seq![s[0]] + rest);
        assert(s.to_multiset() == rest.to_multiset().insert(s[0]));
        assert(spec_insert_sorted(s, c).to_multiset() =~= s.to_multiset().insert(c));
    } else {
        assert(seq![c] + s =~= s.insert(0, c));
    }
}

/// Law (the listing sort): sorting a listing keeps exactly its rows — the
/// sorted listing is a permutation of the incoming one.
pub proof fn lemma_sort_children_multiset(s: Seq<ChildV>)
    ensures
        spec_sort_children(s).to_multiset() == s.to_multiset(),
    decreases s.len(),
{
    broadcast use vstd::seq_lib::group_to_multiset_ensures;

    if s.len() > 0 {
        lemma_sort_children_multiset(s.drop_last());
        lemma_insert_sorted_multiset(spec_sort_children(s.drop_last()), s.last());
        assert(s =~= s.drop_last().push(s.last()));
        assert(s.to_multiset() == s.drop_last().to_multiset().insert(s.last()));
    }
}

/// Law (the listing sort): the sorted listing is in listing order — every
/// directory row comes before every non-directory row, and rows of the same
/// bucket come in ascending order of name.
pub proof fn lemma_sort_children_sorted(s: Seq<ChildV>)
    ensures
        spec_children_sorted(spec_sort_children(s)),
    decreases s.len(),
{
    if s.len() > 0 {
        lemma_sort_children_sorted(s.drop_last());
        lemma_insert_sorted_keeps_sorted(spec_sort_children(s.drop_last()), s.last());
    }
}

/// An identical copy of a listing row.
fn clone_child(c: &Child) -> (r: Child)
    ensures
        r@ == c@,
{
    Child { name: c.name.clone(), url: c.url.clone(), file_type: c.file_type.clone() }
}

/// Appends one row, tracked at the level of row views.
fn push_child(v: &mut Vec<Child>, c: Child)
    ensures
        final(v).deep_view() == old(v).deep_view().push(c@),
{
    let ghost before = v.deep_view();
    let ghost cv = c@;
    v.push(c);
    assert forall|k: int| 0 <= k < v@.len() implies v.deep_view()[k] == before.push(cv)[k] by {
        if k < before.len() {
            assert(v@[k] == old(v)@[k]);
        }
    }
    assert(v.deep_view() =~= before.push(cv));
}

/// Inserts one row, tracked at the level of row views.
fn insert_child_at(v: &mut Vec<Child>, j: usize, c: Child)
    requires
        j <= old(v).len(),
    ensures
        final(v).deep_view() == old(v).deep_view().take(j as int) + seq![c@] + old(
            v,
        ).deep_view().skip(j as int),
    {
    let ghost before = v.deep_view();
    let ghost cv = c@;
    v.insert(j, c);
    let ghost expected = before.take(j as int) + seq![cv] + before.skip(j as int);
    assert forall|k: int| 0 <= k < v@.len() implies v.deep_view()[k] == expected[k] by {
        assert(v@ == old(v)@.insert(j as int, c));
        if k < j {
            assert(v@[k] == old(v)@[k]);
        } else if k == j {
            assert(v@[k] == c);
        } else {
            assert(v@[k] == old(v)@[k - 1]);
        }
    }
    assert(v.deep_view() =~= expected);
}

/// Inserts one row into a listing after every row that comes no later than
/// it, as `spec_insert_sorted` describes.
fn insert_child_sorted(v: &mut Vec<Child>, c: Child)
    ensures
        final(v).deep_view() == spec_insert_sorted(old(v).deep_view(), c@),
{
    let n = v.len();
    let ghost dv = v.deep_view();
    let ghost cv = c@;
    let mut j: usize = 0;
    while j < n && child_le(&v[j], &c)
        invariant
            n == v.len(),
            v.deep_view() == dv,
            cv == c@,
            j <= n,
            forall|k: int| 0 <= k < j ==> spec_child_le(#[trigger] dv[k], cv),
        decreases n - j,
    {
        j = j + 1;
    }
    proof {
        lemma_insert_sorted_at(dv, cv, j as int);
    }
    insert_child_at(v, j, c);
}

/// Sorts listing rows as `spec_sort_children` describes: directories first,
/// each bucket by name ascending, rows the order does not part staying in
/// their incoming order.
fn sort_children(v: &Vec<Child>) -> (r: Vec<Child>)
    ensures
        r.deep_view() == spec_sort_children(v.deep_view()),
{
    let mut out: Vec<Child> = Vec::new();
    let n = v.len();
    assert(v.deep_view().take(0) =~= Seq::<ChildV>::empty());
    for i in 0..n
        invariant
            n == v.len(),
            out.deep_view() == spec_sort_children(v.deep_view().take(i as int)),
    {
        insert_child_sorted(&mut out, clone_child(&v[i]));
        assert(v.deep_view().take(i + 1 as int).drop_last() =~= v.deep_view().take(i as int));
        assert(v.deep_view().take(i + 1 as int).last() == v.deep_view()[i as int]);
    }
    assert(v.deep_view().take(n as int) =~= v.deep_view());
    out
}

/// A prefix of a path is still a prefix after one more component.
proof fn lemma_prefix_push(base: Seq<Seq<char>>, p: Seq<Seq<char>>, x: Seq<char>)
    requires
        base.is_prefix_of(p),
    ensures
        base.is_prefix_of(p.push(x)),
{
    assert(p.push(x).subrange(0, base.len() as int) =~= p.subrange(0, base.len() as int));
}

impl Dir {
    /// The listing rows of the directory's immediate children: each entry is
    /// classified and given its URL and kind name, then the rows are sorted
    /// with directories first and each bucket by name ascending.
    pub fn get_children(&self, context: &AppContext, entries: &Vec<ChildEntry>) -> (r: Vec<Child>)
        requires
            context.root_notes@.is_prefix_of(self.path@),
        ensures
            r.deep_view() == spec_sort_children(
                spec_children_rows(context, self.path@, entries.deep_view()),
            ),
    {
        let ghost rows_spec = spec_children_rows(context, self.path@, entries.deep_view());
        let mut rows: Vec<Child> = Vec::new();
        let n = entries.len();
        assert(rows.deep_view() =~= rows_spec.take(0));
        for i in 0..n
            invariant
                n == entries.len(),
                context.root_notes@.is_prefix_of(self.path@),
                rows_spec == spec_children_rows(context, self.path@, entries.deep_view()),
                rows_spec.len() == n,
                rows.deep_view() == rows_spec.take(i as int),
        {
            let e = &entries[i];
            let child_path = self.path.join(&e.name);
            proof {
                lemma_prefix_push(context.root_notes@, self.path@, e.name@);
            }
            let kind = self.file_type_manager.create_file_type(&child_path, e.meta);
            let url = kind.get_url(context);
            let name = file_stem(e.name.as_str());
            let ft = String::from_str(kind.get_type_str());
            push_child(&mut rows, Child { name, url, file_type: ft });
            assert(rows.deep_view() =~= rows_spec.take(i + 1 as int));
        }
        assert(rows_spec.take(n as int) =~= rows_spec);
        sort_children(&rows)
    }
}

/// The JSON object of one listing row: its name, URL and kind name.
pub open spec fn spec_child_json(c: ChildV) -> Seq<char> {
    "{\"name\":"@ + spec_json_string(c.name) + ",\"url\":"@ + spec_json_string(c.url)
        + ",\"file_type\":"@ + spec_json_string(c.file_type) + "}"@
}

/// The comma-separated JSON objects of a listing, without the brackets.
pub open spec fn spec_children_inner(cs: Seq<ChildV>) -> Seq<char>
    decreases cs.len(),
{
    if cs.len() == 0 {
        Seq::empty()
    } else if cs.len() == 1 {
        spec_child_json(cs[0])
    } else {
        spec_children_inner(cs.drop_last()) + ","@ + spec_child_json(cs.last())
    }
}

/// The JSON array of a listing.
pub open spec fn spec_children_json(cs: Seq<ChildV>) -> Seq<char> {
    "["@ + spec_children_inner(cs) + "]"@
}

/// Appends the JSON object of one listing row.
fn append_child_json(out: &mut String, c: &Child)
    ensures
        final(out)@ == old(out)@ + spec_child_json(c@),
{
    out.append("{\"name\":");
    append_json_string(out, c.name.as_str());
    out.append(",\"url\":");
    append_json_string(out, c.url.as_str());
    out.append(",\"file_type\":");
    append_json_string(out, c.file_type.as_str());
    out.append("}");
    assert(out@ =~= old(out)@ + spec_child_json(c@));
}

/// Appends the JSON array of a listing.
fn append_children_json(out: &mut String, children: &Vec<Child>)
    ensures
        final(out)@ == old(out)@ + spec_children_json(children.deep_view()),
{
    out.append("[");
    let n = children.len();
    for i in 0..n
        invariant
            n == children.len(),
            out@ == old(out)@ + "["@ + spec_children_inner(children.deep_view().take(i as int)),
    {
        if i > 0 {
            out.append(",");
        }
        append_child_json(out, &children[i]);
        assert(children.deep_view().take(i + 1 as int).drop_last() =~= children.deep_view().take(
            i as int,
        ));
        assert(children.deep_view().take(i + 1 as int).last() == children.deep_view()[i as int]);
        assert(out@ =~= old(out)@ + "["@ + spec_children_inner(
            children.deep_view().take(i + 1 as int),
        ));
    }
    out.append("]");
    assert(children.deep_view().take(n as int) =~= children.deep_view());
    assert(out@ =~= old(out)@ + spec_children_json(children.deep_view()));
}

/// The JSON text of a directory's render model: its name (its own basename,
/// or `root` for the notes root), its breadcrumb links, its listing rows,
/// and the base URL.
pub open spec fn spec_dir_model_json(
    name: Seq<char>,
    parents: Seq<LinkV>,
    children: Seq<ChildV>,
    base_url: Seq<char>,
) -> Seq<char> {
    "{\"name\":"@ + spec_json_string(name) + ",\"parents\":"@ + spec_links_json(parents)
        + ",\"children\":"@ + spec_children_json(children) + ",\"base_url\":"@ + spec_json_string(
        base_url,
    ) + "}"@
}

/// Builds the JSON text of a directory's render model.
fn dir_model_json(name: &str, parents: &Vec<Link>, children: &Vec<Child>, base_url: &str) -> (r:
    String)
    ensures
        r@ == spec_dir_model_json(
            name@,
            parents.deep_view(),
            children.deep_view(),
            base_url@,
        ),
{
    let mut out = String::from_str("{\"name\":");
    append_json_string(&mut out, name);
    out.append(",\"parents\":");
    append_links_json(&mut out, parents);
    out.append(",\"children\":");
    append_children_json(&mut out, children);
    out.append(",\"base_url\":");
    append_json_string(&mut out, base_url);
    out.append("}");
    assert(out@ =~= spec_dir_model_json(
        name@,
        parents.deep_view(),
        children.deep_view(),
        base_url@,
    ));
    out
}

/// What converting a directory produces: the destination directory to ensure
/// exists, and its `index.html` to write.
pub struct DirOutput {
    pub dir: SitePath,
    pub index: FileWrite,
}

impl Dir {
    /// Converts the directory: mirrors it under the destination root, lists
    /// and sorts its children, renders the listing model through the `dir`
    /// template, and names the directory's `index.html`. It succeeds exactly
    /// when the engine renders the `dir` template over the listing model (so
    /// never before that template is registered); an `Err` carries the
    /// engine's message.
    pub fn convert(&self, context: &AppContext, entries: &Vec<ChildEntry>) -> (r: Result<
        DirOutput,
        String,
    >)
        requires
            context.wf(),
            context.root_notes@.is_prefix_of(self.path@),
        ensures
            ({
                let rel = self.path@.skip(context.root_notes@.len() as int);
                let name = if rel.len() == 0 {
                    "root"@
                } else {
                    rel.last()
                };
                let children = spec_sort_children(
                    spec_children_rows(context, self.path@, entries.deep_view()),
                );
                let data = spec_dir_model_json(
                    name,
                    spec_parent_links(context.base_url@, rel, true),
                    children,
                    context.base_url@,
                );
                &&& (r is Ok <==> hbs::hbs_renders(context.templates(), "dir"@, data))
                &&& (r is Ok ==> context.templates().dom().contains("dir"@))
                &&& (r is Ok ==> (r->Ok_0).dir@ == context.root_dest@ + rel)
                &&& (r is Ok ==> (r->Ok_0).index.path@ == (context.root_dest@ + rel).push(
                    "index.html"@,
                ))
                &&& (r is Ok ==> (r->Ok_0).index.contents@ == hbs::hbs_render_of(
                    context.templates(),
                    "dir"@,
                    data,
                ))
            }),
    {
        let rel = match self.path.my_relative_from(&context.root_notes) {
            Some(r) => r,
            None => unreached(),
        };
        let new_dir = context.root_dest.append(&rel);
        let index_name = String::from_str("index.html");
        let new_dir_index = new_dir.join(&index_name);
        let children = self.get_children(context, entries);
        let name = match rel.file_name() {
            Some(n) => n.clone(),
            None => String::from_str("root"),
        };
        let parents = create_parent_links(context.base_url.as_str(), &rel, true);
        let data = dir_model_json(name.as_str(), &parents, &children, context.base_url.as_str());
        match hbs::hbs_render(&context.handlebars, "dir", data.as_str()) {
            Ok(rendered) => Ok(
                DirOutput {
                    dir: new_dir,
                    index: FileWrite { path: new_dir_index, contents: rendered },
                },
            ),
            Err(e) => Err(e),
        }
    }
}

/// Law (re-runs are byte-identical): two successful conversions of the same
/// directory with the same child entries under the same context name the same
/// destination paths and produce the same listing bytes.
pub proof fn lemma_dir_convert_repeatable(
    d: &Dir,
    context: &AppContext,
    entries: &Vec<ChildEntry>,
    r1: Result<DirOutput, String>,
    r2: Result<DirOutput, String>,
)
    requires
        call_ensures(Dir::convert, (d, context, entries), r1),
        call_ensures(Dir::convert, (d, context, entries), r2),
        r1 is Ok,
        r2 is Ok,
    ensures
        (r1->Ok_0).dir@ == (r2->Ok_0).dir@,
        (r1->Ok_0).index.path@ == (r2->Ok_0).index.path@,
        (r1->Ok_0).index.contents@ == (r2->Ok_0).index.contents@,
{
}

} // verus!
