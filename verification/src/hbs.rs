//! The template engine's registry, held behind trusted declarations: the
//! library registers composed templates under fixed names and renders model
//! data (handed over as JSON text) through them.

use vstd::prelude::*;

verus! {

/// handlebars's registry type, so that a context can hold and pass one.
#[verifier::external_type_specification]
#[verifier::external_body]
pub struct ExHandlebars<'reg>(handlebars::Handlebars<'reg>);

/// The registry type as this library holds it.
pub type TemplateRegistry = handlebars::Handlebars<'static>;

/// What a registry holds: template name to the registered template's text.
pub uninterp spec fn templates_of(h: TemplateRegistry) -> Map<Seq<char>, Seq<char>>;

/// Whether a registry is, templates aside, exactly as `Handlebars::new` made
/// it: default settings (no strict or dev mode, the default escape function),
/// only the built-in helpers, and every template registered from a string.
/// Registering template strings is the one change this library ever makes to
/// a registry, so the invariant holds of every registry it produces; it is
/// what scopes the render claims below.
pub uninterp spec fn default_config(h: TemplateRegistry) -> bool;

/// Whether a template text compiles, under the engine's default settings.
pub uninterp spec fn tpl_compiles(tpl: Seq<char>) -> bool;

/// Whether rendering the named template of a registered-template map over a
/// JSON data text succeeds, for a default-configured registry. Partial
/// references resolve in the same map, so success depends on the whole map,
/// not the named text alone; it also asks that the data text be valid JSON.
pub uninterp spec fn hbs_renders(
    templates: Map<Seq<char>, Seq<char>>,
    name: Seq<char>,
    data: Seq<char>,
) -> bool;

/// What that rendering produces when it succeeds: a function of the
/// registered-template map (partial references resolve in the same registry),
/// the template name and the data text, for a default-configured registry.
pub uninterp spec fn hbs_render_of(
    templates: Map<Seq<char>, Seq<char>>,
    name: Seq<char>,
    data: Seq<char>,
) -> Seq<char>;

/// Relies on handlebars's Handlebars::new: a fresh registry holds no
/// templates and carries the default configuration.
#[verifier::external_body]
pub(crate) fn hbs_new() -> (h: TemplateRegistry)
    ensures
        templates_of(h).dom() == Set::<Seq<char>>::empty(),
        default_config(h),
{
    handlebars::Handlebars::new()
}

/// Relies on handlebars's Handlebars::register_template_string: the template
/// text is compiled (a function of the text alone, under default settings);
/// on success the compiled template is stored under the name, replacing any
/// previous entry, and on a syntax error nothing is stored. Nothing but the
/// template store changes, so a default-configured registry stays so.
#[verifier::external_body]
pub(crate) fn hbs_register(
    h: &mut TemplateRegistry,
    name: &str,
    tpl: &str,
) -> (r: Result<(), String>)
    ensures
        r is Ok <==> tpl_compiles(tpl@),
        r is Ok ==> templates_of(*final(h)) == templates_of(*old(h)).insert(name@, tpl@),
        r is Err ==> templates_of(*final(h)) == templates_of(*old(h)),
        default_config(*old(h)) ==> default_config(*final(h)),
{
    h.register_template_string(name, tpl).map_err(|e| e.to_string())
}

/// Relies on handlebars's Handlebars::render (and serde_json::from_str, which
/// turns the JSON text into the engine's data model): for a default-configured
/// registry — the only kind this is allowed to see — whether the call
/// succeeds, and what it then produces, are functions of the registered
/// templates, the name and the data text. Rendering fails for an unregistered
/// name; an `Err` carries the engine's (or the JSON parser's) message.
#[verifier::external_body]
pub(crate) fn hbs_render(
    h: &TemplateRegistry,
    name: &str,
    data_json: &str,
) -> (r: Result<String, String>)
    requires
        default_config(*h),
    ensures
        r is Ok <==> hbs_renders(templates_of(*h), name@, data_json@),
        r is Ok ==> templates_of(*h).dom().contains(name@) && (r->Ok_0)@ == hbs_render_of(
            templates_of(*h),
            name@,
            data_json@,
        ),
{
    let data: serde_json::Value = match serde_json::from_str(data_json) {
        Ok(v) => v,
        Err(e) => return Err(e.to_string()),
    };
    h.render(name, &data).map_err(|e| e.to_string())
}

} // verus!
