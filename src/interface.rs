use vstd::prelude::*;

use crate::args::{
    arg_tokens, generate_c_args, join_commas, lemma_arg_tokens_len, lemma_join_concat,
    render_args,
};
use crate::naming::{generate_func_name, interface_func_names, site_func_name};
use crate::schema::{
    class_sites, fields_model, lemma_schema_sites_push, lemma_sites_of_classes_push, provider_sites,
    schema_model, schema_sites, sites_of_classes, EventClass, EventInstance, EventSite, Provider,
    ProviderModel,
};

verus! {

/// The forward declaration of a site's wrapper function.
pub open spec fn declaration(s: EventSite) -> Seq<char> {
    "extern void "@ + site_func_name(s) + "("@ + render_args(s.fields, true) + ");\n"@
}

/// The arguments of the forwarding macro call: provider name, instance name,
/// then the bare field arguments.
pub open spec fn tracepoint_args(s: EventSite) -> Seq<char> {
    join_commas(seq![s.provider, s.instance] + arg_tokens(s.fields, false))
}

/// The definition of a site's wrapper function, forwarding to `tracepoint`.
pub open spec fn definition(s: EventSite) -> Seq<char> {
    "void "@ + site_func_name(s) + "("@ + render_args(s.fields, true) + ") {\n"@
        + "    tracepoint("@ + tracepoint_args(s) + ");\n"@ + "}\n\n"@
}

/// One declaration per site, in order.
pub open spec fn declaration_list(sites: Seq<EventSite>) -> Seq<Seq<char>> {
    sites.map_values(|s: EventSite| declaration(s))
}

/// One definition per site, in order.
pub open spec fn definition_list(sites: Seq<EventSite>) -> Seq<Seq<char>> {
    sites.map_values(|s: EventSite| definition(s))
}

pub open spec fn declarations(sites: Seq<EventSite>) -> Seq<char> {
    declaration_list(sites).flatten()
}

pub open spec fn definitions(sites: Seq<EventSite>) -> Seq<char> {
    definition_list(sites).flatten()
}

pub open spec fn header_preamble() -> Seq<char> {
    "#if !defined(_RUST_TRACEPOINT_INTERFACE)\n#define _RUST_TRACEPOINT_INTERFACE\n#include <stdint.h>\n#include <stddef.h>\n"@
}

pub open spec fn header_postamble() -> Seq<char> {
    "#endif"@
}

/// The whole interface header of a schema.
pub open spec fn header_text(ps: Seq<ProviderModel>) -> Seq<char> {
    header_preamble() + declarations(schema_sites(ps)) + header_postamble()
}

/// An `#include "<path>"` line.
pub open spec fn include_line(path: Seq<char>) -> Seq<char> {
    "#include \""@ + path + "\"\n"@
}

/// The whole interface implementation of a schema.
pub open spec fn impl_text(
    ps: Seq<ProviderModel>,
    interface_header: Seq<char>,
    tracepoint_header: Seq<char>,
) -> Seq<char> {
    include_line(interface_header) + include_line(tracepoint_header) + definitions(
        schema_sites(ps),
    )
}

pub open spec fn site_of(p: &Provider, c: &EventClass, i: &EventInstance) -> EventSite {
    EventSite {
        provider: p.name@,
        class_name: c.class_name@,
        fields: fields_model(c.fields@),
        instance: i.name@,
    }
}

pub proof fn lemma_declarations_concat(a: Seq<EventSite>, b: Seq<EventSite>)
    ensures
        declarations(a + b) == declarations(a) + declarations(b),
{
    assert(declaration_list(a + b) =~= declaration_list(a) + declaration_list(b));
    vstd::seq_lib::lemma_flatten_concat(declaration_list(a), declaration_list(b));
}

pub proof fn lemma_definitions_concat(a: Seq<EventSite>, b: Seq<EventSite>)
    ensures
        definitions(a + b) == definitions(a) + definitions(b),
{
    assert(definition_list(a + b) =~= definition_list(a) + definition_list(b));
    vstd::seq_lib::lemma_flatten_concat(definition_list(a), definition_list(b));
}

pub proof fn lemma_declarations_push(a: Seq<EventSite>, s: EventSite)
    ensures
        declarations(a.push(s)) == declarations(a) + declaration(s),
{
    assert(declaration_list(a.push(s)) =~= declaration_list(a).push(declaration(s)));
    declaration_list(a).lemma_flatten_push(declaration(s));
}

pub proof fn lemma_definitions_push(a: Seq<EventSite>, s: EventSite)
    ensures
        definitions(a.push(s)) == definitions(a) + definition(s),
{
    assert(definition_list(a.push(s)) =~= definition_list(a).push(definition(s)));
    definition_list(a).lemma_flatten_push(definition(s));
}

/// The forward declaration of one instance's wrapper.
fn instance_header(provider: &Provider, event_class: &EventClass, instance: &EventInstance) -> (r: String)
    ensures
        r@ == declaration(site_of(provider, event_class, instance)),
{
    let name = generate_func_name(provider, event_class, instance);
    let params = generate_c_args(event_class.fields.as_slice(), true);
    let mut r = String::new();
    r.append("extern void ");
    r.append(name.as_str());
    r.append("(");
    r.append(params.as_str());
    r.append(");\n");
    assert(r@ =~= declaration(site_of(provider, event_class, instance)));
    r
}

/// The declarations of every instance of one class.
fn class_header(provider: &Provider, event_class: &EventClass) -> (r: String)
    ensures
        r@ == declarations(class_sites(provider.name@, event_class@)),
{
    let ghost sites = class_sites(provider.name@, event_class@);
    let mut out = String::new();
    let mut k: usize = 0;
    while k < event_class.instances.len()
        invariant
            0 <= k <= event_class.instances@.len(),
            sites == class_sites(provider.name@, event_class@),
            out@ == declarations(sites.take(k as int)),
        decreases event_class.instances@.len() - k,
    {
        let instance = &event_class.instances[k];
        let line = instance_header(provider, event_class, instance);
        proof {
            assert(sites.take(k as int + 1) =~= sites.take(k as int).push(sites[k as int]));
            assert(sites[k as int] == site_of(provider, event_class, instance));
            lemma_declarations_push(sites.take(k as int), sites[k as int]);
        }
        out.append(line.as_str());
        k = k + 1;
    }
    assert(sites.take(k as int) =~= sites);
    out
}

/// The declarations of every instance of one provider, class by class.
pub fn generate_provider_header(provider: &Provider) -> (r: String)
    ensures
        r@ == declarations(provider_sites(provider@)),
{
    let ghost classes = provider@.classes;
    let mut out = String::new();
    let mut j: usize = 0;
    while j < provider.classes.len()
        invariant
            0 <= j <= provider.classes@.len(),
            classes == provider@.classes,
            out@ == declarations(sites_of_classes(provider.name@, classes.take(j as int))),
        decreases provider.classes@.len() - j,
    {
        let block = class_header(provider, &provider.classes[j]);
        proof {
            let pn = provider.name@;
            assert(classes.take(j as int + 1) =~= classes.take(j as int).push(classes[j as int]));
            lemma_sites_of_classes_push(pn, classes.take(j as int), classes[j as int]);
            lemma_declarations_concat(
                sites_of_classes(pn, classes.take(j as int)),
                class_sites(pn, classes[j as int]),
            );
        }
        out.append(block.as_str());
        j = j + 1;
    }
    assert(classes.take(j as int) =~= classes);
    out
}

/// The interface header: a guarded preamble, one declaration per instance
/// in schema order, and the closing directive.
pub fn generate_interface_header(providers: &[Provider]) -> (r: String)
    ensures
        r@ == header_text(schema_model(providers@)),
{
    let ghost ps = schema_model(providers@);
    let mut out = String::new();
    out.append(
        "#if !defined(_RUST_TRACEPOINT_INTERFACE)\n#define _RUST_TRACEPOINT_INTERFACE\n#include <stdint.h>\n#include <stddef.h>\n",
    );
    let mut i: usize = 0;
    while i < providers.len()
        invariant
            0 <= i <= providers@.len(),
            ps == schema_model(providers@),
            out@ == header_preamble() + declarations(schema_sites(ps.take(i as int))),
        decreases providers@.len() - i,
    {
        let block = generate_provider_header(&providers[i]);
        proof {
            assert(ps.take(i as int + 1) =~= ps.take(i as int).push(ps[i as int]));
            lemma_schema_sites_push(ps.take(i as int), ps[i as int]);
            lemma_declarations_concat(
                schema_sites(ps.take(i as int)),
                provider_sites(ps[i as int]),
            );
        }
        out.append(block.as_str());
        assert(out@ =~= header_preamble() + declarations(schema_sites(ps.take(i as int + 1))));
        i = i + 1;
    }
    assert(ps.take(i as int) =~= ps);
    out.append("#endif");
    assert(out@ =~= header_text(ps));
    out
}

/// The definition of one instance's wrapper, forwarding its arguments.
fn instance_impl(provider: &Provider, event_class: &EventClass, instance: &EventInstance) -> (r: String)
    ensures
        r@ == definition(site_of(provider, event_class, instance)),
{
    let ghost s = site_of(provider, event_class, instance);
    let name = generate_func_name(provider, event_class, instance);
    let params = generate_c_args(event_class.fields.as_slice(), true);
    let bare = generate_c_args(event_class.fields.as_slice(), false);
    let mut r = String::new();
    r.append("void ");
    r.append(name.as_str());
    r.append("(");
    r.append(params.as_str());
    r.append(") {\n");
    r.append("    tracepoint(");
    let ghost head = r@;
    r.append(provider.name.as_str());
    r.append(", ");
    r.append(instance.name.as_str());
    proof {
        let ends = seq![s.provider, s.instance];
        assert(ends.drop_last() =~= seq![s.provider]);
        assert(join_commas(seq![s.provider]) == s.provider);
        assert(ends.last() == s.instance);
        assert(join_commas(ends) == s.provider + ", "@ + s.instance);
        lemma_join_concat(ends, arg_tokens(s.fields, false));
        lemma_arg_tokens_len(s.fields);
    }
    if event_class.fields.len() > 0 {
        r.append(", ");
        r.append(bare.as_str());
    }
    assert(r@ =~= head + tracepoint_args(s));
    r.append(");\n");
    r.append("}\n\n");
    assert(r@ =~= definition(s));
    r
}

/// The definitions of every instance of one class.
fn class_impl(provider: &Provider, event_class: &EventClass) -> (r: String)
    ensures
        r@ == definitions(class_sites(provider.name@, event_class@)),
{
    let ghost sites = class_sites(provider.name@, event_class@);
    let mut out = String::new();
    let mut k: usize = 0;
    while k < event_class.instances.len()
        invariant
            0 <= k <= event_class.instances@.len(),
            sites == class_sites(provider.name@, event_class@),
            out@ == definitions(sites.take(k as int)),
        decreases event_class.instances@.len() - k,
    {
        let instance = &event_class.instances[k];
        let def = instance_impl(provider, event_class, instance);
        proof {
            assert(sites.take(k as int + 1) =~= sites.take(k as int).push(sites[k as int]));
            assert(sites[k as int] == site_of(provider, event_class, instance));
            lemma_definitions_push(sites.take(k as int), sites[k as int]);
        }
        out.append(def.as_str());
        k = k + 1;
    }
    assert(sites.take(k as int) =~= sites);
    out
}

/// The definitions of every instance of one provider, class by class.
pub fn generate_provider_impl(provider: &Provider) -> (r: String)
    ensures
        r@ == definitions(provider_sites(provider@)),
{
    let ghost classes = provider@.classes;
    let mut out = String::new();
    let mut j: usize = 0;
    while j < provider.classes.len()
        invariant
            0 <= j <= provider.classes@.len(),
            classes == provider@.classes,
            out@ == definitions(sites_of_classes(provider.name@, classes.take(j as int))),
        decreases provider.classes@.len() - j,
    {
        let block = class_impl(provider, &provider.classes[j]);
        proof {
            let pn = provider.name@;
            assert(classes.take(j as int + 1) =~= classes.take(j as int).push(classes[j as int]));
            lemma_sites_of_classes_push(pn, classes.take(j as int), classes[j as int]);
            lemma_definitions_concat(
                sites_of_classes(pn, classes.take(j as int)),
                class_sites(pn, classes[j as int]),
            );
        }
        out.append(block.as_str());
        j = j + 1;
    }
    assert(classes.take(j as int) =~= classes);
    out
}

/// The interface implementation: the two `#include` lines, then one wrapper
/// definition per instance in schema order.
pub fn generate_interface_impl(
    providers: &[Provider],
    interface_header: &str,
    tracepoint_header: &str,
) -> (r: String)
    ensures
        r@ == impl_text(schema_model(providers@), interface_header@, tracepoint_header@),
{
    let ghost ps = schema_model(providers@);
    let mut out = String::new();
    out.append("#include \"");
    out.append(interface_header);
    out.append("\"\n");
    out.append("#include \"");
    out.append(tracepoint_header);
    out.append("\"\n");
    let ghost head = include_line(interface_header@) + include_line(tracepoint_header@);
    assert(out@ =~= head);
    let mut i: usize = 0;
    while i < providers.len()
        invariant
            0 <= i <= providers@.len(),
            ps == schema_model(providers@),
            out@ == head + definitions(schema_sites(ps.take(i as int))),
        decreases providers@.len() - i,
    {
        let block = generate_provider_impl(&providers[i]);
        proof {
            assert(ps.take(i as int + 1) =~= ps.take(i as int).push(ps[i as int]));
            lemma_schema_sites_push(ps.take(i as int), ps[i as int]);
            lemma_definitions_concat(
                schema_sites(ps.take(i as int)),
                provider_sites(ps[i as int]),
            );
        }
        out.append(block.as_str());
        assert(out@ =~= head + definitions(schema_sites(ps.take(i as int + 1))));
        i = i + 1;
    }
    assert(ps.take(i as int) =~= ps);
    out
}

/// The header, the implementation and the allowlist name the same functions
/// in the same order: the header is its preamble, one declaration per
/// generated name and its closing line; the implementation is its two
/// includes and one definition per generated name; the i-th declaration and
/// the i-th definition are those of the i-th name.
pub proof fn lemma_outputs_name_same_functions(
    ps: Seq<ProviderModel>,
    interface_header: Seq<char>,
    tracepoint_header: Seq<char>,
)
    ensures
        header_text(ps) == header_preamble() + declaration_list(schema_sites(ps)).flatten()
            + header_postamble(),
        impl_text(ps, interface_header, tracepoint_header) == include_line(interface_header)
            + include_line(tracepoint_header) + definition_list(schema_sites(ps)).flatten(),
        declaration_list(schema_sites(ps)).len() == interface_func_names(ps).len(),
        definition_list(schema_sites(ps)).len() == interface_func_names(ps).len(),
        forall|i: int|
            0 <= i < interface_func_names(ps).len() ==> ("extern void "@ + interface_func_names(
                ps,
            )[i] + "("@).is_prefix_of(#[trigger] declaration_list(schema_sites(ps))[i]),
        forall|i: int|
            0 <= i < interface_func_names(ps).len() ==> ("void "@ + interface_func_names(ps)[i]
                + "("@).is_prefix_of(#[trigger] definition_list(schema_sites(ps))[i]),
{
    let sites = schema_sites(ps);
    let names = interface_func_names(ps);
    assert forall|i: int| 0 <= i < names.len() implies ("extern void "@ + names[i]
        + "("@).is_prefix_of(#[trigger] declaration_list(sites)[i]) by {
        let pre = "extern void "@ + names[i] + "("@;
        let rest = render_args(sites[i].fields, true) + ");\n"@;
        assert(declaration_list(sites)[i] =~= pre + rest);
        assert((pre + rest).subrange(0, pre.len() as int) =~= pre);
    }
    assert forall|i: int| 0 <= i < names.len() implies ("void "@ + names[i] + "("@).is_prefix_of(
        #[trigger] definition_list(sites)[i],
    ) by {
        let pre = "void "@ + names[i] + "("@;
        let rest = render_args(sites[i].fields, true) + ") {\n"@ + "    tracepoint("@
            + tracepoint_args(sites[i]) + ");\n"@ + "}\n\n"@;
        assert(definition_list(sites)[i] =~= pre + rest);
        assert((pre + rest).subrange(0, pre.len() as int) =~= pre);
    }
}

/// Generation depends on the schema alone: two schemas with the same content
/// give byte-identical headers, implementations and allowlisted names.
pub proof fn lemma_generation_deterministic(
    a: Seq<Provider>,
    b: Seq<Provider>,
    interface_header: Seq<char>,
    tracepoint_header: Seq<char>,
)
    requires
        schema_model(a) == schema_model(b),
    ensures
        header_text(schema_model(a)) == header_text(schema_model(b)),
        impl_text(schema_model(a), interface_header, tracepoint_header) == impl_text(
            schema_model(b),
            interface_header,
            tracepoint_header,
        ),
        interface_func_names(schema_model(a)) == interface_func_names(schema_model(b)),
{
}

/// A site without fields gets an empty parameter list, an empty argument
/// list, and a zero-argument declaration and definition with no stray comma.
pub proof fn lemma_no_fields(s: EventSite)
    requires
        s.fields.len() == 0,
    ensures
        render_args(s.fields, true) == Seq::<char>::empty(),
        render_args(s.fields, false) == Seq::<char>::empty(),
        declaration(s) == "extern void "@ + site_func_name(s) + "();\n"@,
        definition(s) == "void "@ + site_func_name(s) + "() {\n"@ + "    tracepoint("@ + s.provider
            + ", "@ + s.instance + ");\n"@ + "}\n\n"@,
{
    lemma_arg_tokens_len(s.fields);
    let ends = seq![s.provider, s.instance];
    assert(ends.drop_last() =~= seq![s.provider]);
    assert(join_commas(seq![s.provider]) == s.provider);
    assert(seq![s.provider, s.instance] + arg_tokens(s.fields, false) =~= ends);
    assert("extern void "@ + site_func_name(s) + "("@ + Seq::<char>::empty() + ");\n"@ =~= "extern void "@
        + site_func_name(s) + "();\n"@) by {
        reveal_strlit("(");
        reveal_strlit(");\n");
        reveal_strlit("();\n");
    }
    assert("void "@ + site_func_name(s) + "("@ + Seq::<char>::empty() + ") {\n"@ =~= "void "@
        + site_func_name(s) + "() {\n"@) by {
        reveal_strlit("(");
        reveal_strlit(") {\n");
        reveal_strlit("() {\n");
    }
}

} // verus!
