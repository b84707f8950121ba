use vstd::prelude::*;
use vstd::seq_lib::{seq_to_set_distributes_over_add, to_multiset_contains};

use bindgen::Builder;

use crate::naming::{
    generate_func_name, interface_func_names, lemma_site_func_names_concat, site_func_name,
    site_func_names,
};
use crate::schema::{
    class_sites, lemma_schema_sites_push, lemma_sites_of_classes_push, provider_sites,
    schema_model, schema_sites, sites_of_classes, Provider, ProviderModel,
};

verus! {

#[verifier::external_type_specification]
#[verifier::external_body]
pub struct ExBuilder(bindgen::Builder);

/// The function-name patterns allowlisted on a bindgen builder, in the order
/// they were added.
pub uninterp spec fn allowlisted_functions(b: Builder) -> Seq<Seq<char>>;

/// Relies on bindgen::Builder::allowlist_function, which appends its argument
/// to the builder's list of allowlisted function patterns and changes nothing
/// else in that list.
#[verifier::external_body]
fn allowlist_function(b: Builder, name: String) -> (r: Builder)
    ensures
        allowlisted_functions(r) == allowlisted_functions(b).push(name@),
{
    b.allowlist_function(name)
}

/// Allowlists the wrapper function of every instance of the schema, in
/// schema order, after whatever the builder already allowed.
pub fn whitelist_interface(providers: &[Provider], b: Builder) -> (r: Builder)
    ensures
        allowlisted_functions(r) == allowlisted_functions(b) + interface_func_names(
            schema_model(providers@),
        ),
{
    let ghost ps = schema_model(providers@);
    let ghost base = allowlisted_functions(b);
    let mut b = b;
    let mut i: usize = 0;
    while i < providers.len()
        invariant
            0 <= i <= providers@.len(),
            ps == schema_model(providers@),
            allowlisted_functions(b) == base + site_func_names(schema_sites(ps.take(i as int))),
        decreases providers@.len() - i,
    {
        let provider = &providers[i];
        let ghost done_ps = schema_sites(ps.take(i as int));
        let ghost classes = provider@.classes;
        let mut j: usize = 0;
        while j < provider.classes.len()
            invariant
                0 <= j <= classes.len(),
                classes == provider@.classes,
                classes.len() == provider.classes@.len(),
                allowlisted_functions(b) == base + site_func_names(done_ps) + site_func_names(
                    sites_of_classes(provider.name@, classes.take(j as int)),
                ),
            decreases classes.len() - j,
        {
            let event_class = &provider.classes[j];
            let ghost done_cs = sites_of_classes(provider.name@, classes.take(j as int));
            let ghost sites = class_sites(provider.name@, event_class@);
            let mut k: usize = 0;
            while k < event_class.instances.len()
                invariant
                    0 <= k <= event_class.instances@.len(),
                    sites == class_sites(provider.name@, event_class@),
                    allowlisted_functions(b) == base + site_func_names(done_ps) + site_func_names(
                        done_cs,
                    ) + site_func_names(sites.take(k as int)),
                decreases event_class.instances@.len() - k,
            {
                let fname = generate_func_name(provider, event_class, &event_class.instances[k]);
                assert(site_func_names(sites.take(k as int + 1)) =~= site_func_names(
                    sites.take(k as int),
                ).push(fname@));
                b = allowlist_function(b, fname);
                k = k + 1;
            }
            proof {
                assert(sites.take(k as int) =~= sites);
                assert(classes.take(j as int + 1) =~= classes.take(j as int).push(classes[j as int]));
                lemma_sites_of_classes_push(provider.name@, classes.take(j as int), classes[j as int]);
                lemma_site_func_names_concat(done_cs, sites);
            }
            j = j + 1;
        }
        proof {
            assert(classes.take(j as int) =~= classes);
            assert(ps.take(i as int + 1) =~= ps.take(i as int).push(ps[i as int]));
            lemma_schema_sites_push(ps.take(i as int), ps[i as int]);
            lemma_site_func_names_concat(done_ps, provider_sites(ps[i as int]));
        }
        i = i + 1;
    }
    assert(ps.take(i as int) =~= ps);
    b
}

/// Registering the same names in another order allows the same set of
/// names: membership depends only on which names were registered.
pub proof fn lemma_allowlist_order_independent(
    base: Seq<Seq<char>>,
    names: Seq<Seq<char>>,
    reordered: Seq<Seq<char>>,
)
    requires
        names.to_multiset() == reordered.to_multiset(),
    ensures
        (base + names).to_set() == (base + reordered).to_set(),
{
    seq_to_set_distributes_over_add(base, names);
    seq_to_set_distributes_over_add(base, reordered);
    assert forall|x: Seq<char>| names.contains(x) <==> reordered.contains(x) by {
        to_multiset_contains(names, x);
        to_multiset_contains(reordered, x);
    }
    assert(names.to_set() =~= reordered.to_set());
}

/// After allowlisting a schema, the allowed names are exactly those allowed
/// before and the wrapper name of every site of the schema.
pub proof fn lemma_allowlist_membership(base: Seq<Seq<char>>, ps: Seq<ProviderModel>)
    ensures
        (base + interface_func_names(ps)).to_set() == base.to_set().union(
            Set::new(
                |n: Seq<char>|
                    exists|i: int|
                        0 <= i < schema_sites(ps).len() && n == site_func_name(
                            #[trigger] schema_sites(ps)[i],
                        ),
            ),
        ),
{
    let sites = schema_sites(ps);
    let names = interface_func_names(ps);
    seq_to_set_distributes_over_add(base, names);
    assert forall|n: Seq<char>| #[trigger]
        names.contains(n) <==> exists|i: int|
            0 <= i < sites.len() && n == site_func_name(#[trigger] sites[i]) by {
        if names.contains(n) {
            let i = choose|i: int| 0 <= i < names.len() && names[i] == n;
            assert(n == site_func_name(sites[i]));
        }
        if exists|i: int| 0 <= i < sites.len() && n == site_func_name(#[trigger] sites[i]) {
            let i = choose|i: int| 0 <= i < sites.len() && n == site_func_name(#[trigger] sites[i]);
            assert(names[i] == n);
        }
    }
    assert((base + names).to_set() =~= base.to_set().union(
        Set::new(
            |n: Seq<char>|
                exists|i: int| 0 <= i < sites.len() && n == site_func_name(#[trigger] sites[i]),
        ),
    ));
}

} // verus!
