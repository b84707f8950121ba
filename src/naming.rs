use vstd::prelude::*;

use crate::schema::{schema_sites, EventClass, EventInstance, EventSite, Provider, ProviderModel};

verus! {

/// `provider_class_instance_tp`: the name of the wrapper function of a site.
pub open spec fn func_name(
    provider: Seq<char>,
    class_name: Seq<char>,
    instance: Seq<char>,
) -> Seq<char> {
    provider + "_"@ + class_name + "_"@ + instance + "_tp"@
}

/// The wrapper name of a site.
pub open spec fn site_func_name(s: EventSite) -> Seq<char> {
    func_name(s.provider, s.class_name, s.instance)
}

/// The exported wrapper name of an event instance.
pub fn generate_func_name(
    provider: &Provider,
    event_class: &EventClass,
    instance: &EventInstance,
) -> (r: String)
    ensures
        r@ == func_name(provider.name@, event_class.class_name@, instance.name@),
{
    let mut r = String::new();
    r.append(provider.name.as_str());
    r.append("_");
    r.append(event_class.class_name.as_str());
    r.append("_");
    r.append(instance.name.as_str());
    r.append("_tp");
    assert(r@ =~= func_name(provider.name@, event_class.class_name@, instance.name@));
    r
}

/// The wrapper names of a list of sites, in order.
pub open spec fn site_func_names(sites: Seq<EventSite>) -> Seq<Seq<char>> {
    sites.map_values(|s: EventSite| site_func_name(s))
}

/// Every wrapper name generated for a schema, in schema order.
pub open spec fn interface_func_names(ps: Seq<ProviderModel>) -> Seq<Seq<char>> {
    site_func_names(schema_sites(ps))
}

pub proof fn lemma_site_func_names_concat(a: Seq<EventSite>, b: Seq<EventSite>)
    ensures
        site_func_names(a + b) == site_func_names(a) + site_func_names(b),
{
    assert(site_func_names(a + b) =~= site_func_names(a) + site_func_names(b));
}

/// Wrapper names are namespaced by provider: for the same class and instance
/// names, two providers with different names get different wrapper names.
pub proof fn lemma_provider_namespaces_names(
    p1: Seq<char>,
    p2: Seq<char>,
    class_name: Seq<char>,
    instance: Seq<char>,
)
    requires
        p1 != p2,
    ensures
        func_name(p1, class_name, instance) != func_name(p2, class_name, instance),
{
    let tail = "_"@ + class_name + "_"@ + instance + "_tp"@;
    assert(func_name(p1, class_name, instance) =~= p1 + tail);
    assert(func_name(p2, class_name, instance) =~= p2 + tail);
    if p1 + tail == p2 + tail {
        assert((p1 + tail).subrange(0, p1.len() as int) =~= p1);
        assert((p2 + tail).subrange(0, p2.len() as int) =~= p2);
    }
}

} // verus!
