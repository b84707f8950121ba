use vstd::prelude::*;

use crate::ctf::CTFType;

verus! {

/// A named, typed field of an event class.
#[derive(Clone, Debug)]
pub struct Field {
    pub name: String,
    pub ctf_type: CTFType,
}

/// One named emission point of an event class.
#[derive(Clone, Debug)]
pub struct EventInstance {
    pub name: String,
}

/// A field layout shared by one or more event instances.
#[derive(Clone, Debug)]
pub struct EventClass {
    pub class_name: String,
    pub fields: Vec<Field>,
    pub instances: Vec<EventInstance>,
}

/// A named group of event classes.
#[derive(Clone, Debug)]
pub struct Provider {
    pub name: String,
    pub classes: Vec<EventClass>,
}

/// A field as the generator sees it.
pub ghost struct FieldModel {
    pub name: Seq<char>,
    pub ctf_type: CTFType,
}

/// An event class as the generator sees it.
pub ghost struct ClassModel {
    pub class_name: Seq<char>,
    pub fields: Seq<FieldModel>,
    /// The instance names, in order.
    pub instances: Seq<Seq<char>>,
}

/// A provider as the generator sees it.
pub ghost struct ProviderModel {
    pub name: Seq<char>,
    pub classes: Seq<ClassModel>,
}

/// One (provider, event class, event instance) triple of a schema: everything
/// that a generated wrapper function depends on.
pub ghost struct EventSite {
    pub provider: Seq<char>,
    pub class_name: Seq<char>,
    pub fields: Seq<FieldModel>,
    pub instance: Seq<char>,
}

impl View for Field {
    type V = FieldModel;

    open spec fn view(&self) -> FieldModel {
        FieldModel { name: self.name@, ctf_type: self.ctf_type }
    }
}

impl View for EventInstance {
    type V = Seq<char>;

    open spec fn view(&self) -> Seq<char> {
        self.name@
    }
}

impl View for EventClass {
    type V = ClassModel;

    open spec fn view(&self) -> ClassModel {
        ClassModel {
            class_name: self.class_name@,
            fields: fields_model(self.fields@),
            instances: self.instances@.map_values(|i: EventInstance| i@),
        }
    }
}

impl View for Provider {
    type V = ProviderModel;

    open spec fn view(&self) -> ProviderModel {
        ProviderModel {
            name: self.name@,
            classes: self.classes@.map_values(|c: EventClass| c@),
        }
    }
}

pub open spec fn fields_model(fields: Seq<Field>) -> Seq<FieldModel> {
    fields.map_values(|f: Field| f@)
}

pub open spec fn schema_model(providers: Seq<Provider>) -> Seq<ProviderModel> {
    providers.map_values(|p: Provider| p@)
}

/// The sites of one class, in instance order.
pub open spec fn class_sites(provider: Seq<char>, c: ClassModel) -> Seq<EventSite> {
    c.instances.map_values(
        |i: Seq<char>|
            EventSite { provider, class_name: c.class_name, fields: c.fields, instance: i },
    )
}

/// The sites of one provider, class by class.
pub open spec fn provider_sites(p: ProviderModel) -> Seq<EventSite> {
    sites_of_classes(p.name, p.classes)
}

/// Every site of a schema, in schema order: provider, then class, then instance.
pub open spec fn schema_sites(ps: Seq<ProviderModel>) -> Seq<EventSite> {
    ps.map_values(|p: ProviderModel| provider_sites(p)).flatten()
}

/// The sites of a list of classes of one provider.
pub open spec fn sites_of_classes(provider: Seq<char>, cs: Seq<ClassModel>) -> Seq<EventSite> {
    cs.map_values(|c: ClassModel| class_sites(provider, c)).flatten()
}

pub proof fn lemma_sites_of_classes_push(provider: Seq<char>, cs: Seq<ClassModel>, c: ClassModel)
    ensures
        sites_of_classes(provider, cs.push(c)) == sites_of_classes(provider, cs) + class_sites(
            provider,
            c,
        ),
{
    let g = |x: ClassModel| class_sites(provider, x);
    assert(cs.push(c).map_values(g) =~= cs.map_values(g).push(class_sites(provider, c)));
    cs.map_values(g).lemma_flatten_push(class_sites(provider, c));
}

pub proof fn lemma_schema_sites_push(ps: Seq<ProviderModel>, p: ProviderModel)
    ensures
        schema_sites(ps.push(p)) == schema_sites(ps) + provider_sites(p),
{
    let g = |x: ProviderModel| provider_sites(x);
    assert(ps.push(p).map_values(g) =~= ps.map_values(g).push(provider_sites(p)));
    ps.map_values(g).lemma_flatten_push(provider_sites(p));
}

} // verus!
