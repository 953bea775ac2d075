//! The resource that describes the service: the one that OpenTelemetry detected, completed with the
//! configured service name and environment.

use crate::config::Config;
use crate::text;
use crate::value::{self, ValueView};
use opentelemetry::{Key, KeyValue};
use opentelemetry_sdk::resource::ResourceBuilder;
use opentelemetry_sdk::Resource;
use vstd::prelude::*;

verus! {

/// The resource of the OpenTelemetry SDK: a collection of attributes, and the URL of a schema.
#[verifier::external_type_specification]
#[verifier::external_body]
pub struct ExOtelResource(opentelemetry_sdk::Resource);

/// The builder of such a resource.
#[verifier::external_type_specification]
#[verifier::external_body]
pub struct ExOtelResourceBuilder(opentelemetry_sdk::resource::ResourceBuilder);

/// The attributes that a resource holds.
pub uninterp spec fn resource_attributes(r: Resource) -> Map<Seq<char>, ValueView>;

/// The schema URL that a resource has.
pub uninterp spec fn resource_schema_url(r: Resource) -> Option<Seq<char>>;

/// The attributes that the resource under construction holds.
pub uninterp spec fn builder_attributes(b: ResourceBuilder) -> Map<Seq<char>, ValueView>;

/// The schema URL that the resource under construction has.
pub uninterp spec fn builder_schema_url(b: ResourceBuilder) -> Option<Seq<char>>;

/// Reads `opentelemetry_semantic_conventions::resource::SERVICE_NAME`.
///
/// Trusted: the key of the service name.
#[verifier::external_body]
pub(crate) fn service_name_key() -> (key: &'static str)
    ensures
        key@ == "service.name"@,
{
    opentelemetry_semantic_conventions::resource::SERVICE_NAME
}

/// Reads `opentelemetry_semantic_conventions::resource::DEPLOYMENT_ENVIRONMENT_NAME`.
///
/// Trusted: the key of the environment.
#[verifier::external_body]
fn environment_key() -> (key: &'static str)
    ensures
        key@ == "deployment.environment.name"@,
{
    opentelemetry_semantic_conventions::resource::DEPLOYMENT_ENVIRONMENT_NAME
}

/// Calls `Resource::get`, and `Value::as_str` on the value that was found.
///
/// Trusted: a value is found where the resource has an attribute with this key, and what is read of it
/// is a function of the value, and as stated where the value holds no double.
#[verifier::external_body]
fn otel_resource_get(r: &Resource, key: &str) -> (found: Option<String>)
    ensures
        match found {
            Some(text) => {
                &&& resource_attributes(*r).dom().contains(key@)
                &&& text@ == value::otel_value_as_str(resource_attributes(*r)[key@])
                &&& value::simple_text(resource_attributes(*r)[key@]) matches Some(simple)
                    ==> text@ == simple
            },
            None => !resource_attributes(*r).dom().contains(key@),
        },
{
    r.get(&Key::new(key.to_string())).map(|v| v.as_str().into_owned())
}

/// Calls `Resource::schema_url`.
///
/// Trusted: the result is the schema URL of the resource, which is never an empty text.
#[verifier::external_body]
fn otel_resource_schema_url(r: &Resource) -> (url: Option<String>)
    ensures
        text::opt_text(url) == resource_schema_url(*r),
        url matches Some(url) ==> url@.len() > 0,
{
    r.schema_url().map(|url| url.to_string())
}

/// Calls `Resource::builder_empty`.
///
/// Trusted: the resource under construction has no attribute and no schema URL.
#[verifier::external_body]
fn otel_builder_empty() -> (b: ResourceBuilder)
    ensures
        builder_attributes(b).dom() == Set::<Seq<char>>::empty(),
        builder_schema_url(b) is None,
{
    Resource::builder_empty()
}

/// Calls `ResourceBuilder::with_schema_url` with the attributes of `base`, on a builder that has no
/// attribute and no schema URL.
///
/// Trusted: the resource under construction then has the attributes of `base` and the schema URL,
/// or none where the text is empty.
#[verifier::external_body]
fn otel_with_schema_url(b: ResourceBuilder, base: &Resource, url: String) -> (result:
    ResourceBuilder)
    requires
        builder_attributes(b).dom() == Set::<Seq<char>>::empty(),
        builder_schema_url(b) is None,
    ensures
        builder_attributes(result) == resource_attributes(*base),
        builder_schema_url(result) == if url@.len() == 0 {
            None
        } else {
            Some(url@)
        },
{
    b.with_schema_url(base.iter().map(|(k, v)| KeyValue::new(k.clone(), v.clone())), url)
}

/// Calls `ResourceBuilder::with_attributes` with the attributes of `base`.
///
/// Trusted: the resource under construction then has these attributes too, in place of those with
/// the same keys. Its schema URL does not change.
#[verifier::external_body]
fn otel_with_attributes_of(b: ResourceBuilder, base: &Resource) -> (result: ResourceBuilder)
    ensures
        builder_attributes(result) == builder_attributes(b).union_prefer_right(
            resource_attributes(*base),
        ),
        builder_schema_url(result) == builder_schema_url(b),
{
    b.with_attributes(base.iter().map(|(k, v)| KeyValue::new(k.clone(), v.clone())))
}

/// Calls `ResourceBuilder::with_attributes` with texts as values.
///
/// Trusted: the resource under construction then has these attributes too, in place of those with
/// the same keys. Of two with one key the last stands. The schema URL does not change.
#[verifier::external_body]
fn otel_with_text_attributes(b: ResourceBuilder, additional: Vec<(String, String)>) -> (result:
    ResourceBuilder)
    ensures
        builder_attributes(result) == with_texts(
            builder_attributes(b),
            text::entries_view(additional@),
        ),
        builder_schema_url(result) == builder_schema_url(b),
{
    b.with_attributes(additional.into_iter().map(|(k, v)| KeyValue::new(k, v)))
}

/// Calls `ResourceBuilder::build`.
///
/// Trusted: the resource has the attributes and the schema URL that were collected.
#[verifier::external_body]
fn otel_build(b: ResourceBuilder) -> (r: Resource)
    ensures
        resource_attributes(r) == builder_attributes(b),
        resource_schema_url(r) == builder_schema_url(b),
{
    b.build()
}

/// A resource with no attribute and no schema URL.
pub fn empty_resource() -> (empty: Resource)
    ensures
        resource_attributes(empty).dom() == Set::<Seq<char>>::empty(),
        resource_schema_url(empty) is None,
{
    otel_build(otel_builder_empty())
}

/// The attributes after these texts were stored, one after the other.
pub open spec fn with_texts(
    attributes: Map<Seq<char>, ValueView>,
    additional: Seq<(Seq<char>, Seq<char>)>,
) -> Map<Seq<char>, ValueView>
    decreases additional.len(),
{
    if additional.len() == 0 {
        attributes
    } else {
        with_texts(attributes, additional.drop_last()).insert(
            additional.last().0,
            ValueView::String(additional.last().1),
        )
    }
}

/// The attributes of a resource that may be missing.
pub open spec fn base_attributes(base: Option<Resource>) -> Map<Seq<char>, ValueView> {
    match base {
        Some(base) => resource_attributes(base),
        None => Map::empty(),
    }
}

/// The schema URL of a resource that may be missing.
pub open spec fn base_schema_url(base: Option<Resource>) -> Option<Seq<char>> {
    match base {
        Some(base) => resource_schema_url(base),
        None => None,
    }
}

/// A resource with the attributes of another one and some more. The attributes that are added
/// replace those with the same keys.
pub fn merge_resource(base: Option<Resource>, additional: Vec<(String, String)>) -> (merged:
    Resource)
    ensures
        resource_attributes(merged) == with_texts(
            base_attributes(base),
            text::entries_view(additional@),
        ),
        resource_schema_url(merged) == base_schema_url(base),
{
    let empty = otel_builder_empty();
    assert(builder_attributes(empty) =~= Map::empty());
    let builder = match &base {
        Some(base) => match otel_resource_schema_url(base) {
            Some(url) => otel_with_schema_url(empty, base, url),
            None => {
                let builder = otel_with_attributes_of(empty, base);
                assert(builder_attributes(builder) =~= resource_attributes(*base));
                builder
            },
        },
        None => empty,
    };
    otel_build(otel_with_text_attributes(builder, additional))
}

/// The key of the service name.
pub open spec fn service_key() -> Seq<char> {
    "service.name"@
}

/// The key of the environment.
pub open spec fn env_key() -> Seq<char> {
    "deployment.environment.name"@
}

/// Whether the configured service name goes into the resource: nobody else gave a name, or it was
/// configured on purpose.
pub open spec fn overrides_service(
    attributes: Map<Seq<char>, ValueView>,
    service_is_default: bool,
) -> bool {
    ||| !attributes.dom().contains(service_key())
    ||| value::str_text(attributes[service_key()]) == "unknown_service"@
    ||| !service_is_default
}

/// The attributes with the configured service name, where it goes in.
pub open spec fn with_service(
    attributes: Map<Seq<char>, ValueView>,
    service: Seq<char>,
    service_is_default: bool,
) -> Map<Seq<char>, ValueView> {
    if overrides_service(attributes, service_is_default) {
        attributes.insert(service_key(), ValueView::String(service))
    } else {
        attributes
    }
}

/// The attributes with the configured environment, unless they have one.
pub open spec fn with_env(
    attributes: Map<Seq<char>, ValueView>,
    env: Option<Seq<char>>,
) -> Map<Seq<char>, ValueView> {
    match env {
        Some(env) if !attributes.dom().contains(env_key()) => attributes.insert(
            env_key(),
            ValueView::String(env),
        ),
        _ => attributes,
    }
}

/// The attributes completed with the configured service name and environment.
pub open spec fn dd_attributes(attributes: Map<Seq<char>, ValueView>, cfg: &Config) -> Map<
    Seq<char>,
    ValueView,
> {
    with_env(
        with_service(attributes, cfg.service@, cfg.service_is_default),
        text::opt_text(cfg.env),
    )
}

/// The two keys differ.
proof fn lemma_keys_differ()
    ensures
        service_key() != env_key(),
{
    reveal_strlit("service.name");
    reveal_strlit("deployment.environment.name");
    assert(service_key().len() != env_key().len());
}

/// The resource completed with the configured service name and environment.
///
/// A service name that was configured stands in the resource. A default one does only where the
/// resource has no name, or `unknown_service`. The environment is added where the resource has
/// none.
pub fn create_dd_resource(resource: Resource, cfg: &Config) -> (completed: Resource)
    ensures
        resource_attributes(completed) == dd_attributes(resource_attributes(resource), cfg),
        resource_schema_url(completed) == resource_schema_url(resource),
{
    let ghost given = resource_attributes(resource);
    proof {
        lemma_keys_differ();
    }
    let mut attributes: Vec<(String, String)> = Vec::new();
    let unnamed = match otel_resource_get(&resource, service_name_key()) {
        Some(name) => text::same_text(name.as_str(), "unknown_service"),
        None => true,
    };
    assert(text::entries_view(attributes@) =~= Seq::empty());
    assert(with_texts(given, Seq::empty()) == given);
    if unnamed || !cfg.service_is_default {
        attributes.push((service_name_key().to_owned(), cfg.service.clone()));
    }
    let ghost first = text::entries_view(attributes@);
    proof {
        if unnamed || !cfg.service_is_default {
            assert(first.drop_last() =~= Seq::empty());
        }
        assert(with_texts(given, first) =~= with_service(
            given,
            cfg.service@,
            cfg.service_is_default,
        ));
    }
    if let Some(env) = &cfg.env {
        if otel_resource_get(&resource, environment_key()).is_none() {
            attributes.push((environment_key().to_owned(), env.clone()));
            assert(text::entries_view(attributes@).drop_last() =~= first);
        }
    }
    assert(with_texts(given, text::entries_view(attributes@)) =~= dd_attributes(given, cfg));
    if attributes.is_empty() {
        resource
    } else {
        merge_resource(Some(resource), attributes)
    }
}

/// The service name of a resource.
pub fn service_name(resource: &Resource) -> (name: Option<String>)
    ensures
        text::opt_text(name) == if resource_attributes(*resource).dom().contains(
            service_key(),
        ) {
            Some(value::str_text(resource_attributes(*resource)[service_key()]))
        } else {
            None
        },
{
    otel_resource_get(resource, service_name_key())
}

/// A completed resource has a service name: the configured one wherever somebody configured it.
pub proof fn law_service_is_named(attributes: Map<Seq<char>, ValueView>, cfg: &Config)
    ensures
        dd_attributes(attributes, cfg).dom().contains(service_key()),
        !cfg.service_is_default ==> dd_attributes(attributes, cfg)[service_key()]
            == ValueView::String(cfg.service@),
        !attributes.dom().contains(service_key()) ==> dd_attributes(attributes, cfg)[service_key()]
            == ValueView::String(cfg.service@),
{
    lemma_keys_differ();
}

/// Completing a resource keeps all of its attributes but the service name.
pub proof fn law_other_attributes_are_kept(
    attributes: Map<Seq<char>, ValueView>,
    cfg: &Config,
    key: Seq<char>,
)
    requires
        attributes.dom().contains(key),
        key != service_key(),
    ensures
        dd_attributes(attributes, cfg).contains_pair(key, attributes[key]),
{
}

/// Completing a resource again changes nothing.
pub proof fn law_completing_is_idempotent(attributes: Map<Seq<char>, ValueView>, cfg: &Config)
    ensures
        dd_attributes(dd_attributes(attributes, cfg), cfg) == dd_attributes(attributes, cfg),
{
    lemma_keys_differ();
    assert(dd_attributes(dd_attributes(attributes, cfg), cfg) =~= dd_attributes(attributes, cfg));
}

/// Where an environment is configured, a completed resource has one under `deployment.environment.name`:
/// its own, or else the configured one, whatever becomes of the service name. Where none is
/// configured, the resource has the environment that it had, or none.
pub proof fn law_environment_is_completed(attributes: Map<Seq<char>, ValueView>, cfg: &Config)
    ensures
        ({
            let key = "deployment.environment.name"@;
            let completed = dd_attributes(attributes, cfg);
            match cfg.env {
                Some(env) => {
                    &&& completed.dom().contains(key)
                    &&& completed[key] == if attributes.dom().contains(key) {
                        attributes[key]
                    } else {
                        ValueView::String(env@)
                    }
                },
                None => {
                    &&& completed.dom().contains(key) == attributes.dom().contains(key)
                    &&& attributes.dom().contains(key) ==> completed[key] == attributes[key]
                },
            }
        }),
{
    lemma_keys_differ();
}

/// The name under `service.name` of a completed resource: the configured one where somebody configured
/// it and where the resource has no name or `unknown_service`, and its own name otherwise.
pub proof fn law_whose_name_stands(attributes: Map<Seq<char>, ValueView>, cfg: &Config)
    ensures
        ({
            let key = "service.name"@;
            let completed = dd_attributes(attributes, cfg);
            let named = attributes.dom().contains(key) && value::str_text(attributes[key])
                != "unknown_service"@;
            &&& completed.dom().contains(key)
            &&& completed[key] == if named && cfg.service_is_default {
                attributes[key]
            } else {
                ValueView::String(cfg.service@)
            }
        }),
        ({
            let key = "service.name"@;
            attributes.contains_pair(key, ValueView::String("unknown_service"@)) ==> dd_attributes(
                attributes,
                cfg,
            )[key] == ValueView::String(cfg.service@)
        }),
{
    lemma_keys_differ();
}

/// Completing a resource touches the service name and the environment and no other attribute: it adds
/// none, drops none and changes none.
pub proof fn law_no_other_attribute_changes(
    attributes: Map<Seq<char>, ValueView>,
    cfg: &Config,
    key: Seq<char>,
)
    requires
        key != "service.name"@,
        key != "deployment.environment.name"@,
    ensures
        dd_attributes(attributes, cfg).dom().contains(key) == attributes.dom().contains(key),
        attributes.dom().contains(key) ==> dd_attributes(attributes, cfg)[key] == attributes[key],
{
}

/// The service name and the environment that are configured do not depend on each other: two
/// configurations with one environment give the same environment, and two with one service name the
/// same service name.
pub proof fn law_name_and_environment_are_independent(
    attributes: Map<Seq<char>, ValueView>,
    cfg: &Config,
    other: &Config,
)
    ensures
        text::opt_text(cfg.env) == text::opt_text(other.env) ==> {
            let key = "deployment.environment.name"@;
            let (a, b) = (dd_attributes(attributes, cfg), dd_attributes(attributes, other));
            &&& a.dom().contains(key) == b.dom().contains(key)
            &&& a.dom().contains(key) ==> a[key] == b[key]
        },
        cfg.service@ == other.service@ && cfg.service_is_default == other.service_is_default ==> {
            let key = "service.name"@;
            dd_attributes(attributes, cfg)[key] == dd_attributes(attributes, other)[key]
        },
{
    lemma_keys_differ();
}

/// Of the texts that are added to a resource, the last one with a key stands under that key, and an
/// attribute whose key none of them has stays as it was.
pub proof fn law_last_text_stands(
    attributes: Map<Seq<char>, ValueView>,
    additional: Seq<(Seq<char>, Seq<char>)>,
    key: Seq<char>,
    last: int,
)
    requires
        -1 <= last < additional.len(),
        last >= 0 ==> additional[last].0 == key,
        forall|i: int| last < i < additional.len() ==> (#[trigger] additional[i]).0 != key,
    ensures
        ({
            let merged = with_texts(attributes, additional);
            if last >= 0 {
                merged.contains_pair(key, ValueView::String(additional[last].1))
            } else {
                &&& merged.dom().contains(key) == attributes.dom().contains(key)
                &&& attributes.dom().contains(key) ==> merged[key] == attributes[key]
            }
        }),
    decreases additional.len(),
{
    if additional.len() > 0 && last < additional.len() - 1 {
        assert(additional[additional.len() - 1].0 != key);
        law_last_text_stands(attributes, additional.drop_last(), key, last);
    }
}

} // verus!
