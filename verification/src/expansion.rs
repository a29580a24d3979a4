//! Expansion of a newtype declaration into the code units that realize it.
use vstd::prelude::*;
use crate::expansion::capability::adding_twice_is_adding_once;
use crate::expansion::capability::capability_named;
use crate::expansion::capability::Capability;
use crate::expansion::capability::CapabilitySet;
use crate::expansion::declaration::attribute_fault;
use crate::expansion::declaration::declared;
use crate::expansion::declaration::first_fault;
use crate::expansion::declaration::grant_all;
use crate::expansion::declaration::granted;
use crate::expansion::declaration::is_newtype_shape;
use crate::expansion::declaration::key_named;
use crate::expansion::declaration::lemma_unknown_upgrade_is_first;
use crate::expansion::declaration::pipeline;
use crate::expansion::declaration::unknown_upgrade;
use crate::expansion::declaration::AttributeView;
use crate::expansion::declaration::Declaration;
use crate::expansion::declaration::ExpansionError;
use crate::expansion::declaration::FieldsView;
use crate::expansion::declaration::Key;
use crate::expansion::declaration::Request;
use crate::expansion::declaration::RequestView;
use crate::expansion::plan::expand;
use crate::expansion::plan::planned;
use crate::expansion::plan::PlanView;
use crate::expansion::render::render;
use crate::expansion::render::rendered;

pub mod capability;
pub mod declaration;
pub mod plan;
pub mod render;
pub mod text;

verus! {

/// The plan that `request` leads to, or the reason why it leads to none.
pub open spec fn planned_for(request: RequestView) -> Result<PlanView, ExpansionError> {
    match declared(request) {
        Ok(declaration) => planned(declaration),
        Err(error) => Err(error),
    }
}

/// The source text that `request` leads to, or the reason why it leads to none.
pub open spec fn generated(request: RequestView) -> Result<Seq<char>, ExpansionError> {
    match declared(request) {
        Ok(declaration) => match planned(declaration) {
            Ok(plan) => Ok(rendered(plan, declaration)),
            Err(error) => Err(error),
        },
        Err(error) => Err(error),
    }
}

/// Expands one annotated type: admits the request, plans it and renders the plan.
///
/// No text comes back on an error.
pub fn seventy(request: &Request) -> (outcome: Result<String, ExpansionError>)
    ensures
        match outcome {
            Ok(text) => generated(request@) == Ok::<Seq<char>, ExpansionError>(text@),
            Err(error) => generated(request@) == Err::<Seq<char>, ExpansionError>(error),
        },
{
    let declaration = match Declaration::parse(request) {
        Ok(declaration) => declaration,
        Err(error) => {
            return Err(error);
        },
    };
    match expand(&declaration) {
        Ok(plan) => Ok(render(plan, &declaration)),
        Err(error) => Err(error),
    }
}

/// A type that is not one unnamed field has no expansion, whatever its attribute says.
pub proof fn wrong_shape_is_refused(request: RequestView)
    requires
        !is_newtype_shape(request.fields),
    ensures
        declared(request) is Err,
        planned_for(request) == Err::<PlanView, ExpansionError>(ExpansionError::ShapeError),
        generated(request) == Err::<Seq<char>, ExpansionError>(ExpansionError::ShapeError),
{
}

/// No unnamed field, or two or more, is a wrong shape.
pub proof fn field_count_is_enforced(request: RequestView, types: Seq<Seq<char>>)
    requires
        request.fields == FieldsView::Unnamed(types),
        types.len() != 1,
    ensures
        generated(request) == Err::<Seq<char>, ExpansionError>(ExpansionError::ShapeError),
{
}

/// `request` with the name at `upgrade` of its entry `attribute` written once more,
/// at the end of that entry.
pub open spec fn with_repeated_upgrade(request: RequestView, attribute: int, upgrade: int) -> RequestView {
    let entry = request.attributes[attribute];
    RequestView {
        attributes: request.attributes.update(
            attribute,
            AttributeView { key: entry.key, arguments: entry.arguments.push(entry.arguments[upgrade]) },
        ),
        ..request
    }
}

/// A name written once more, behind names that hold it already, changes nothing
/// in what is granted or in which name is found unknown.
pub proof fn lemma_repeated_name(set: CapabilitySet, names: Seq<Seq<char>>, upgrade: int)
    requires
        0 <= upgrade < names.len(),
    ensures
        unknown_upgrade(names.push(names[upgrade])) == unknown_upgrade(names),
        grant_all(set, names.push(names[upgrade])) == grant_all(set, names),
{
    let name = names[upgrade];
    assert(names.push(name).drop_last() == names);
    assert(names.push(name).last() == name);
    lemma_unknown_upgrade_is_first(names);
    match capability_named(name) {
        Some(capability) => {
            lemma_granted_name(set, names, upgrade);
            adding_twice_is_adding_once(grant_all(set, names), capability);
        },
        None => {},
    }
}

/// A capability that one of `names` names is in what `names` grants.
pub proof fn lemma_granted_name(set: CapabilitySet, names: Seq<Seq<char>>, upgrade: int)
    requires
        0 <= upgrade < names.len(),
        capability_named(names[upgrade]) is Some,
    ensures
        grant_all(set, names).has(capability_named(names[upgrade])->Some_0),
    decreases names.len(),
{
    if upgrade < names.len() - 1 {
        assert(names.drop_last()[upgrade] == names[upgrade]);
        lemma_granted_name(set, names.drop_last(), upgrade);
    }
}

/// Two attribute lists that differ in one `upgrades` entry, where the one holds
/// the other's names and one of them again, are judged alike.
pub proof fn lemma_repeated_upgrade(
    attributes: Seq<AttributeView>,
    attribute: int,
    upgrade: int,
    length: int,
)
    requires
        0 <= attribute < attributes.len(),
        0 <= upgrade < attributes[attribute].arguments.len(),
        key_named(attributes[attribute].key) == Some(Key::Upgrades),
        0 <= length <= attributes.len(),
    ensures
        ({
            let entry = attributes[attribute];
            let repeated = attributes.update(
                attribute,
                AttributeView {
                    key: entry.key,
                    arguments: entry.arguments.push(entry.arguments[upgrade]),
                },
            );
            &&& first_fault(repeated.take(length)) == first_fault(attributes.take(length))
            &&& granted(repeated.take(length)) == granted(attributes.take(length))
            &&& pipeline(repeated.take(length), Key::Sanitize) == pipeline(
                attributes.take(length),
                Key::Sanitize,
            )
            &&& pipeline(repeated.take(length), Key::Validate) == pipeline(
                attributes.take(length),
                Key::Validate,
            )
        }),
    decreases length,
{
    let entry = attributes[attribute];
    let again = AttributeView {
        key: entry.key,
        arguments: entry.arguments.push(entry.arguments[upgrade]),
    };
    let repeated = attributes.update(attribute, again);
    if length > 0 {
        lemma_repeated_upgrade(attributes, attribute, upgrade, length - 1);
        assert(repeated.take(length).drop_last() == repeated.take(length - 1));
        assert(attributes.take(length).drop_last() == attributes.take(length - 1));
        if length - 1 == attribute {
            assert(repeated.take(length).last() == again);
            assert(attributes.take(length).last() == entry);
            lemma_repeated_name(
                granted(attributes.take(length - 1)),
                entry.arguments,
                upgrade,
            );
        } else {
            assert(repeated.take(length).last() == attributes.take(length).last());
        }
    }
}

/// Asking for a capability twice leads to the plan, and to the text, that
/// asking for it once leads to.
pub proof fn repeated_capability_changes_nothing(request: RequestView, attribute: int, upgrade: int)
    requires
        0 <= attribute < request.attributes.len(),
        0 <= upgrade < request.attributes[attribute].arguments.len(),
        key_named(request.attributes[attribute].key) == Some(Key::Upgrades),
    ensures
        declared(with_repeated_upgrade(request, attribute, upgrade)) == declared(request),
        planned_for(with_repeated_upgrade(request, attribute, upgrade)) == planned_for(request),
        generated(with_repeated_upgrade(request, attribute, upgrade)) == generated(request),
{
    let repeated = with_repeated_upgrade(request, attribute, upgrade);
    lemma_repeated_upgrade(request.attributes, attribute, upgrade, request.attributes.len() as int);
    assert(request.attributes.take(request.attributes.len() as int) == request.attributes);
    assert(repeated.attributes.take(repeated.attributes.len() as int) == repeated.attributes);
}

/// `request` with one more `upgrades` entry at the end, which asks once more
/// for the name at `upgrade` of its entry `attribute`.
pub open spec fn with_upgrade_asked_again(request: RequestView, attribute: int, upgrade: int) -> RequestView {
    let entry = request.attributes[attribute];
    RequestView {
        attributes: request.attributes.push(
            AttributeView { key: entry.key, arguments: seq![entry.arguments[upgrade]] },
        ),
        ..request
    }
}

/// A capability that an `upgrades` entry names is among those that the whole list grants.
pub proof fn lemma_granted_capability(attributes: Seq<AttributeView>, attribute: int, upgrade: int)
    requires
        0 <= attribute < attributes.len(),
        0 <= upgrade < attributes[attribute].arguments.len(),
        key_named(attributes[attribute].key) == Some(Key::Upgrades),
        capability_named(attributes[attribute].arguments[upgrade]) is Some,
    ensures
        granted(attributes).has(
            capability_named(attributes[attribute].arguments[upgrade])->Some_0,
        ),
    decreases attributes.len(),
{
    let capability = capability_named(attributes[attribute].arguments[upgrade])->Some_0;
    let before = granted(attributes.drop_last());
    if attribute < attributes.len() - 1 {
        assert(attributes.drop_last()[attribute] == attributes[attribute]);
        lemma_granted_capability(attributes.drop_last(), attribute, upgrade);
        if key_named(attributes.last().key) == Some(Key::Upgrades) {
            lemma_grants_keep(before, attributes.last().arguments, capability);
        }
    } else {
        lemma_granted_name(before, attributes.last().arguments, upgrade);
    }
}

/// What a set holds, it still holds after more has been granted.
pub proof fn lemma_grants_keep(set: CapabilitySet, names: Seq<Seq<char>>, capability: Capability)
    requires
        set.has(capability),
    ensures
        grant_all(set, names).has(capability),
    decreases names.len(),
{
    if names.len() > 0 {
        lemma_grants_keep(set, names.drop_last(), capability);
    }
}

/// Asking for a capability once more, in an entry of its own behind all
/// others, leads to the plan, and to the text, that asking for it once leads to.
pub proof fn capability_asked_again_changes_nothing(request: RequestView, attribute: int, upgrade: int)
    requires
        0 <= attribute < request.attributes.len(),
        0 <= upgrade < request.attributes[attribute].arguments.len(),
        key_named(request.attributes[attribute].key) == Some(Key::Upgrades),
    ensures
        declared(with_upgrade_asked_again(request, attribute, upgrade)) == declared(request),
        planned_for(with_upgrade_asked_again(request, attribute, upgrade)) == planned_for(request),
        generated(with_upgrade_asked_again(request, attribute, upgrade)) == generated(request),
{
    let entry = request.attributes[attribute];
    let name = entry.arguments[upgrade];
    let again = AttributeView { key: entry.key, arguments: seq![name] };
    let longer = request.attributes.push(again);
    assert(longer.drop_last() == request.attributes);
    assert(longer.last() == again);
    let none = Seq::<Seq<char>>::empty();
    assert(again.arguments.drop_last() == none);
    assert(again.arguments.last() == name);
    assert(unknown_upgrade(none) is None);
    assert(grant_all(granted(request.attributes), none) == granted(request.attributes));
    match capability_named(name) {
        Some(capability) => {
            lemma_granted_capability(request.attributes, attribute, upgrade);
            adding_twice_is_adding_once(granted(request.attributes), capability);
            assert(unknown_upgrade(again.arguments) is None);
            assert(attribute_fault(again) is None);
        },
        None => {
            lemma_unknown_upgrade_is_first(entry.arguments);
            lemma_faulty_entry(request.attributes, attribute);
        },
    }
}

/// A list with a faulty entry has a first fault.
pub proof fn lemma_faulty_entry(attributes: Seq<AttributeView>, attribute: int)
    requires
        0 <= attribute < attributes.len(),
        attribute_fault(attributes[attribute]) is Some,
    ensures
        first_fault(attributes) is Some,
    decreases attributes.len(),
{
    if attribute < attributes.len() - 1 {
        assert(attributes.drop_last()[attribute] == attributes[attribute]);
        lemma_faulty_entry(attributes.drop_last(), attribute);
    }
}

} // verus!
