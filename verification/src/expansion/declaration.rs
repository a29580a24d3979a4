//! The structured form of one newtype declaration, and the checks that admit it.
use vstd::prelude::*;
use vstd::string::StringExecFns;
use crate::expansion::capability::Capability;
use crate::expansion::capability::CapabilitySet;
use crate::expansion::capability::capability_named;

verus! {

/// The views of a sequence of strings.
pub open spec fn texts(strings: Seq<String>) -> Seq<Seq<char>> {
    strings.map_values(|s: String| s@)
}

/// What kind of generic parameter a declaration carries.
#[derive(Clone, Copy, PartialEq, Eq, Structural, Debug)]
pub enum ParamKind {
    Lifetime,
    Type,
    Const,
}

/// One generic parameter of the declared type.
///
/// `name` is the parameter as it is used (`'a`, `T`, `N`). `bounds` is what
/// follows the colon where it is declared: the bounds of a lifetime or type
/// parameter, the type of a const parameter. It is empty when there is none.
#[derive(Debug)]
pub struct GenericParam {
    pub kind: ParamKind,
    pub name: String,
    pub bounds: String,
}

impl Clone for GenericParam {
    fn clone(&self) -> (copy: GenericParam)
        ensures
            copy == *self,
    {
        GenericParam { kind: self.kind, name: self.name.clone(), bounds: self.bounds.clone() }
    }
}

/// A generic parameter as contracts see it.
pub struct GenericParamView {
    pub kind: ParamKind,
    pub name: Seq<char>,
    pub bounds: Seq<char>,
}

impl View for GenericParam {
    type V = GenericParamView;

    open spec fn view(&self) -> GenericParamView {
        GenericParamView { kind: self.kind, name: self.name@, bounds: self.bounds@ }
    }
}

/// The views of a sequence of generic parameters.
pub open spec fn params(generics: Seq<GenericParam>) -> Seq<GenericParamView> {
    generics.map_values(|p: GenericParam| p@)
}

/// The fields of the annotated type, each given by the text of its type.
#[derive(Debug)]
pub enum Fields {
    Unit,
    Named(Vec<String>),
    Unnamed(Vec<String>),
}

/// The fields of the annotated type as contracts see them.
pub enum FieldsView {
    Unit,
    Named(Seq<Seq<char>>),
    Unnamed(Seq<Seq<char>>),
}

impl View for Fields {
    type V = FieldsView;

    open spec fn view(&self) -> FieldsView {
        match self {
            Fields::Unit => FieldsView::Unit,
            Fields::Named(types) => FieldsView::Named(texts(types@)),
            Fields::Unnamed(types) => FieldsView::Unnamed(texts(types@)),
        }
    }
}

/// One top-level entry of the attribute: a key and its comma-separated arguments.
#[derive(Debug)]
pub struct Attribute {
    pub key: String,
    pub arguments: Vec<String>,
}

/// An attribute entry as contracts see it.
pub struct AttributeView {
    pub key: Seq<char>,
    pub arguments: Seq<Seq<char>>,
}

impl View for Attribute {
    type V = AttributeView;

    open spec fn view(&self) -> AttributeView {
        AttributeView { key: self.key@, arguments: texts(self.arguments@) }
    }
}

/// The views of a sequence of attribute entries.
pub open spec fn entries(attributes: Seq<Attribute>) -> Seq<AttributeView> {
    attributes.map_values(|a: Attribute| a@)
}

/// What the parser hands over: the annotated type's shape and the attribute's content.
#[derive(Debug)]
pub struct Request {
    pub identifier: String,
    pub generics: Vec<GenericParam>,
    pub where_clause: String,
    pub fields: Fields,
    pub attributes: Vec<Attribute>,
    pub item: String,
}

/// A request as contracts see it.
pub struct RequestView {
    pub identifier: Seq<char>,
    pub generics: Seq<GenericParamView>,
    pub where_clause: Seq<char>,
    pub fields: FieldsView,
    pub attributes: Seq<AttributeView>,
    pub item: Seq<char>,
}

impl View for Request {
    type V = RequestView;

    open spec fn view(&self) -> RequestView {
        RequestView {
            identifier: self.identifier@,
            generics: params(self.generics@),
            where_clause: self.where_clause@,
            fields: self.fields@,
            attributes: entries(self.attributes@),
            item: self.item@,
        }
    }
}

/// One admitted newtype declaration.
#[derive(Debug)]
pub struct Declaration {
    pub identifier: String,
    pub generics: Vec<GenericParam>,
    pub where_clause: String,
    pub inner: String,
    pub capabilities: CapabilitySet,
    pub sanitizers: Vec<String>,
    pub validators: Vec<String>,
    pub item: String,
}

/// A declaration as contracts see it.
pub struct DeclarationView {
    pub identifier: Seq<char>,
    pub generics: Seq<GenericParamView>,
    pub where_clause: Seq<char>,
    pub inner: Seq<char>,
    pub capabilities: CapabilitySet,
    pub sanitizers: Seq<Seq<char>>,
    pub validators: Seq<Seq<char>>,
    pub item: Seq<char>,
}

impl View for Declaration {
    type V = DeclarationView;

    open spec fn view(&self) -> DeclarationView {
        DeclarationView {
            identifier: self.identifier@,
            generics: params(self.generics@),
            where_clause: self.where_clause@,
            inner: self.inner@,
            capabilities: self.capabilities,
            sanitizers: texts(self.sanitizers@),
            validators: texts(self.validators@),
            item: self.item@,
        }
    }
}

/// Why a declaration yields no plan.
#[derive(Clone, Copy, PartialEq, Eq, Structural, Debug)]
pub enum ExpansionError {
    /// The annotated type is not one unnamed field.
    ShapeError,
    /// The attribute entry at this position has a key outside the closed set.
    UnrecognizedAttributeError { attribute: usize },
    /// The entry at `attribute` asks, at `upgrade`, for a name outside the vocabulary.
    UnrecognizedCapabilityError { attribute: usize, upgrade: usize },
    /// A generic type with a pipeline asks for storage shared by all instances.
    GenericStaticConflictError,
}

/// What is reported for `error`.
pub open spec fn error_message(error: ExpansionError) -> Seq<char> {
    match error {
        ExpansionError::ShapeError => "expected a newtype"@,
        ExpansionError::UnrecognizedAttributeError { .. } => "unrecognized attribute"@,
        ExpansionError::UnrecognizedCapabilityError { .. } => "unrecognized upgrade"@,
        ExpansionError::GenericStaticConflictError =>
            "shared sanitizers and validators cannot depend on generic parameters: add the `independent` upgrade"@,
    }
}

impl ExpansionError {
    /// What is reported for this error.
    pub fn message(&self) -> (text: &'static str)
        ensures
            text@ == error_message(*self),
    {
        match self {
            ExpansionError::ShapeError => "expected a newtype",
            ExpansionError::UnrecognizedAttributeError { .. } => "unrecognized attribute",
            ExpansionError::UnrecognizedCapabilityError { .. } => "unrecognized upgrade",
            ExpansionError::GenericStaticConflictError =>
                "shared sanitizers and validators cannot depend on generic parameters: add the `independent` upgrade",
        }
    }
}

/// The keys an attribute entry may have.
#[derive(Clone, Copy, PartialEq, Eq, Structural, Debug)]
pub enum Key {
    Upgrades,
    Sanitize,
    Validate,
}

/// The key that `text` spells, if it spells one.
pub open spec fn key_named(text: Seq<char>) -> Option<Key> {
    if text == "upgrades"@ {
        Some(Key::Upgrades)
    } else if text == "sanitize"@ {
        Some(Key::Sanitize)
    } else if text == "validate"@ {
        Some(Key::Validate)
    } else {
        None
    }
}

/// Whether the annotated type wraps exactly one unnamed field.
pub open spec fn is_newtype_shape(fields: FieldsView) -> bool {
    fields matches FieldsView::Unnamed(types) && types.len() == 1
}

/// The position of the first name in `names` that is no capability.
pub open spec fn unknown_upgrade(names: Seq<Seq<char>>) -> Option<int>
    decreases names.len(),
{
    if names.len() == 0 {
        None
    } else {
        match unknown_upgrade(names.drop_last()) {
            Some(position) => Some(position),
            None => if capability_named(names.last()) is None {
                Some(names.len() - 1)
            } else {
                None
            },
        }
    }
}

/// What is wrong with one attribute entry.
pub enum Fault {
    UnknownKey,
    UnknownUpgrade(int),
}

/// What is wrong with `attribute`, if anything.
pub open spec fn attribute_fault(attribute: AttributeView) -> Option<Fault> {
    match key_named(attribute.key) {
        None => Some(Fault::UnknownKey),
        Some(Key::Upgrades) => match unknown_upgrade(attribute.arguments) {
            Some(position) => Some(Fault::UnknownUpgrade(position)),
            None => None,
        },
        Some(_) => None,
    }
}

/// The first entry of `attributes` with a fault, and the fault.
pub open spec fn first_fault(attributes: Seq<AttributeView>) -> Option<(int, Fault)>
    decreases attributes.len(),
{
    if attributes.len() == 0 {
        None
    } else {
        match first_fault(attributes.drop_last()) {
            Some(found) => Some(found),
            None => match attribute_fault(attributes.last()) {
                Some(fault) => Some((attributes.len() - 1, fault)),
                None => None,
            },
        }
    }
}

/// `set` with every capability that `names` names.
pub open spec fn grant_all(set: CapabilitySet, names: Seq<Seq<char>>) -> CapabilitySet
    decreases names.len(),
{
    if names.len() == 0 {
        set
    } else {
        let before = grant_all(set, names.drop_last());
        match capability_named(names.last()) {
            Some(capability) => before.with(capability),
            None => before,
        }
    }
}

/// The capabilities that the `upgrades` entries of `attributes` ask for.
pub open spec fn granted(attributes: Seq<AttributeView>) -> CapabilitySet
    decreases attributes.len(),
{
    if attributes.len() == 0 {
        CapabilitySet::nothing()
    } else {
        let before = granted(attributes.drop_last());
        if key_named(attributes.last().key) == Some(Key::Upgrades) {
            grant_all(before, attributes.last().arguments)
        } else {
            before
        }
    }
}

/// The steps of the last entry of `attributes` under `key`; none where there is no such entry.
pub open spec fn pipeline(attributes: Seq<AttributeView>, key: Key) -> Seq<Seq<char>>
    decreases attributes.len(),
{
    if attributes.len() == 0 {
        Seq::empty()
    } else if key_named(attributes.last().key) == Some(key) {
        attributes.last().arguments
    } else {
        pipeline(attributes.drop_last(), key)
    }
}

/// The error that stands for a fault found at entry `position`.
pub open spec fn fault_error(position: int, fault: Fault) -> ExpansionError {
    match fault {
        Fault::UnknownKey => ExpansionError::UnrecognizedAttributeError {
            attribute: position as usize,
        },
        Fault::UnknownUpgrade(upgrade) => ExpansionError::UnrecognizedCapabilityError {
            attribute: position as usize,
            upgrade: upgrade as usize,
        },
    }
}

/// The declaration that `request` makes, or the reason why it makes none.
///
/// The shape is judged first, then the entries from left to right.
pub open spec fn declared(request: RequestView) -> Result<DeclarationView, ExpansionError> {
    if !is_newtype_shape(request.fields) {
        Err(ExpansionError::ShapeError)
    } else {
        match first_fault(request.attributes) {
            Some((position, fault)) => Err(fault_error(position, fault)),
            None => Ok(
                DeclarationView {
                    identifier: request.identifier,
                    generics: request.generics,
                    where_clause: request.where_clause,
                    inner: request.fields->Unnamed_0[0],
                    capabilities: granted(request.attributes),
                    sanitizers: pipeline(request.attributes, Key::Sanitize),
                    validators: pipeline(request.attributes, Key::Validate),
                    item: request.item,
                },
            ),
        }
    }
}

impl Key {
    /// Reads the key of an attribute entry.
    pub fn from_name(text: &str) -> (key: Option<Key>)
        ensures
            key == key_named(text@),
    {
        let text = String::from_str(text);
        let text = &text;
        if *text == String::from_str("upgrades") {
            Some(Key::Upgrades)
        } else if *text == String::from_str("sanitize") {
            Some(Key::Sanitize)
        } else if *text == String::from_str("validate") {
            Some(Key::Validate)
        } else {
            None
        }
    }
}

/// Adds to `set` the capabilities that `names` names, up to the first name that is none.
///
/// Returns the position of that name, if there is one.
pub fn grant_upgrades(set: &mut CapabilitySet, names: &Vec<String>) -> (unknown: Option<usize>)
    ensures
        match unknown {
            Some(position) => unknown_upgrade(texts(names@)) == Some(position as int),
            None => unknown_upgrade(texts(names@)) is None && *final(set) == grant_all(
                *old(set),
                texts(names@),
            ),
        },
{
    let ghost all = texts(names@);
    let mut i: usize = 0;
    while i < names.len()
        invariant
            i <= names.len(),
            all == texts(names@),
            unknown_upgrade(all.take(i as int)) is None,
            *set == grant_all(*old(set), all.take(i as int)),
        decreases names.len() - i,
    {
        proof {
            assert(all.take(i + 1).drop_last() == all.take(i as int));
            assert(all.take(i + 1).last() == names@[i as int]@);
        }
        match Capability::from_name(names[i].as_str()) {
            Some(capability) => {
                set.insert(capability);
            },
            None => {
                proof {
                    lemma_unknown_upgrade_is_stable(all, i + 1);
                }
                return Some(i);
            },
        }
        i += 1;
    }
    proof {
        assert(all.take(i as int) == all);
    }
    None
}

/// A name found unknown in a prefix is the one found in the whole.
pub proof fn lemma_unknown_upgrade_is_stable(names: Seq<Seq<char>>, length: int)
    requires
        0 <= length <= names.len(),
        unknown_upgrade(names.take(length)) is Some,
    ensures
        unknown_upgrade(names) == unknown_upgrade(names.take(length)),
    decreases names.len(),
{
    if length < names.len() {
        let shorter = names.drop_last();
        assert(shorter.take(length) == names.take(length));
        lemma_unknown_upgrade_is_stable(shorter, length);
    } else {
        assert(names.take(length) == names);
    }
}

/// A fault found in a prefix is the one found in the whole.
pub proof fn lemma_first_fault_is_stable(attributes: Seq<AttributeView>, length: int)
    requires
        0 <= length <= attributes.len(),
        first_fault(attributes.take(length)) is Some,
    ensures
        first_fault(attributes) == first_fault(attributes.take(length)),
    decreases attributes.len(),
{
    if length < attributes.len() {
        let shorter = attributes.drop_last();
        assert(shorter.take(length) == attributes.take(length));
        lemma_first_fault_is_stable(shorter, length);
    } else {
        assert(attributes.take(length) == attributes);
    }
}

/// The first unknown name is unknown, and every name before it is a capability.
pub proof fn lemma_unknown_upgrade_is_first(names: Seq<Seq<char>>)
    ensures
        match unknown_upgrade(names) {
            Some(position) => {
                &&& 0 <= position < names.len()
                &&& capability_named(names[position]) is None
                &&& forall|earlier: int|
                    0 <= earlier < position ==> capability_named(#[trigger] names[earlier]) is Some
            },
            None => forall|any: int|
                0 <= any < names.len() ==> capability_named(#[trigger] names[any]) is Some,
        },
    decreases names.len(),
{
    if names.len() > 0 {
        lemma_unknown_upgrade_is_first(names.drop_last());
        assert forall|any: int| 0 <= any < names.len() - 1 implies names.drop_last()[any]
            == names[any] by {}
        match unknown_upgrade(names.drop_last()) {
            Some(position) => {
                assert(names.drop_last()[position] == names[position]);
                assert forall|earlier: int| 0 <= earlier < position implies capability_named(
                    #[trigger] names[earlier],
                ) is Some by {
                    assert(names.drop_last()[earlier] == names[earlier]);
                }
            },
            None => {
                assert forall|earlier: int| 0 <= earlier < names.len() - 1 implies capability_named(
                    #[trigger] names[earlier],
                ) is Some by {
                    assert(names.drop_last()[earlier] == names[earlier]);
                }
            },
        }
    }
}

impl Declaration {
    /// Admits `request` as a declaration, or says why it is none.
    pub fn parse(request: &Request) -> (outcome: Result<Declaration, ExpansionError>)
        ensures
            match outcome {
                Ok(declaration) => declared(request@) == Ok::<DeclarationView, ExpansionError>(
                    declaration@,
                ),
                Err(error) => declared(request@) == Err::<DeclarationView, ExpansionError>(error),
            },
    {
        let inner = match &request.fields {
            Fields::Unnamed(types) => {
                if types.len() != 1 {
                    return Err(ExpansionError::ShapeError);
                }
                types[0].clone()
            },
            _ => {
                return Err(ExpansionError::ShapeError);
            },
        };
        let ghost all = entries(request.attributes@);
        let mut capabilities = CapabilitySet::empty();
        let mut sanitizers: Vec<String> = Vec::new();
        let mut validators: Vec<String> = Vec::new();
        let mut i: usize = 0;
        while i < request.attributes.len()
            invariant
                i <= request.attributes.len(),
                all == entries(request.attributes@),
                is_newtype_shape(request@.fields),
                inner@ == request@.fields->Unnamed_0[0],
                first_fault(all.take(i as int)) is None,
                capabilities == granted(all.take(i as int)),
                texts(sanitizers@) == pipeline(all.take(i as int), Key::Sanitize),
                texts(validators@) == pipeline(all.take(i as int), Key::Validate),
            decreases request.attributes.len() - i,
        {
            let attribute = &request.attributes[i];
            proof {
                assert(all.take(i + 1).drop_last() == all.take(i as int));
                assert(all.take(i + 1).last() == attribute@);
            }
            match Key::from_name(attribute.key.as_str()) {
                Some(Key::Upgrades) => {
                    match grant_upgrades(&mut capabilities, &attribute.arguments) {
                        Some(upgrade) => {
                            proof {
                                lemma_first_fault_is_stable(all, i + 1);
                            }
                            return Err(
                                ExpansionError::UnrecognizedCapabilityError {
                                    attribute: i,
                                    upgrade,
                                },
                            );
                        },
                        None => {},
                    }
                },
                Some(Key::Sanitize) => {
                    sanitizers = attribute.arguments.clone();
                },
                Some(Key::Validate) => {
                    validators = attribute.arguments.clone();
                },
                None => {
                    proof {
                        lemma_first_fault_is_stable(all, i + 1);
                    }
                    return Err(ExpansionError::UnrecognizedAttributeError { attribute: i });
                },
            }
            i += 1;
        }
        proof {
            assert(all.take(i as int) == all);
        }
        Ok(
            Declaration {
                identifier: request.identifier.clone(),
                generics: request.generics.clone(),
                where_clause: request.where_clause.clone(),
                inner,
                capabilities,
                sanitizers,
                validators,
                item: request.item.clone(),
            },
        )
    }
}

} // verus!
