//! Rendering of a plan as source text.
use vstd::prelude::*;
use vstd::string::StringExecFns;
use crate::expansion::capability::Capability;
use crate::expansion::declaration::Declaration;
use crate::expansion::declaration::DeclarationView;
use crate::expansion::declaration::GenericParam;
use crate::expansion::declaration::GenericParamView;
use crate::expansion::declaration::ParamKind;
use crate::expansion::plan::CodeUnit;
use crate::expansion::plan::Plan;
use crate::expansion::plan::PlanView;
use crate::expansion::plan::Scope;
use crate::expansion::plan::Storage;
use crate::expansion::text::Mention;
use crate::expansion::text::chain;
use crate::expansion::text::join;
use crate::expansion::text::joined;
use crate::expansion::text::param_list;
use crate::expansion::text::slices;
use crate::expansion::text::write_chain;
use crate::expansion::text::write_param_list;

verus! {

/// The inner type, named through the newtype.
pub const INNER: &'static str = "<Self as ::seventy::traits::Newtype>::Inner";

/// The core operations, after the inner type has been named.
pub const NEWTYPE_BODY: &'static str =
    ";\n    fn try_new(inner: Self::Inner) -> ::core::result::Result<Self, Self::Inner> {\n        let mut inner = inner;\n        <Self as ::seventy::traits::Sanitizable>::sanitize(&mut inner);\n        if <Self as ::seventy::traits::Validatable>::validate(&inner) {\n            ::core::result::Result::Ok(Self(inner))\n        } else {\n            ::core::result::Result::Err(inner)\n        }\n    }\n    fn borrow_inner(&self) -> &Self::Inner {\n        &self.0\n    }\n    fn into_inner(self) -> Self::Inner {\n        self.0\n    }\n";

/// The constructors and the access that skip parts of the pipeline.
pub const BYPASSABLE_BODY: &'static str =
    "    fn unchecked_new(inner: <Self as ::seventy::traits::Newtype>::Inner) -> Self {\n        Self(inner)\n    }\n    fn unsanitized_new(inner: <Self as ::seventy::traits::Newtype>::Inner) -> ::core::result::Result<Self, <Self as ::seventy::traits::Newtype>::Inner> {\n        if <Self as ::seventy::traits::Validatable>::validate(&inner) {\n            ::core::result::Result::Ok(Self(inner))\n        } else {\n            ::core::result::Result::Err(inner)\n        }\n    }\n    fn unvalidated_new(inner: <Self as ::seventy::traits::Newtype>::Inner) -> Self {\n        let mut inner = inner;\n        <Self as ::seventy::traits::Sanitizable>::sanitize(&mut inner);\n        Self(inner)\n    }\n    fn borrow_inner_mut(&mut self) -> &mut <Self as ::seventy::traits::Newtype>::Inner {\n        &mut self.0\n    }\n";

/// Reference conversion to the inner value.
pub const AS_REF_BODY: &'static str =
    "    fn as_ref(&self) -> &<Self as ::seventy::traits::Newtype>::Inner {\n        <Self as ::seventy::traits::Newtype>::borrow_inner(self)\n    }\n";

/// Dereferencing to the inner value.
pub const DEREF_BODY: &'static str =
    "    type Target = <Self as ::seventy::traits::Newtype>::Inner;\n    fn deref(&self) -> &Self::Target {\n        &self.0\n    }\n";

/// Decoding of the inner value, then construction through the whole pipeline.
pub const DESERIALIZE_BODY: &'static str =
    "    fn deserialize<D>(deserializer: D) -> ::core::result::Result<Self, D::Error>\n    where\n        D: ::serde::Deserializer<'de>,\n    {\n        let inner = <<Self as ::seventy::traits::Newtype>::Inner as ::serde::Deserialize<'de>>::deserialize(deserializer)?;\n        <Self as ::seventy::traits::Newtype>::try_new(inner).map_err(|_| <D::Error as ::serde::de::Error>::custom(\"Validation error\"))\n    }\n";

/// Textual rendering forwarded to the inner value.
pub const DISPLAY_BODY: &'static str =
    "    fn fmt(&self, f: &mut ::core::fmt::Formatter<'_>) -> ::core::fmt::Result {\n        ::core::fmt::Display::fmt(<Self as ::seventy::traits::Newtype>::borrow_inner(self), f)\n    }\n";

/// The core operations as methods of the type itself.
pub const INHERENT_BODY: &'static str =
    "    pub fn try_new(inner: <Self as ::seventy::traits::Newtype>::Inner) -> ::core::result::Result<Self, <Self as ::seventy::traits::Newtype>::Inner> {\n        <Self as ::seventy::traits::Newtype>::try_new(inner)\n    }\n    pub fn borrow_inner(&self) -> &<Self as ::seventy::traits::Newtype>::Inner {\n        <Self as ::seventy::traits::Newtype>::borrow_inner(self)\n    }\n    pub fn into_inner(self) -> <Self as ::seventy::traits::Newtype>::Inner {\n        <Self as ::seventy::traits::Newtype>::into_inner(self)\n    }\n";

/// The fallible conversion from the inner type.
pub const TRY_FROM_BODY: &'static str =
    "    type Error = <Self as ::seventy::traits::Newtype>::Inner;\n    fn try_from(inner: <Self as ::seventy::traits::Newtype>::Inner) -> ::core::result::Result<Self, Self::Error> {\n        <Self as ::seventy::traits::Newtype>::try_new(inner)\n    }\n";

/// The lifetime of the decoder, which the decoding implementation adds to the
/// type's own parameters.
pub open spec fn decoder_lifetime() -> GenericParamView {
    GenericParamView { kind: ParamKind::Lifetime, name: "'de"@, bounds: Seq::empty() }
}

/// The parts of one implementation block: `implemented` (with a `for` behind
/// it where it is a trait, empty where the block is the type's own) for the
/// declared type, its parameters declared as `generics` says, around `body`.
pub open spec fn impl_parts(
    declaration: DeclarationView,
    generics: Seq<char>,
    implemented: Seq<char>,
    body: Seq<Seq<char>>,
) -> Seq<Seq<char>> {
    seq![
        "impl"@,
        generics,
        " "@,
        implemented,
        declaration.identifier,
        param_list(declaration.generics, Mention::Used),
        " "@,
        declaration.where_clause,
        " {\n"@,
    ] + body + seq!["}\n"@]
}

/// The text of one implementation block.
pub open spec fn impl_text(
    declaration: DeclarationView,
    generics: Seq<char>,
    implemented: Seq<char>,
    body: Seq<Seq<char>>,
) -> Seq<char> {
    joined(impl_parts(declaration, generics, implemented, body))
}

/// The text of an implementation block that adds no parameter of its own.
pub open spec fn plain_impl_text(
    declaration: DeclarationView,
    implemented: Seq<char>,
    body: Seq<Seq<char>>,
) -> Seq<char> {
    impl_text(
        declaration,
        param_list(declaration.generics, Mention::Declared),
        implemented,
        body,
    )
}

/// The body of the sanitizing function under `storage`, for the given steps.
pub open spec fn sanitize_body(storage: Storage, inner: Seq<char>, steps: Seq<Seq<char>>) -> Seq<
    Seq<char>,
> {
    match storage {
        Storage::Shared => seq![
            "    fn sanitize(target: &mut Self::Inner) {\n        static SANITIZER: ::std::sync::LazyLock<::std::boxed::Box<dyn ::seventy::traits::Sanitizer<"@,
            inner,
            "> + Send + Sync>> = ::std::sync::LazyLock::new(|| ::std::boxed::Box::new("@,
            chain(steps),
            "));\n        ::std::sync::LazyLock::force(&SANITIZER).sanitize(target);\n    }\n"@,
        ],
        Storage::PerInstance => seq![
            "    fn sanitize(target: &mut Self::Inner) {\n        ::seventy::traits::Sanitizer::<Self::Inner>::sanitize(&"@,
            chain(steps),
            ", target);\n    }\n"@,
        ],
    }
}

/// The body of the validating function under `storage`, for the given steps.
pub open spec fn validate_body(storage: Storage, inner: Seq<char>, steps: Seq<Seq<char>>) -> Seq<
    Seq<char>,
> {
    match storage {
        Storage::Shared => seq![
            "    fn validate(target: &Self::Inner) -> bool {\n        static VALIDATOR: ::std::sync::LazyLock<::std::boxed::Box<dyn ::seventy::traits::Validator<"@,
            inner,
            "> + Send + Sync>> = ::std::sync::LazyLock::new(|| ::std::boxed::Box::new("@,
            chain(steps),
            "));\n        ::std::sync::LazyLock::force(&VALIDATOR).validate(target)\n    }\n"@,
        ],
        Storage::PerInstance => seq![
            "    fn validate(target: &Self::Inner) -> bool {\n        ::seventy::traits::Validator::<Self::Inner>::validate(&"@,
            chain(steps),
            ", target)\n    }\n"@,
        ],
    }
}

/// The text that `capability` adds.
pub open spec fn exposure_text(capability: Capability, declaration: DeclarationView) -> Seq<char> {
    match capability {
        Capability::AsRef => plain_impl_text(
            declaration,
            "::core::convert::AsRef<<Self as ::seventy::traits::Newtype>::Inner> for "@,
            seq![AS_REF_BODY@],
        ),
        Capability::Bypassable => plain_impl_text(
            declaration,
            "::seventy::traits::Bypassable for "@,
            seq![BYPASSABLE_BODY@],
        ),
        Capability::Deref => plain_impl_text(
            declaration,
            "::core::ops::Deref for "@,
            seq![DEREF_BODY@],
        ),
        Capability::Deserializable => impl_text(
            declaration,
            param_list(declaration.generics.push(decoder_lifetime()), Mention::Declared),
            "::serde::Deserialize<'de> for "@,
            seq![DESERIALIZE_BODY@],
        ),
        Capability::Display => plain_impl_text(
            declaration,
            "::core::fmt::Display for "@,
            seq![DISPLAY_BODY@],
        ),
        Capability::Inherent => plain_impl_text(declaration, ""@, seq![INHERENT_BODY@]),
        Capability::Serializable => plain_impl_text(
            declaration,
            "::serde::Serialize for "@,
            seq![
                "    fn serialize<S>(&self, serializer: S) -> ::core::result::Result<S::Ok, S::Error>\n    where\n        S: ::serde::Serializer,\n    {\n        serializer.serialize_newtype_struct(\""@,
                declaration.identifier,
                "\", &self.0)\n    }\n"@,
            ],
        ),
        Capability::TryFrom => plain_impl_text(
            declaration,
            "::core::convert::TryFrom<<Self as ::seventy::traits::Newtype>::Inner> for "@,
            seq![TRY_FROM_BODY@],
        ),
        Capability::Independent => Seq::empty(),
        Capability::Unexposed => Seq::empty(),
    }
}

/// The text of one code unit.
pub open spec fn unit_text(unit: CodeUnit, declaration: DeclarationView) -> Seq<char> {
    match unit {
        CodeUnit::Definition => declaration.item + "\n"@,
        CodeUnit::Newtype => plain_impl_text(
            declaration,
            "::seventy::traits::Newtype for "@,
            seq!["    type Inner = "@, declaration.inner, NEWTYPE_BODY@],
        ),
        CodeUnit::Pipelines(storage) => plain_impl_text(
            declaration,
            "::seventy::traits::Sanitizable for "@,
            sanitize_body(storage, declaration.inner, declaration.sanitizers),
        ) + plain_impl_text(
            declaration,
            "::seventy::traits::Validatable for "@,
            validate_body(storage, declaration.inner, declaration.validators),
        ),
        CodeUnit::Exposure(capability) => exposure_text(capability, declaration),
    }
}

/// The texts of `units`, one after the other.
pub open spec fn units_text(units: Seq<CodeUnit>, declaration: DeclarationView) -> Seq<char>
    decreases units.len(),
{
    if units.len() == 0 {
        Seq::empty()
    } else {
        units_text(units.drop_last(), declaration) + unit_text(units.last(), declaration)
    }
}

/// What stands before the units where they are placed in a private scope.
pub open spec fn private_scope_opening(declaration: DeclarationView) -> Seq<char> {
    "#[doc(hidden)]\n#[allow(non_snake_case)]\nmod __"@ + declaration.identifier
        + " {\n    use super::*;\n"@
}

/// What stands behind the units where they are placed in a private scope.
pub open spec fn private_scope_closing(declaration: DeclarationView) -> Seq<char> {
    "}\n#[doc(inline)]\npub use __"@ + declaration.identifier + "::"@ + declaration.identifier
        + ";\n"@
}

/// The source text of `plan`: its units in their order, and around them the
/// private scope where the plan asks for one.
pub open spec fn rendered(plan: PlanView, declaration: DeclarationView) -> Seq<char> {
    match plan.scope {
        Scope::Enclosing => units_text(plan.units, declaration),
        Scope::Private => private_scope_opening(declaration) + units_text(plan.units, declaration)
            + private_scope_closing(declaration),
    }
}

/// Writes one implementation block.
pub fn write_impl(declaration: &Declaration, generics: &str, implemented: &str, body: &Vec<&str>) -> (text:
    String)
    ensures
        text@ == impl_text(declaration@, generics@, implemented@, slices(body@)),
{
    let used = write_param_list(&declaration.generics, Mention::Used);
    let mut parts: Vec<&str> = vec![
        "impl",
        generics,
        " ",
        implemented,
        declaration.identifier.as_str(),
        used.as_str(),
        " ",
        declaration.where_clause.as_str(),
        " {\n",
    ];
    let ghost head = slices(parts@);
    assert(head =~= seq![
        "impl"@,
        generics@,
        " "@,
        implemented@,
        declaration@.identifier,
        param_list(declaration@.generics, Mention::Used),
        " "@,
        declaration@.where_clause,
        " {\n"@,
    ]);
    let mut i: usize = 0;
    assert(slices(parts@) =~= head + slices(body@).take(0));
    while i < body.len()
        invariant
            i <= body.len(),
            slices(parts@) == head + slices(body@).take(i as int),
        decreases body.len() - i,
    {
        let ghost before = parts@;
        parts.push(body[i]);
        proof {
            assert(parts@ == before.push(body@[i as int]));
            assert(slices(parts@) =~= slices(before).push(body@[i as int]@));
            assert(slices(body@).take(i + 1) =~= slices(body@).take(i as int).push(
                body@[i as int]@,
            ));
            assert(slices(parts@) =~= head + slices(body@).take(i + 1));
        }
        i += 1;
    }
    let ghost before = parts@;
    parts.push("}\n");
    proof {
        assert(slices(body@).take(i as int) == slices(body@));
        assert(slices(parts@) =~= slices(before).push("}\n"@));
        assert(slices(parts@) =~= impl_parts(
            declaration@,
            generics@,
            implemented@,
            slices(body@),
        ));
    }
    join(&parts)
}

/// Writes an implementation block that adds no parameter of its own.
pub fn write_plain_impl(declaration: &Declaration, implemented: &str, body: &Vec<&str>) -> (text:
    String)
    ensures
        text@ == plain_impl_text(declaration@, implemented@, slices(body@)),
{
    let declared = write_param_list(&declaration.generics, Mention::Declared);
    write_impl(declaration, declared.as_str(), implemented, body)
}

/// Writes the implementations of `Sanitizable` and `Validatable`.
pub fn write_pipelines(storage: Storage, declaration: &Declaration) -> (text: String)
    ensures
        text@ == unit_text(CodeUnit::Pipelines(storage), declaration@),
{
    let sanitizers = write_chain(&declaration.sanitizers);
    let validators = write_chain(&declaration.validators);
    let inner = declaration.inner.as_str();
    let (sanitize, validate): (Vec<&str>, Vec<&str>) = match storage {
        Storage::Shared => (
            vec![
                "    fn sanitize(target: &mut Self::Inner) {\n        static SANITIZER: ::std::sync::LazyLock<::std::boxed::Box<dyn ::seventy::traits::Sanitizer<",
                inner,
                "> + Send + Sync>> = ::std::sync::LazyLock::new(|| ::std::boxed::Box::new(",
                sanitizers.as_str(),
                "));\n        ::std::sync::LazyLock::force(&SANITIZER).sanitize(target);\n    }\n",
            ],
            vec![
                "    fn validate(target: &Self::Inner) -> bool {\n        static VALIDATOR: ::std::sync::LazyLock<::std::boxed::Box<dyn ::seventy::traits::Validator<",
                inner,
                "> + Send + Sync>> = ::std::sync::LazyLock::new(|| ::std::boxed::Box::new(",
                validators.as_str(),
                "));\n        ::std::sync::LazyLock::force(&VALIDATOR).validate(target)\n    }\n",
            ],
        ),
        Storage::PerInstance => (
            vec![
                "    fn sanitize(target: &mut Self::Inner) {\n        ::seventy::traits::Sanitizer::<Self::Inner>::sanitize(&",
                sanitizers.as_str(),
                ", target);\n    }\n",
            ],
            vec![
                "    fn validate(target: &Self::Inner) -> bool {\n        ::seventy::traits::Validator::<Self::Inner>::validate(&",
                validators.as_str(),
                ", target)\n    }\n",
            ],
        ),
    };
    assert(slices(sanitize@) =~= sanitize_body(
        storage,
        declaration@.inner,
        declaration@.sanitizers,
    ));
    assert(slices(validate@) =~= validate_body(
        storage,
        declaration@.inner,
        declaration@.validators,
    ));
    let mut text = write_plain_impl(declaration, "::seventy::traits::Sanitizable for ", &sanitize);
    let second = write_plain_impl(declaration, "::seventy::traits::Validatable for ", &validate);
    text.append(second.as_str());
    text
}

/// The type's own parameters with the decoder's lifetime behind them.
pub fn decoding_generics(generics: &Vec<GenericParam>) -> (extended: Vec<GenericParam>)
    ensures
        crate::expansion::declaration::params(extended@) == crate::expansion::declaration::params(
            generics@,
        ).push(decoder_lifetime()),
{
    let mut extended = generics.clone();
    extended.push(
        GenericParam {
            kind: ParamKind::Lifetime,
            name: String::from_str("'de"),
            bounds: String::new(),
        },
    );
    assert(crate::expansion::declaration::params(extended@)
        =~= crate::expansion::declaration::params(generics@).push(decoder_lifetime()));
    extended
}

/// Writes what `capability` adds.
pub fn write_exposure(capability: Capability, declaration: &Declaration) -> (text: String)
    ensures
        text@ == exposure_text(capability, declaration@),
{
    match capability {
        Capability::AsRef => {
            let body = vec![AS_REF_BODY];
            assert(slices(body@) =~= seq![AS_REF_BODY@]);
            write_plain_impl(
                declaration,
                "::core::convert::AsRef<<Self as ::seventy::traits::Newtype>::Inner> for ",
                &body,
            )
        },
        Capability::Bypassable => {
            let body = vec![BYPASSABLE_BODY];
            assert(slices(body@) =~= seq![BYPASSABLE_BODY@]);
            write_plain_impl(declaration, "::seventy::traits::Bypassable for ", &body)
        },
        Capability::Deref => {
            let body = vec![DEREF_BODY];
            assert(slices(body@) =~= seq![DEREF_BODY@]);
            write_plain_impl(declaration, "::core::ops::Deref for ", &body)
        },
        Capability::Deserializable => {
            let body = vec![DESERIALIZE_BODY];
            assert(slices(body@) =~= seq![DESERIALIZE_BODY@]);
            let extended = decoding_generics(&declaration.generics);
            let declared = write_param_list(&extended, Mention::Declared);
            write_impl(declaration, declared.as_str(), "::serde::Deserialize<'de> for ", &body)
        },
        Capability::Display => {
            let body = vec![DISPLAY_BODY];
            assert(slices(body@) =~= seq![DISPLAY_BODY@]);
            write_plain_impl(declaration, "::core::fmt::Display for ", &body)
        },
        Capability::Inherent => {
            let body = vec![INHERENT_BODY];
            assert(slices(body@) =~= seq![INHERENT_BODY@]);
            write_plain_impl(declaration, "", &body)
        },
        Capability::Serializable => {
            let body = vec![
                "    fn serialize<S>(&self, serializer: S) -> ::core::result::Result<S::Ok, S::Error>\n    where\n        S: ::serde::Serializer,\n    {\n        serializer.serialize_newtype_struct(\"",
                declaration.identifier.as_str(),
                "\", &self.0)\n    }\n",
            ];
            assert(slices(body@) =~= seq![
                "    fn serialize<S>(&self, serializer: S) -> ::core::result::Result<S::Ok, S::Error>\n    where\n        S: ::serde::Serializer,\n    {\n        serializer.serialize_newtype_struct(\""@,
                declaration@.identifier,
                "\", &self.0)\n    }\n"@,
            ]);
            write_plain_impl(declaration, "::serde::Serialize for ", &body)
        },
        Capability::TryFrom => {
            let body = vec![TRY_FROM_BODY];
            assert(slices(body@) =~= seq![TRY_FROM_BODY@]);
            write_plain_impl(
                declaration,
                "::core::convert::TryFrom<<Self as ::seventy::traits::Newtype>::Inner> for ",
                &body,
            )
        },
        Capability::Independent => String::new(),
        Capability::Unexposed => String::new(),
    }
}

/// Writes one code unit.
pub fn write_unit(unit: CodeUnit, declaration: &Declaration) -> (text: String)
    ensures
        text@ == unit_text(unit, declaration@),
{
    match unit {
        CodeUnit::Definition => {
            let mut text = declaration.item.clone();
            text.append("\n");
            text
        },
        CodeUnit::Newtype => {
            let body = vec!["    type Inner = ", declaration.inner.as_str(), NEWTYPE_BODY];
            assert(slices(body@) =~= seq![
                "    type Inner = "@,
                declaration@.inner,
                NEWTYPE_BODY@,
            ]);
            write_plain_impl(declaration, "::seventy::traits::Newtype for ", &body)
        },
        CodeUnit::Pipelines(storage) => write_pipelines(storage, declaration),
        CodeUnit::Exposure(capability) => write_exposure(capability, declaration),
    }
}

/// Renders `plan` as source text, the units in the order of the plan. The plan
/// is used up by it.
pub fn render(plan: Plan, declaration: &Declaration) -> (text: String)
    ensures
        text@ == rendered(plan@, declaration@),
{
    let mut body = String::new();
    let mut i: usize = 0;
    while i < plan.units.len()
        invariant
            i <= plan.units.len(),
            body@ == units_text(plan.units@.take(i as int), declaration@),
        decreases plan.units.len() - i,
    {
        proof {
            assert(plan.units@.take(i + 1).drop_last() == plan.units@.take(i as int));
            assert(plan.units@.take(i + 1).last() == plan.units@[i as int]);
        }
        let unit = write_unit(plan.units[i], declaration);
        body.append(unit.as_str());
        i += 1;
    }
    proof {
        assert(plan.units@.take(i as int) == plan.units@);
    }
    match plan.scope {
        Scope::Enclosing => body,
        Scope::Private => {
            let mut text = String::from_str("#[doc(hidden)]\n#[allow(non_snake_case)]\nmod __");
            text.append(declaration.identifier.as_str());
            text.append(" {\n    use super::*;\n");
            text.append(body.as_str());
            text.append("}\n#[doc(inline)]\npub use __");
            text.append(declaration.identifier.as_str());
            text.append("::");
            text.append(declaration.identifier.as_str());
            text.append(";\n");
            assert(text@ =~= rendered(plan@, declaration@));
            text
        },
    }
}

} // verus!
