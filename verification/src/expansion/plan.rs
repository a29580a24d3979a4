//! The ordered code units that a declaration expands to.
use vstd::prelude::*;
use crate::expansion::capability::Capability;
use crate::expansion::capability::CapabilitySet;
use crate::expansion::declaration::Declaration;
use crate::expansion::declaration::DeclarationView;
use crate::expansion::declaration::ExpansionError;

verus! {

/// Where the pipelines of a type live between calls.
#[derive(Clone, Copy, PartialEq, Eq, Structural, Debug)]
pub enum Storage {
    /// Built once per type, on first use, and read by every later call.
    Shared,
    /// Built by each call for itself and dropped when the call ends.
    PerInstance,
}

/// Where the generated items are placed.
#[derive(Clone, Copy, PartialEq, Eq, Structural, Debug)]
pub enum Scope {
    /// Beside the declaration, in the scope that holds it.
    Enclosing,
    /// In a private scope of their own, from which only the type's name is exported.
    Private,
}

/// One unit of generated code.
#[derive(Clone, Copy, PartialEq, Eq, Structural, Debug)]
pub enum CodeUnit {
    /// The declared type itself.
    Definition,
    /// Construction through the pipeline, and access to the inner value.
    Newtype,
    /// The sanitizer and validator pipelines, held as `Storage` says.
    Pipelines(Storage),
    /// What one capability adds.
    Exposure(Capability),
}

/// What the expansion of one declaration decided.
#[derive(Debug)]
pub struct Plan {
    pub units: Vec<CodeUnit>,
    pub scope: Scope,
}

/// A plan as contracts see it.
pub struct PlanView {
    pub units: Seq<CodeUnit>,
    pub scope: Scope,
}

impl View for Plan {
    type V = PlanView;

    open spec fn view(&self) -> PlanView {
        PlanView { units: self.units@, scope: self.scope }
    }
}

/// The capabilities that add a unit of their own, in the order in which the units are emitted.
pub open spec fn emission_order() -> Seq<Capability> {
    seq![
        Capability::AsRef,
        Capability::Bypassable,
        Capability::Deref,
        Capability::Deserializable,
        Capability::Display,
        Capability::Inherent,
        Capability::Serializable,
        Capability::TryFrom,
    ]
}

/// The storage that a capability set selects.
pub open spec fn storage_of(capabilities: CapabilitySet) -> Storage {
    if capabilities.independent {
        Storage::PerInstance
    } else {
        Storage::Shared
    }
}

/// The scope that a capability set selects.
pub open spec fn scope_of(capabilities: CapabilitySet) -> Scope {
    if capabilities.unexposed {
        Scope::Private
    } else {
        Scope::Enclosing
    }
}

/// The units that every declaration gets, whatever it asks for.
pub open spec fn core_units(storage: Storage) -> Seq<CodeUnit> {
    seq![CodeUnit::Definition, CodeUnit::Newtype, CodeUnit::Pipelines(storage)]
}

/// The units of the capabilities in `capabilities`, in emission order.
pub open spec fn exposure_units(capabilities: CapabilitySet) -> Seq<CodeUnit> {
    emission_order().filter(|c: Capability| capabilities.has(c)).map_values(
        |c: Capability| CodeUnit::Exposure(c),
    )
}

/// Whether the declaration asks for shared pipelines that would depend on its generic parameters.
pub open spec fn has_generic_static_conflict(declaration: DeclarationView) -> bool {
    &&& declaration.generics.len() > 0
    &&& declaration.sanitizers.len() + declaration.validators.len() > 0
    &&& !declaration.capabilities.independent
}

/// The plan of `declaration`, or the reason why it has none.
pub open spec fn planned(declaration: DeclarationView) -> Result<PlanView, ExpansionError> {
    if has_generic_static_conflict(declaration) {
        Err(ExpansionError::GenericStaticConflictError)
    } else {
        Ok(
            PlanView {
                units: core_units(storage_of(declaration.capabilities)) + exposure_units(
                    declaration.capabilities,
                ),
                scope: scope_of(declaration.capabilities),
            },
        )
    }
}

/// The capabilities that add a unit of their own, in the order in which the units are emitted.
pub fn emission_sequence() -> (order: Vec<Capability>)
    ensures
        order@ == emission_order(),
{
    vec![
        Capability::AsRef,
        Capability::Bypassable,
        Capability::Deref,
        Capability::Deserializable,
        Capability::Display,
        Capability::Inherent,
        Capability::Serializable,
        Capability::TryFrom,
    ]
}

/// Resolves `declaration` into its plan.
///
/// The units stand in the order in which they are to be rendered: the type,
/// the core operations, the pipelines, then one unit for each capability that
/// is present.
pub fn expand(declaration: &Declaration) -> (outcome: Result<Plan, ExpansionError>)
    ensures
        match outcome {
            Ok(plan) => planned(declaration@) == Ok::<PlanView, ExpansionError>(plan@),
            Err(error) => planned(declaration@) == Err::<PlanView, ExpansionError>(error),
        },
{
    let capabilities = declaration.capabilities;
    let staged = declaration.sanitizers.len() > 0 || declaration.validators.len() > 0;
    if declaration.generics.len() > 0 && staged && !capabilities.independent {
        return Err(ExpansionError::GenericStaticConflictError);
    }
    let storage = if capabilities.independent {
        Storage::PerInstance
    } else {
        Storage::Shared
    };
    let mut units: Vec<CodeUnit> = Vec::new();
    units.push(CodeUnit::Definition);
    units.push(CodeUnit::Newtype);
    units.push(CodeUnit::Pipelines(storage));
    assert(units@ == core_units(storage));
    let order = emission_sequence();
    let ghost present = |c: Capability| capabilities.has(c);
    let ghost unit = |c: Capability| CodeUnit::Exposure(c);
    proof {
        order@.take(0).lemma_filter_len(present);
    }
    let mut i: usize = 0;
    while i < order.len()
        invariant
            i <= order.len(),
            order@ == emission_order(),
            present == |c: Capability| capabilities.has(c),
            unit == |c: Capability| CodeUnit::Exposure(c),
            units@ == core_units(storage) + order@.take(i as int).filter(present).map_values(unit),
        decreases order.len() - i,
    {
        let capability = order[i];
        let ghost before = order@.take(i as int);
        let ghost after = order@.take(i + 1);
        proof {
            assert(after == before.push(capability));
            before.lemma_filter_push(capability, present);
            assert(after.filter(present) == if present(capability) {
                before.filter(present).push(capability)
            } else {
                before.filter(present)
            });
        }
        if capabilities.contains(capability) {
            units.push(CodeUnit::Exposure(capability));
            assert(before.filter(present).push(capability).map_values(unit) =~= before.filter(
                present,
            ).map_values(unit).push(CodeUnit::Exposure(capability)));
        }
        i += 1;
    }
    proof {
        assert(order@.take(i as int) == order@);
    }
    let scope = if capabilities.unexposed {
        Scope::Private
    } else {
        Scope::Enclosing
    };
    Ok(Plan { units, scope })
}

/// A capability's unit is in the plan exactly where the capability is asked
/// for and is one that adds a unit.
pub proof fn exposure_units_are_what_was_asked(capabilities: CapabilitySet, capability: Capability)
    ensures
        exposure_units(capabilities).contains(CodeUnit::Exposure(capability)) <==> capabilities.has(
            capability,
        ) && emission_order().contains(capability),
{
    let present = |c: Capability| capabilities.has(c);
    let order = emission_order();
    let kept = order.filter(present);
    let units = exposure_units(capabilities);
    if units.contains(CodeUnit::Exposure(capability)) {
        let i = choose|i: int| 0 <= i < units.len() && units[i] == CodeUnit::Exposure(capability);
        assert(kept[i] == capability);
        assert(kept.contains(capability));
        order.lemma_filter_contains_rev(present, capability);
    }
    if capabilities.has(capability) && order.contains(capability) {
        let i = choose|i: int| 0 <= i < order.len() && order[i] == capability;
        order.lemma_filter_contains(present, i);
        let k = choose|k: int| 0 <= k < kept.len() && kept[k] == capability;
        assert(units[k] == CodeUnit::Exposure(capability));
    }
}

/// A generic type whose pipelines hold a step, and which does not ask for
/// pipelines of its own per call, has no plan.
pub proof fn generic_shared_pipeline_is_refused(declaration: DeclarationView)
    requires
        declaration.generics.len() > 0,
        declaration.sanitizers.len() > 0 || declaration.validators.len() > 0,
        !declaration.capabilities.has(Capability::Independent),
    ensures
        planned(declaration) == Err::<PlanView, ExpansionError>(
            ExpansionError::GenericStaticConflictError,
        ),
{
}

} // verus!
