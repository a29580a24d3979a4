//! The closed vocabulary of upgrades a declaration may ask for.
use vstd::prelude::*;
use vstd::string::StringExecFns;

verus! {

/// An optional behavior attached to a newtype declaration.
#[derive(Clone, Copy, PartialEq, Eq, Structural, Debug)]
pub enum Capability {
    /// Read-only reference conversion to the inner value.
    AsRef,
    /// Constructors and mutable access that skip parts of the pipeline.
    Bypassable,
    /// Transparent read-only access through dereferencing.
    Deref,
    /// Decoding that constructs through the whole pipeline.
    Deserializable,
    /// Textual rendering forwarded to the inner value.
    Display,
    /// The core operations as methods of the type itself.
    Inherent,
    /// Encoding of the inner value as it stands.
    Serializable,
    /// The standard fallible conversion from the inner type.
    TryFrom,
    /// Pipelines built anew for every call instead of once per type.
    Independent,
    /// The type defined in a private scope, its field out of reach.
    Unexposed,
}

/// The name by which a declaration asks for `capability`.
pub open spec fn capability_name(capability: Capability) -> Seq<char> {
    match capability {
        Capability::AsRef => "as_ref"@,
        Capability::Bypassable => "bypassable"@,
        Capability::Deref => "deref"@,
        Capability::Deserializable => "deserializable"@,
        Capability::Display => "display"@,
        Capability::Inherent => "inherent"@,
        Capability::Serializable => "serializable"@,
        Capability::TryFrom => "try_from"@,
        Capability::Independent => "independent"@,
        Capability::Unexposed => "unexposed"@,
    }
}

/// The capability that `name` asks for, if it names one.
pub open spec fn capability_named(name: Seq<char>) -> Option<Capability> {
    if name == "as_ref"@ {
        Some(Capability::AsRef)
    } else if name == "bypassable"@ {
        Some(Capability::Bypassable)
    } else if name == "deref"@ {
        Some(Capability::Deref)
    } else if name == "deserializable"@ {
        Some(Capability::Deserializable)
    } else if name == "display"@ {
        Some(Capability::Display)
    } else if name == "inherent"@ {
        Some(Capability::Inherent)
    } else if name == "serializable"@ {
        Some(Capability::Serializable)
    } else if name == "try_from"@ {
        Some(Capability::TryFrom)
    } else if name == "independent"@ {
        Some(Capability::Independent)
    } else if name == "unexposed"@ {
        Some(Capability::Unexposed)
    } else {
        None
    }
}

/// Every capability is found again under its own name, so no two share one.
pub proof fn capability_names_are_distinct(capability: Capability)
    ensures
        capability_named(capability_name(capability)) == Some(capability),
{
    reveal_strlit("as_ref");
    reveal_strlit("bypassable");
    reveal_strlit("deref");
    reveal_strlit("deserializable");
    reveal_strlit("display");
    reveal_strlit("inherent");
    reveal_strlit("serializable");
    reveal_strlit("try_from");
    reveal_strlit("independent");
    reveal_strlit("unexposed");
    assert("as_ref"@.len() == 6 && "bypassable"@.len() == 10 && "deref"@.len() == 5);
    assert("deserializable"@.len() == 14 && "display"@.len() == 7 && "inherent"@.len() == 8);
    assert("serializable"@.len() == 12 && "try_from"@.len() == 8 && "independent"@.len() == 11);
    assert("unexposed"@.len() == 9);
    assert("inherent"@[0] == 'i' && "try_from"@[0] == 't');
}

/// What has to be there, beside the declaration, for a capability's code to compile.
#[derive(Clone, Copy, PartialEq, Eq, Structural, Debug)]
pub enum Requirement {
    /// Nothing.
    Nothing,
    /// The inner type can be rendered as text.
    InnerDisplay,
    /// The serialization framework is a dependency, and the inner type can be decoded by it.
    InnerDeserialize,
    /// The serialization framework is a dependency, and the inner type can be encoded by it.
    InnerSerialize,
}

/// What `capability` requires.
pub open spec fn capability_requirement(capability: Capability) -> Requirement {
    match capability {
        Capability::Display => Requirement::InnerDisplay,
        Capability::Deserializable => Requirement::InnerDeserialize,
        Capability::Serializable => Requirement::InnerSerialize,
        _ => Requirement::Nothing,
    }
}

impl Capability {
    /// The name by which a declaration asks for this capability.
    pub fn name(self) -> (text: &'static str)
        ensures
            text@ == capability_name(self),
    {
        match self {
            Capability::AsRef => "as_ref",
            Capability::Bypassable => "bypassable",
            Capability::Deref => "deref",
            Capability::Deserializable => "deserializable",
            Capability::Display => "display",
            Capability::Inherent => "inherent",
            Capability::Serializable => "serializable",
            Capability::TryFrom => "try_from",
            Capability::Independent => "independent",
            Capability::Unexposed => "unexposed",
        }
    }

    /// What this capability requires.
    pub fn requirement(self) -> (requirement: Requirement)
        ensures
            requirement == capability_requirement(self),
    {
        match self {
            Capability::Display => Requirement::InnerDisplay,
            Capability::Deserializable => Requirement::InnerDeserialize,
            Capability::Serializable => Requirement::InnerSerialize,
            _ => Requirement::Nothing,
        }
    }

    /// Looks `name` up in the vocabulary.
    pub fn from_name(name: &str) -> (found: Option<Capability>)
        ensures
            found == capability_named(name@),
    {
        let name = String::from_str(name);
        let name = &name;
        if *name == String::from_str("as_ref") {
            Some(Capability::AsRef)
        } else if *name == String::from_str("bypassable") {
            Some(Capability::Bypassable)
        } else if *name == String::from_str("deref") {
            Some(Capability::Deref)
        } else if *name == String::from_str("deserializable") {
            Some(Capability::Deserializable)
        } else if *name == String::from_str("display") {
            Some(Capability::Display)
        } else if *name == String::from_str("inherent") {
            Some(Capability::Inherent)
        } else if *name == String::from_str("serializable") {
            Some(Capability::Serializable)
        } else if *name == String::from_str("try_from") {
            Some(Capability::TryFrom)
        } else if *name == String::from_str("independent") {
            Some(Capability::Independent)
        } else if *name == String::from_str("unexposed") {
            Some(Capability::Unexposed)
        } else {
            None
        }
    }
}

/// Which capabilities a declaration has asked for.
#[derive(Clone, Copy, PartialEq, Eq, Structural, Debug)]
pub struct CapabilitySet {
    pub as_ref: bool,
    pub bypassable: bool,
    pub deref: bool,
    pub deserializable: bool,
    pub display: bool,
    pub inherent: bool,
    pub serializable: bool,
    pub try_from: bool,
    pub independent: bool,
    pub unexposed: bool,
}

impl CapabilitySet {
    /// Whether `capability` is in the set.
    pub open spec fn has(self, capability: Capability) -> bool {
        match capability {
            Capability::AsRef => self.as_ref,
            Capability::Bypassable => self.bypassable,
            Capability::Deref => self.deref,
            Capability::Deserializable => self.deserializable,
            Capability::Display => self.display,
            Capability::Inherent => self.inherent,
            Capability::Serializable => self.serializable,
            Capability::TryFrom => self.try_from,
            Capability::Independent => self.independent,
            Capability::Unexposed => self.unexposed,
        }
    }

    /// The set with `capability` added.
    pub open spec fn with(self, capability: Capability) -> CapabilitySet {
        match capability {
            Capability::AsRef => CapabilitySet { as_ref: true, ..self },
            Capability::Bypassable => CapabilitySet { bypassable: true, ..self },
            Capability::Deref => CapabilitySet { deref: true, ..self },
            Capability::Deserializable => CapabilitySet { deserializable: true, ..self },
            Capability::Display => CapabilitySet { display: true, ..self },
            Capability::Inherent => CapabilitySet { inherent: true, ..self },
            Capability::Serializable => CapabilitySet { serializable: true, ..self },
            Capability::TryFrom => CapabilitySet { try_from: true, ..self },
            Capability::Independent => CapabilitySet { independent: true, ..self },
            Capability::Unexposed => CapabilitySet { unexposed: true, ..self },
        }
    }

    /// The set that holds nothing.
    pub open spec fn nothing() -> CapabilitySet {
        CapabilitySet {
            as_ref: false,
            bypassable: false,
            deref: false,
            deserializable: false,
            display: false,
            inherent: false,
            serializable: false,
            try_from: false,
            independent: false,
            unexposed: false,
        }
    }

    /// The set that holds nothing.
    pub fn empty() -> (set: CapabilitySet)
        ensures
            set == CapabilitySet::nothing(),
            forall|capability: Capability| !set.has(capability),
    {
        CapabilitySet {
            as_ref: false,
            bypassable: false,
            deref: false,
            deserializable: false,
            display: false,
            inherent: false,
            serializable: false,
            try_from: false,
            independent: false,
            unexposed: false,
        }
    }

    /// Whether `capability` is in the set.
    pub fn contains(&self, capability: Capability) -> (present: bool)
        ensures
            present == self.has(capability),
    {
        match capability {
            Capability::AsRef => self.as_ref,
            Capability::Bypassable => self.bypassable,
            Capability::Deref => self.deref,
            Capability::Deserializable => self.deserializable,
            Capability::Display => self.display,
            Capability::Inherent => self.inherent,
            Capability::Serializable => self.serializable,
            Capability::TryFrom => self.try_from,
            Capability::Independent => self.independent,
            Capability::Unexposed => self.unexposed,
        }
    }

    /// Adds `capability`; adding one that is present changes nothing.
    pub fn insert(&mut self, capability: Capability)
        ensures
            *final(self) == old(self).with(capability),
            forall|other: Capability|
                final(self).has(other) == (other == capability || old(self).has(other)),
    {
        match capability {
            Capability::AsRef => self.as_ref = true,
            Capability::Bypassable => self.bypassable = true,
            Capability::Deref => self.deref = true,
            Capability::Deserializable => self.deserializable = true,
            Capability::Display => self.display = true,
            Capability::Inherent => self.inherent = true,
            Capability::Serializable => self.serializable = true,
            Capability::TryFrom => self.try_from = true,
            Capability::Independent => self.independent = true,
            Capability::Unexposed => self.unexposed = true,
        }
    }
}

/// Two sets that hold the same capabilities are one set.
pub proof fn capability_sets_are_extensional(left: CapabilitySet, right: CapabilitySet)
    requires
        forall|capability: Capability| left.has(capability) == right.has(capability),
    ensures
        left == right,
{
    assert(left.has(Capability::AsRef) == right.has(Capability::AsRef));
    assert(left.has(Capability::Bypassable) == right.has(Capability::Bypassable));
    assert(left.has(Capability::Deref) == right.has(Capability::Deref));
    assert(left.has(Capability::Deserializable) == right.has(Capability::Deserializable));
    assert(left.has(Capability::Display) == right.has(Capability::Display));
    assert(left.has(Capability::Inherent) == right.has(Capability::Inherent));
    assert(left.has(Capability::Serializable) == right.has(Capability::Serializable));
    assert(left.has(Capability::TryFrom) == right.has(Capability::TryFrom));
    assert(left.has(Capability::Independent) == right.has(Capability::Independent));
    assert(left.has(Capability::Unexposed) == right.has(Capability::Unexposed));
}

/// Adding a capability twice gives the set that adding it once gives.
pub proof fn adding_twice_is_adding_once(set: CapabilitySet, capability: Capability)
    ensures
        set.with(capability).with(capability) == set.with(capability),
        set.has(capability) ==> set.with(capability) == set,
{
}

} // verus!
