//! Data model that represents a single parameter of an atomic field,
//! which together form a RPC method signature.  The schema subsystem
//! proper is outside the bus core; these types carry exactly what the
//! core reads at its boundary.

use vstd::prelude::*;

verus! {

/// Identifies the atomic field (RPC method) a parameter belongs to.
#[derive(Clone, Copy, PartialEq, Eq, Structural, Debug)]
pub struct DCAtomicField {
    pub field_id: u64,
}

/// The wire type specification of a value.
#[derive(Clone, Copy, PartialEq, Eq, Structural, Debug)]
pub struct DCTypeDefinition {
    pub type_id: u64,
}

/// Represents the type specification of a parameter within an atomic
/// field.
pub struct DCParameter {
    pub parent: DCAtomicField,
    pub base_type: DCTypeDefinition,
    pub identifier: Option<String>,
    pub type_alias: String,
    pub default_value: Vec<u8>,
    pub has_default_value: bool,
}

impl DCParameter {
    /// A parameter of `parent` with type `base_type`, no identifier, no
    /// alias, and no default value.
    pub fn new(parent: DCAtomicField, base_type: DCTypeDefinition) -> (r: Self)
        ensures
            r.parent == parent,
            r.base_type == base_type,
            r.identifier is None,
            r.type_alias@.len() == 0,
            r.default_value@.len() == 0,
            !r.has_default_value,
    {
        DCParameter {
            parent,
            base_type,
            identifier: None,
            type_alias: String::new(),
            default_value: Vec::new(),
            has_default_value: false,
        }
    }

    /// The atomic field this parameter belongs to.
    pub fn get_atomic_field(&self) -> (r: DCAtomicField)
        ensures
            r == self.parent,
    {
        self.parent
    }

    /// Whether a default value has been set.
    pub fn has_default_value(&self) -> (r: bool)
        ensures
            r == self.has_default_value,
    {
        self.has_default_value
    }

    /// A copy of the stored default value.
    pub fn get_default_value(&self) -> (r: Vec<u8>)
        ensures
            r@ == self.default_value@,
    {
        crate::datagram::clone_u8_vec(&self.default_value)
    }

    /// Replace the parameter's type.
    pub fn set_type(&mut self, dtype: DCTypeDefinition)
        ensures
            *final(self) == (DCParameter { base_type: dtype, ..*old(self) }),
    {
        self.base_type = dtype;
    }

    /// Name the parameter.
    pub fn set_identifier(&mut self, name: &str)
        ensures
            final(self).identifier matches Some(n) && n@ == name@,
            final(self).parent == old(self).parent,
            final(self).base_type == old(self).base_type,
            final(self).type_alias == old(self).type_alias,
            final(self).default_value == old(self).default_value,
            final(self).has_default_value == old(self).has_default_value,
    {
        self.identifier = Some(name.to_owned());
    }

    /// Store a default value for the parameter.
    pub fn set_default_value(&mut self, v: Vec<u8>)
        ensures
            final(self).default_value@ == v@,
            final(self).has_default_value,
            final(self).parent == old(self).parent,
            final(self).base_type == old(self).base_type,
            final(self).identifier == old(self).identifier,
            final(self).type_alias == old(self).type_alias,
    {
        self.default_value = v;
        self.has_default_value = true;
    }
}

} // verus!
