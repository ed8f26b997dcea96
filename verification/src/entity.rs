//! What connectors, readers and writers have in common.

use vstd::prelude::*;

use crate::text::NativeString;
use crate::Entity as EntityType;

verus! {

/// A named object of the native library.
pub trait Entity {
    /// The name as text.
    spec fn spec_entity_name(&self) -> Seq<char>;

    /// The kind of every value of this type.
    spec fn spec_entity_type() -> EntityType;

    /// The name as the native library takes it.
    fn entity_name(&self) -> (name: NativeString)
        ensures
            name@ == NativeString::encoding(self.spec_entity_name()),
    ;

    /// The kind of every value of this type.
    fn entity_type() -> (kind: EntityType)
        ensures
            kind == Self::spec_entity_type(),
    ;
}

} // verus!
