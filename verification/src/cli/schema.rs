//! `notion-cli schema <type>` arguments.

use vstd::prelude::*;

verus! {

#[derive(Debug)]
pub struct SchemaArgs {
    /// Which type to introspect.
    pub ty: SchemaType,
}

#[derive(Debug, Clone, Copy, PartialEq, Eq, Structural)]
pub enum SchemaType {
    Property,
    PropertyValue,
    Filter,
    Sort,
    Page,
    Database,
    DataSource,
    RichText,
}

} // verus!
