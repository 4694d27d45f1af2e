//! A small demonstration library of the kind the generator is pointed at: a
//! default-constructible wrapped struct with a constructor and a getter, a
//! plain foreign-layout struct, and a free function returning the wrapped
//! type.

use vstd::prelude::*;

verus! {

/// A struct annotated for wrapper generation in the demonstration crate.
#[derive(Debug)]
pub struct Test {
    pub field: u32,
}

/// A struct handed across the foreign boundary by value.
#[derive(Debug)]
pub struct Test2 {
    pub field: u32,
}

impl Test {
    /// The constructor the generator rewrites into constructor syntax.
    pub fn new(field: u32) -> (r: Self)
        ensures
            r.field == field,
    {
        Self { field }
    }

    /// The getter the generator wraps as a class method.
    pub fn get_field(&self) -> (r: u32)
        ensures
            r == self.field,
    {
        self.field
    }
}

impl Default for Test {
    /// The default value the generated zero-argument constructor builds.
    fn default() -> (r: Self)
        ensures
            r.field == 0,
    {
        Test { field: 0 }
    }
}

/// A free function the generator wraps with a boxed return.
pub fn test_function() -> (r: Test)
    ensures
        r.field == 5,
{
    Test::new(5)
}

/// A function already exported by hand in the demonstration crate.
pub fn test_value() -> (r: u32)
    ensures
        r == 13,
{
    Test::new(13).field
}

/// A by-value foreign-layout value built by hand in the demonstration
/// crate.
pub fn test2_func() -> (r: Test2)
    ensures
        r.field == 12,
{
    Test2 { field: 12 }
}

} // verus!
