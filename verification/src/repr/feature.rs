use vstd::prelude::*;

verus! {

/// The atomic value holder: exactly one value of type `T`. A feature is never
/// changed in place; a sibling with another value is derived from it.
pub trait Feature<T>: Sized {
    /// The value held.
    spec fn value(&self) -> T;

    /// The sibling of this feature that holds `value` and keeps every other
    /// attribute.
    spec fn with_value(&self, value: T) -> Self;

    /// Returns the value held by the feature.
    fn get_value(&self) -> (v: &T)
        ensures
            *v == self.value(),
    ;

    /// Creates a duplicate of the feature that holds `value`.
    fn duplicate_with_value(&self, value: T) -> (copy: Self)
        ensures
            copy == self.with_value(value),
            copy.value() == value,
    ;
}

/// A feature that is nothing but its value.
#[derive(Debug, Clone, PartialEq)]
pub struct SimpleFeature<T> {
    /// The value held.
    pub value: T,
}

impl<T> Feature<T> for SimpleFeature<T> {
    open spec fn value(&self) -> T {
        self.value
    }

    open spec fn with_value(&self, value: T) -> SimpleFeature<T> {
        SimpleFeature { value }
    }

    fn get_value(&self) -> (v: &T) {
        &self.value
    }

    fn duplicate_with_value(&self, value: T) -> (copy: SimpleFeature<T>) {
        SimpleFeature { value }
    }
}

impl<T: core::fmt::Display> SimpleFeature<T> {
    /// Writes the feature out as its value is written.
    pub fn to_string(&self) -> (text: String)
        ensures
            vstd::string::to_string_from_display_ensures::<T>(&self.value, text),
    {
        self.value.to_string()
    }
}

} // verus!
