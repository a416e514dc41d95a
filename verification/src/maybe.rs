//! A value that may not exist yet and is built on demand.

use vstd::prelude::*;

verus! {

/// A value that may or may not exist, like an `Option`, together with the
/// function that tries to build it.
///
/// On an attempt to get the value, it is handed out if it exists. If it
/// does not, the build function is tried once more.
#[verifier::reject_recursive_types(T)]
pub struct Maybe<T, F: Fn() -> Option<T>> {
    /// The value, once it was built.
    value: Option<T>,
    /// The function that tries to build the value.
    build: F,
}

impl<T, F: Fn() -> Option<T>> Maybe<T, F> {
    /// The value, if it exists.
    pub closed spec fn value(&self) -> Option<T> {
        self.value
    }

    /// The function that tries to build the value.
    pub closed spec fn builder(&self) -> F {
        self.build
    }

    /// Creates a value that is built by `f`, and tries to build it at once.
    pub fn new(f: F) -> (maybe: Self)
        requires
            call_requires(f, ()),
        ensures
            maybe.builder() == f,
            call_ensures(f, (), maybe.value()),
    {
        let value = f();
        Self { value, build: f }
    }

    /// Tries to get the value. If it exists, it is handed out. If it does
    /// not, the build function is tried once more, and what it built, if
    /// anything, is kept and handed out.
    pub fn get(&mut self) -> (result: Option<&mut T>)
        requires
            call_requires(old(self).builder(), ()),
        ensures
            final(self).builder() == old(self).builder(),
            old(self).value() is Some ==> result is Some && *result.unwrap() == old(
                self,
            ).value().unwrap(),
            old(self).value() is None ==> call_ensures(
                old(self).builder(),
                (),
                match result {
                    Some(built) => Some(*built),
                    None => None,
                },
            ),
            final(self).value() == match result {
                Some(value) => Some(*final(value)),
                None => None,
            },
    {
        if self.value.is_none() {
            self.value = (self.build)();
        }
        match &mut self.value {
            Some(value) => Some(value),
            None => None,
        }
    }
}

} // verus!
