use vstd::prelude::*;

verus! {

/// A view of borrowed text.
#[derive(Debug)]
pub struct MyStruct<'a> {
    pub data: &'a str,
}

impl<'a> MyStruct<'a> {
    /// Wraps the borrowed text `data` without copying it.
    pub fn new(data: &'a str) -> (r: Self)
        ensures
            r.data@ == data@,
    {
        Self { data }
    }
}

/// A box-like owner of a single value.
pub struct MyBox<T>(pub T);

impl<T> MyBox<T> {
    /// Takes ownership of `x` and holds it.
    pub fn new(x: T) -> (r: MyBox<T>)
        ensures
            r.0 == x,
    {
        MyBox(x)
    }
}

impl<T> core::ops::Deref for MyBox<T> {
    type Target = T;

    fn deref(&self) -> (r: &T)
        ensures
            *r == self.0,
    {
        &self.0
    }
}

impl<T> core::ops::DerefMut for MyBox<T> {
    fn deref_mut(&mut self) -> (r: &mut T)
        ensures
            *r == old(self).0,
            final(self).0 == *final(r),
    {
        &mut self.0
    }
}

} // verus!
