use better_any::{Tid, TidExt};
use vstd::prelude::*;

verus! {

/// How a stored value is held.
#[derive(PartialEq, Eq, Structural, Clone, Copy, Debug)]
pub enum Mode {
    Owned,
    Shared,
    Exclusive,
}

/// A type-erased value owned by the context.
#[verifier::external_body]
pub struct OwnedValue<'ty>(Box<dyn Tid<'ty>>);

/// A type-erased shared borrow of a value that lives elsewhere.
#[verifier::external_body]
pub struct SharedValue<'ty, 'r>(&'r (dyn Tid<'ty>));

/// A type-erased exclusive borrow of a value that lives elsewhere.
#[verifier::external_body]
pub struct ExclusiveValue<'ty, 'r>(&'r mut (dyn Tid<'ty>));

impl<'ty> OwnedValue<'ty> {
    /// Relies on better_any's `Tid` impl of `T`: boxes `value` as a
    /// `dyn Tid`, which keeps its runtime identity.
    #[verifier::external_body]
    pub(crate) fn new<T: Tid<'ty> + Send + Sync>(value: T) -> (r: Self) {
        OwnedValue(Box::new(value))
    }

    /// Relies on better_any's `TidExt::downcast_ref`: a reference to the
    /// value when it is a `T`.
    #[verifier::external_body]
    pub(crate) fn downcast_ref<T: Tid<'ty>>(&self) -> (r: Option<&T>) {
        (*self.0).downcast_ref::<T>()
    }

    /// Relies on better_any's `TidExt::downcast_mut`: a mutable reference
    /// to the value when it is a `T`.
    #[verifier::external_body]
    pub(crate) fn downcast_mut<T: Tid<'ty>>(&mut self) -> (r: Option<&mut T>) {
        (*self.0).downcast_mut::<T>()
    }

    /// Relies on better_any's `TidExt::downcast_box`: the value when it is
    /// a `T`, else the same box back.
    #[verifier::external_body]
    pub(crate) fn downcast<T: Tid<'ty>>(self) -> (r: Result<T, Self>)
        ensures
            r matches Err(v) ==> v == self,
    {
        match self.0.downcast_box::<T>() {
            Ok(b) => Ok(*b),
            Err(b) => Err(OwnedValue(b)),
        }
    }
}

impl<'ty, 'r> SharedValue<'ty, 'r> {
    /// Relies on better_any's `Tid` impl of `T`: turns the borrow into a
    /// `&dyn Tid`, which keeps its runtime identity.
    #[verifier::external_body]
    pub(crate) fn new<T: Tid<'ty> + Send + Sync>(value: &'r T) -> (r: Self) {
        SharedValue(value)
    }

    /// Relies on better_any's `TidExt::downcast_ref`: the borrow as a `&T`
    /// when the value is a `T`.
    #[verifier::external_body]
    pub(crate) fn downcast_ref<'b, T: Tid<'ty>>(&'b self) -> (r: Option<&'b T>) {
        (*self.0).downcast_ref::<T>()
    }
}

impl<'ty, 'r> ExclusiveValue<'ty, 'r> {
    /// Relies on better_any's `Tid` impl of `T`: turns the borrow into a
    /// `&mut dyn Tid`, which keeps its runtime identity.
    #[verifier::external_body]
    pub(crate) fn new<T: Tid<'ty> + Send + Sync>(value: &'r mut T) -> (r: Self) {
        ExclusiveValue(value)
    }

    /// Relies on better_any's `TidExt::downcast_ref`: a shared reference to
    /// the value when it is a `T`.
    #[verifier::external_body]
    pub(crate) fn downcast_ref<'b, T: Tid<'ty>>(&'b self) -> (r: Option<&'b T>) {
        (*self.0).downcast_ref::<T>()
    }

    /// Relies on better_any's `TidExt::downcast_mut`: a mutable reference to
    /// the value when it is a `T`.
    #[verifier::external_body]
    pub(crate) fn downcast_mut<'b, T: Tid<'ty>>(&'b mut self) -> (r: Option<&'b mut T>) {
        (*self.0).downcast_mut::<T>()
    }
}

/// A stored value, with the way the context holds it.
pub enum Data<'ty, 'r> {
    Owned(OwnedValue<'ty>),
    Borrowed(SharedValue<'ty, 'r>),
    Mut(ExclusiveValue<'ty, 'r>),
}

impl<'ty, 'r> Data<'ty, 'r> {
    /// How this value is held.
    pub open spec fn mode(&self) -> Mode {
        match self {
            Data::Owned(_) => Mode::Owned,
            Data::Borrowed(_) => Mode::Shared,
            Data::Mut(_) => Mode::Exclusive,
        }
    }

    /// Owns `value`.
    pub fn owned<T: Tid<'ty> + Send + Sync>(value: T) -> (r: Self)
        ensures
            r.mode() == Mode::Owned,
    {
        Data::Owned(OwnedValue::new(value))
    }

    /// Holds a shared borrow of `value`.
    pub fn borrowed<T: Tid<'ty> + Send + Sync>(value: &'r T) -> (r: Self)
        ensures
            r.mode() == Mode::Shared,
    {
        Data::Borrowed(SharedValue::new(value))
    }

    /// Holds an exclusive borrow of `value`.
    pub fn exclusive<T: Tid<'ty> + Send + Sync>(value: &'r mut T) -> (r: Self)
        ensures
            r.mode() == Mode::Exclusive,
    {
        Data::Mut(ExclusiveValue::new(value))
    }

    /// Reports how this value is held.
    pub fn get_mode(&self) -> (r: Mode)
        ensures
            r == self.mode(),
    {
        match self {
            Data::Owned(_) => Mode::Owned,
            Data::Borrowed(_) => Mode::Shared,
            Data::Mut(_) => Mode::Exclusive,
        }
    }

    /// A shared reference to the value when it is a `T`, whatever the mode.
    pub fn downcast_ref<'b, T: Tid<'ty>>(&'b self) -> (r: Option<&'b T>) {
        match self {
            Data::Owned(value) => value.downcast_ref(),
            Data::Borrowed(value) => value.downcast_ref(),
            Data::Mut(value) => value.downcast_ref(),
        }
    }

    /// A mutable reference to the value when it is a `T`. A shared borrow
    /// never gives one.
    pub fn downcast_mut<'b, T: Tid<'ty>>(&'b mut self) -> (r: Option<&'b mut T>)
        ensures
            old(self).mode() == Mode::Shared ==> r is None,
            final(self).mode() == old(self).mode(),
    {
        match self {
            Data::Owned(value) => value.downcast_mut(),
            Data::Mut(value) => value.downcast_mut(),
            _ => None,
        }
    }

    /// The value as an owned `T`: taken out when owned, cloned when
    /// borrowed. When the value is not a `T`, the same stored value comes
    /// back.
    pub fn into_owned<T: Clone + Tid<'ty>>(self) -> (r: Result<T, Self>)
        ensures
            r matches Err(d) ==> d == self,
    {
        match self {
            Data::Owned(value) => match value.downcast::<T>() {
                Ok(v) => Ok(v),
                Err(v) => Err(Data::Owned(v)),
            },
            Data::Borrowed(value) => match value.downcast_ref::<T>() {
                Some(v) => Ok(v.clone()),
                None => Err(Data::Borrowed(value)),
            },
            Data::Mut(value) => match value.downcast_ref::<T>() {
                Some(v) => Ok(v.clone()),
                None => Err(Data::Mut(value)),
            },
        }
    }

    /// Takes the value out when it is owned and is a `T`; otherwise gives
    /// the same stored value back.
    pub fn try_take_owned<T: Tid<'ty>>(self) -> (r: Result<T, Self>)
        ensures
            self.mode() != Mode::Owned ==> r == Err::<T, Self>(self),
            r matches Err(d) ==> d == self,
    {
        match self {
            Data::Owned(value) => match value.downcast::<T>() {
                Ok(v) => Ok(v),
                Err(v) => Err(Data::Owned(v)),
            },
            _ => Err(self),
        }
    }
}

} // verus!
