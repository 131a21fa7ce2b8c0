use vstd::prelude::*;
use crate::data::Data;
use type_map::TypeMap as ErasedMap;

verus! {

#[verifier::external_type_specification]
#[verifier::external_body]
pub struct ExErasedMap(ErasedMap);

/// Relies on type_map::TypeMap::new: creates an empty map.
pub assume_specification[ ErasedMap::new ]() -> ErasedMap;

/// Relies on type_map::TypeMap::insert: stores `val` under the type `T`,
/// replacing and returning any earlier value of that type.
pub assume_specification<T: 'static>[ ErasedMap::insert::<T> ](
    m: &mut ErasedMap,
    val: T,
) -> Option<T>;

/// Relies on type_map::TypeMap::get: the value stored under the type `T`, if any.
pub assume_specification<T: 'static>[ ErasedMap::get::<T> ](m: &ErasedMap) -> Option<&T>;

/// A container holding at most one value of each type.
///
/// The values live in `type_map::TypeMap`, which keeps each one as a
/// `Box<dyn Any>` keyed by its `TypeId`: Verus cannot name `dyn Any`, so the
/// erased map is held as an opaque outside type. Nothing about its contents
/// can be stated per type, so `bind`, `get` and `call` carry no `ensures`.
pub struct TypeMap {
    bindings: ErasedMap,
}

impl TypeMap {
    pub fn new() -> (r: TypeMap) {
        TypeMap { bindings: ErasedMap::new() }
    }

    /// Stores `val` as the value of its type, replacing any earlier one.
    pub fn bind<T: 'static>(&mut self, val: T) {
        let _ = self.bindings.insert(val);
    }

    /// The value bound for the type `T`, if any.
    pub fn get<T: 'static>(&self) -> (r: Option<&T>) {
        self.bindings.get::<T>()
    }

    /// Resolves each argument of `callable` by its type and calls it.
    /// Returns false, without calling, when some argument type is not bound.
    pub fn call<F, Args>(&self, callable: F) -> (r: bool) where
        F: Callable<Args>,
        Args: FromTypeMap,

        requires
            forall|args: Args| callable.accepts(args),
    {
        match Args::from_type_map(self) {
            Some(args) => {
                callable.call(args);
                true
            },
            None => false,
        }
    }
}

impl Default for TypeMap {
    fn default() -> (r: TypeMap) {
        TypeMap::new()
    }
}

/// Something that can be called with a tuple of arguments.
pub trait Callable<Args> {
    /// The arguments the call accepts.
    spec fn accepts(&self, args: Args) -> bool;

    fn call(&self, args: Args)
        requires
            self.accepts(args),
    ;
}

impl<Func, A1> Callable<(A1,)> for Func where Func: Fn(A1) {
    open spec fn accepts(&self, args: (A1,)) -> bool {
        self.requires((args.0,))
    }

    fn call(&self, args: (A1,)) {
        let (a1,) = args;
        (self)(a1);
    }
}

impl<Func, A1, A2> Callable<(A1, A2)> for Func where Func: Fn(A1, A2) {
    open spec fn accepts(&self, args: (A1, A2)) -> bool {
        self.requires((args.0, args.1))
    }

    fn call(&self, args: (A1, A2)) {
        let (a1, a2) = args;
        (self)(a1, a2);
    }
}

/// A value that can be resolved out of a `TypeMap` by its type.
pub trait FromTypeMap: Sized {
    /// The resolved value, or `None` when some part of it is not bound.
    fn from_type_map(type_map: &TypeMap) -> Option<Self>;
}

impl FromTypeMap for i32 {
    fn from_type_map(type_map: &TypeMap) -> (r: Option<i32>) {
        match type_map.get::<i32>() {
            Some(v) => Some(*v),
            None => None,
        }
    }
}

impl<A: FromTypeMap> FromTypeMap for (A,) {
    fn from_type_map(type_map: &TypeMap) -> (r: Option<(A,)>) {
        match A::from_type_map(type_map) {
            Some(a) => Some((a,)),
            None => None,
        }
    }
}

impl<A: FromTypeMap, B: FromTypeMap> FromTypeMap for (A, B) {
    fn from_type_map(type_map: &TypeMap) -> (r: Option<(A, B)>) {
        match A::from_type_map(type_map) {
            Some(a) => match B::from_type_map(type_map) {
                Some(b) => Some((a, b)),
                None => None,
            },
            None => None,
        }
    }
}

impl<T: 'static> FromTypeMap for Data<T> {
    fn from_type_map(type_map: &TypeMap) -> (r: Option<Data<T>>) {
        match type_map.get::<Data<T>>() {
            Some(d) => Some(d.clone()),
            None => None,
        }
    }
}

} // verus!
