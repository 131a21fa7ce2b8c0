use vstd::prelude::*;
use std::marker::PhantomData;

verus! {

/// A state a player can be in.
pub trait PersonStatus {}

pub struct Alive {}

pub struct Dead {}

impl PersonStatus for Alive {}

impl PersonStatus for Dead {}

/// A player whose state is part of its type.
pub struct Player<S: PersonStatus> {
    name: String,
    health: u8,
    _marker: PhantomData<S>,
}

impl<S: PersonStatus> Player<S> {
    pub closed spec fn name_spec(&self) -> Seq<char> {
        self.name@
    }

    pub closed spec fn health_spec(&self) -> u8 {
        self.health
    }

    pub fn name(&self) -> (r: &String)
        ensures
            r@ == self.name_spec(),
    {
        &self.name
    }

    pub fn health(&self) -> (r: u8)
        ensures
            r == self.health_spec(),
    {
        self.health
    }
}

impl Player<Alive> {
    /// A new player, alive with full health.
    pub fn new(name: String) -> (r: Player<Alive>)
        ensures
            r.name_spec() == name@,
            r.health_spec() == 100,
    {
        Player { name, health: 100, _marker: PhantomData }
    }

    /// The same player, dead: the name stays and the health drops to zero.
    pub fn die(self) -> (r: Player<Dead>)
        ensures
            r.name_spec() == self.name_spec(),
            r.health_spec() == 0,
    {
        Player { name: self.name, health: 0, _marker: PhantomData }
    }
}

} // verus!
