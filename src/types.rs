use vstd::prelude::*;

verus! {

/// A record of the demonstration API: a person and what they like to eat.
#[derive(Debug, Clone, PartialEq, Eq)]
pub struct Person {
    pub name: String,
    pub age: u32,
    pub favorite_food: Option<String>,
}

} // verus!
