//! Paths of the modules, traits and structs that generated code refers to.
use vstd::prelude::*;

verus! {

pub open spec fn lavish_path() -> Seq<char> {
    "::lavish"@
}

pub open spec fn io_path() -> Seq<char> {
    "::std::io"@
}

pub open spec fn facts_path() -> Seq<char> {
    lavish_path() + "::facts"@
}

pub open spec fn chrono_path() -> Seq<char> {
    lavish_path() + "::chrono"@
}

pub open spec fn collections_path() -> Seq<char> {
    "::std::collections"@
}

pub open spec fn sync_path() -> Seq<char> {
    "::std::sync"@
}

pub open spec fn es_path() -> Seq<char> {
    lavish_path() + "::erased_serde"@
}

pub open spec fn serde_path() -> Seq<char> {
    lavish_path() + "::serde"@
}

pub open spec fn serde_derive_path() -> Seq<char> {
    lavish_path() + "::serde_derive"@
}

/// `base` followed by `suffix`, as a new string.
fn joined(base: String, suffix: &str) -> (r: String)
    ensures
        r@ == base@ + suffix@,
{
    let mut r = base;
    r.append(suffix);
    r
}

/// Modules.
pub struct Mods {}

impl Mods {
    pub fn lavish() -> (r: String)
        ensures
            r@ == lavish_path(),
    {
        String::from_str("::lavish")
    }

    pub fn io() -> (r: String)
        ensures
            r@ == io_path(),
    {
        String::from_str("::std::io")
    }

    pub fn facts() -> (r: String)
        ensures
            r@ == facts_path(),
    {
        joined(Self::lavish(), "::facts")
    }

    pub fn chrono() -> (r: String)
        ensures
            r@ == chrono_path(),
    {
        joined(Self::lavish(), "::chrono")
    }

    pub fn collections() -> (r: String)
        ensures
            r@ == collections_path(),
    {
        String::from_str("::std::collections")
    }

    pub fn sync() -> (r: String)
        ensures
            r@ == sync_path(),
    {
        String::from_str("::std::sync")
    }

    pub fn es() -> (r: String)
        ensures
            r@ == es_path(),
    {
        joined(Self::lavish(), "::erased_serde")
    }

    pub fn serde() -> (r: String)
        ensures
            r@ == serde_path(),
    {
        joined(Self::lavish(), "::serde")
    }

    pub fn serde_derive() -> (r: String)
        ensures
            r@ == serde_derive_path(),
    {
        joined(Self::lavish(), "::serde_derive")
    }
}

/// Traits.
pub struct Traits {}

#[allow(non_snake_case)]
impl Traits {
    pub fn Serialize() -> (r: String)
        ensures
            r@ == serde_derive_path() + "::Serialize"@,
    {
        joined(Mods::serde_derive(), "::Serialize")
    }

    pub fn Deserialize() -> (r: String)
        ensures
            r@ == serde_derive_path() + "::Deserialize"@,
    {
        joined(Mods::serde_derive(), "::Deserialize")
    }

    pub fn Factual() -> (r: String)
        ensures
            r@ == facts_path() + "::Factual"@,
    {
        joined(Mods::facts(), "::Factual")
    }

    pub fn Atom() -> (r: String)
        ensures
            r@ == lavish_path() + "::Atom"@,
    {
        joined(Mods::lavish(), "::Atom")
    }

    pub fn Read() -> (r: String)
        ensures
            r@ == io_path() + "::Read"@,
    {
        joined(Mods::io(), "::Read")
    }

    pub fn Write() -> (r: String)
        ensures
            r@ == io_path() + "::Write"@,
    {
        joined(Mods::io(), "::Write")
    }
}

/// Structs.
pub struct Structs {}

#[allow(non_snake_case)]
impl Structs {
    pub fn Deserializer() -> (r: String)
        ensures
            r@ == es_path() + "::Deserializer"@,
    {
        joined(Mods::es(), "::Deserializer")
    }

    pub fn Error() -> (r: String)
        ensures
            r@ == lavish_path() + "::Error"@,
    {
        joined(Mods::lavish(), "::Error")
    }

    pub fn FactsError() -> (r: String)
        ensures
            r@ == facts_path() + "::Error"@,
    {
        joined(Mods::facts(), "::Error")
    }

    pub fn Arc() -> (r: String)
        ensures
            r@ == sync_path() + "::Arc"@,
    {
        joined(Mods::sync(), "::Arc")
    }

    pub fn HashMap() -> (r: String)
        ensures
            r@ == collections_path() + "::HashMap"@,
    {
        joined(Mods::collections(), "::HashMap")
    }
}

} // verus!
