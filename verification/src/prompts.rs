//! Catalogue of the intake operations' prompts. The prompt sources are
//! bundled with the program; rendering a prompt's variant belongs to the
//! prompt-rendering engine, and this module decides which names the
//! catalogue knows.

use vstd::prelude::*;

use crate::error::IntakeError;
use crate::text::{join2, str_eq};

verus! {

/// Process-wide catalogue of intake prompts: one per intake operation.
pub struct PromptRegistry;

impl PromptRegistry {
    /// The names of the bundled prompts.
    pub open spec fn bundled() -> Seq<Seq<char>> {
        seq!["parse"@]
    }

    /// The names of the bundled prompts, in catalogue order.
    pub fn names() -> (r: Vec<&'static str>)
        ensures
            r@.map_values(|s: &'static str| s@) == Self::bundled(),
    {
        let r = vec!["parse"];
        assert(r@.map_values(|s: &'static str| s@) =~= Self::bundled());
        r
    }

    /// Finds a prompt by name: its position in the catalogue, or a
    /// validation error `unknown prompt: <name>` for a name the catalogue
    /// does not hold.
    pub fn find(name: &str) -> (r: Result<usize, IntakeError>)
        ensures
            r matches Ok(i) ==> 0 <= i < Self::bundled().len() && Self::bundled()[i as int]
                == name@,
            r is Err <==> !Self::bundled().contains(name@),
            r matches Err(e) ==> (e matches IntakeError::Validation(m) && m@ == "unknown prompt: "@
                + name@),
    {
        let names = Self::names();
        let mut i: usize = 0;
        while i < names.len()
            invariant
                names@.map_values(|s: &'static str| s@) == Self::bundled(),
                0 <= i <= names@.len(),
                forall|j: int| 0 <= j < i ==> Self::bundled()[j] != name@,
            decreases names@.len() - i,
        {
            if str_eq(names[i], name) {
                assert(Self::bundled()[i as int] == names@[i as int]@);
                return Ok(i);
            }
            assert(Self::bundled()[i as int] == names@[i as int]@);
            i = i + 1;
        }
        Err(IntakeError::Validation(join2("unknown prompt: ", name)))
    }
}

} // verus!
