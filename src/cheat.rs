//! Cheats: records built from scan results.
use vstd::prelude::*;
use vstd::string::StringExecFns;

use crate::text::{hex_text, push_hex};
use crate::types::MemType;

verus! {

/// What a cheat does.
pub enum CheatType {
    /// Holds a value of type `mem_type` at `addr`.
    Simple { addr: u64, mem_type: MemType },
}

/// A one-line summary of a cheat.
pub trait CheatSummary {
    /// The summary's text.
    spec fn summary(&self) -> Seq<char>;

    /// The summary's text.
    fn get_summary(&self) -> (r: String)
        ensures
            r@ == self.summary(),
    ;
}

impl CheatSummary for CheatType {
    /// `[<type label>] 0x<address in 16 hexadecimal digits>`.
    open spec fn summary(&self) -> Seq<char> {
        match self {
            CheatType::Simple { addr, mem_type } => "["@ + mem_type.label_text() + "] 0x"@ + hex_text(
                *addr as nat,
                16,
            ),
        }
    }

    fn get_summary(&self) -> (r: String) {
        proof {
            reveal_strlit("[");
            reveal_strlit("] 0x");
        }
        let mut s = String::new();
        match self {
            CheatType::Simple { addr, mem_type } => {
                s.append("[");
                s.append(mem_type.label());
                s.append("] 0x");
                push_hex(&mut s, *addr, 16);
            },
        }
        proof {
            assert(s@ =~= self.summary());
        }
        s
    }
}

impl CheatType {
    /// The kind of cheat as a front-end shows it: `Simple (<type label>)`.
    pub open spec fn text(&self) -> Seq<char> {
        match self {
            CheatType::Simple { mem_type, .. } => "Simple ("@ + mem_type.label_text() + ")"@,
        }
    }

    /// The kind of cheat as a front-end shows it.
    pub fn describe(&self) -> (r: String)
        ensures
            r@ == self.text(),
    {
        proof {
            reveal_strlit("Simple (");
            reveal_strlit(")");
        }
        let mut s = String::new();
        match self {
            CheatType::Simple { mem_type, .. } => {
                s.append("Simple (");
                s.append(mem_type.label());
                s.append(")");
            },
        }
        proof {
            assert(s@ =~= self.text());
        }
        s
    }
}

/// A named cheat that can be switched on and off.
pub struct Cheat {
    pub enabled: bool,
    pub name: String,
    pub cheat_type: CheatType,
}

impl CheatSummary for Cheat {
    /// The summary of what the cheat does.
    open spec fn summary(&self) -> Seq<char> {
        self.cheat_type.summary()
    }

    fn get_summary(&self) -> (r: String) {
        self.cheat_type.get_summary()
    }
}

} // verus!
