//! Ownership of a directory tree.
//!
//! A tree that the current user does not own is given to the user. Whether
//! that is needed is judged from the root of the tree and a sample of what
//! it holds.

use vstd::prelude::*;

use crate::text::push_chars;
use crate::text::string_of;
use crate::text::decimal_text;
use crate::text::write_decimal;

verus! {

/// How many entries of the root are looked at.
pub const OWNERSHIP_SAMPLE: usize = 5;

/// The owner of a file.
#[derive(Clone, Copy, Debug, PartialEq, Eq, Structural)]
pub struct Owner {
    pub uid: u32,
    pub gid: u32,
}

/// The command that gives a tree to an owner.
#[derive(Clone, Debug)]
pub struct ChownCommand {
    pub program: String,
    pub args: Vec<String>,
}

/// Whether the tree counts as owned by `expected`: the root is, and so is
/// every entry among the first five whose owner could be read. A root
/// whose owner cannot be read does not count.
pub open spec fn ownership_ok(root: Option<Owner>, entries: Seq<Option<Owner>>, expected: Owner) -> bool {
    &&& root == Some(expected)
    &&& forall|i: int|
        0 <= i < entries.len() && i < OWNERSHIP_SAMPLE ==> (#[trigger] entries[i] is Some
            ==> entries[i] == Some(expected))
}

/// `uid:gid` in decimal.
pub open spec fn owner_text(owner: Owner) -> Seq<char> {
    decimal_text(owner.uid as nat) + seq![':'] + decimal_text(owner.gid as nat)
}

/// Gives trees to the current user where needed.
#[derive(Clone, Copy, Debug, PartialEq, Eq, Structural)]
pub struct OwnershipFixer;

impl OwnershipFixer {
    /// Whether the tree counts as owned by `expected`, given the owner of
    /// its root and of its entries. `None` stands for an owner that could
    /// not be read.
    pub fn ownership_matches(root: Option<Owner>, entries: &Vec<Option<Owner>>, expected: Owner) -> (r:
        bool)
        ensures
            r == ownership_ok(root, entries@, expected),
    {
        match root {
            Some(o) => {
                if o.uid != expected.uid || o.gid != expected.gid {
                    return false;
                }
            },
            None => {
                return false;
            },
        }
        let mut i: usize = 0;
        while i < entries.len() && i < OWNERSHIP_SAMPLE
            invariant
                i <= entries.len(),
                i <= OWNERSHIP_SAMPLE,
                root == Some(expected),
                forall|j: int|
                    0 <= j < i ==> (#[trigger] entries@[j] is Some ==> entries@[j] == Some(
                        expected,
                    )),
            decreases entries.len() - i,
        {
            match entries[i] {
                Some(o) => {
                    if o.uid != expected.uid || o.gid != expected.gid {
                        assert(entries@[i as int] is Some && entries@[i as int] != Some(expected));
                        return false;
                    }
                },
                None => {},
            }
            i += 1;
        }
        true
    }

    /// The owner as the `chown` command takes it.
    pub fn owner_arg(owner: Owner) -> (r: String)
        ensures
            r@ == owner_text(owner),
    {
        let mut out = write_decimal(owner.uid as u64);
        out.push(':');
        push_chars(&mut out, &write_decimal(owner.gid as u64));
        string_of(&out)
    }

    /// The command to run to give the tree at `path` to `current`, or
    /// nothing where the tree counts as owned already.
    pub fn fix_if_needed(
        path: &str,
        root: Option<Owner>,
        entries: &Vec<Option<Owner>>,
        current: Owner,
    ) -> (r: Option<ChownCommand>)
        ensures
            r is None <==> ownership_ok(root, entries@, current),
            r matches Some(c) ==> c.program@ == "chown"@ && c.args.deep_view() == seq![
                "-R"@,
                owner_text(current),
                path@,
            ],
    {
        if OwnershipFixer::ownership_matches(root, entries, current) {
            return None;
        }
        let mut args: Vec<String> = Vec::new();
        args.push("-R".to_string());
        args.push(OwnershipFixer::owner_arg(current));
        args.push(path.to_string());
        assert(args.deep_view() =~= seq!["-R"@, owner_text(current), path@]);
        Some(ChownCommand { program: "chown".to_string(), args })
    }
}

} // verus!
