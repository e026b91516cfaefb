//! A mod that the game has loaded.

use vstd::prelude::*;
use vstd::string::StringExecFns;

verus! {

/// A loaded mod: its name and its version, both as the loader reported them.
pub struct BepInExMod {
    name: String,
    version: String,
}

/// What a [`BepInExMod`] holds.
pub struct ModView {
    pub name: Seq<char>,
    pub version: Seq<char>,
}

impl View for BepInExMod {
    type V = ModView;

    closed spec fn view(&self) -> ModView {
        ModView { name: self.name@, version: self.version@ }
    }
}

impl ModView {
    /// The one-line label of a mod: name, a space, version.
    pub open spec fn label(self) -> Seq<char> {
        self.name + seq![' '] + self.version
    }

    /// The entry that stands for "no mod chosen": both texts empty.
    pub open spec fn is_sentinel(self) -> bool {
        self.name.len() == 0 && self.version.len() == 0
    }
}

impl BepInExMod {
    pub fn new(name: &str, version: &str) -> (r: Self)
        ensures
            r@.name == name@,
            r@.version == version@,
    {
        Self { name: name.to_owned(), version: version.to_owned() }
    }

    pub fn name(&self) -> (r: &str)
        ensures
            r@ == self@.name,
    {
        self.name.as_str()
    }

    pub fn version(&self) -> (r: &str)
        ensures
            r@ == self@.version,
    {
        self.version.as_str()
    }

    /// The label shown in the list of loaded mods.
    pub fn to_string(&self) -> (r: String)
        ensures
            r@ == self@.label(),
    {
        let mut out = self.name.clone();
        proof {
            reveal_strlit(" ");
        }
        assert(" "@ =~= seq![' ']);
        out.append(" ");
        out.append(self.version.as_str());
        out
    }
}

} // verus!
