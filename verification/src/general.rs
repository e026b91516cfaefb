//! The general tab: the list of the mods that the game has loaded.

use vstd::prelude::*;
use crossbeam_channel::Receiver;
use crate::channel::{accept, buffer_after, drain, drained, keeps_draining, Polled};
use crate::data::bepinex_mod::BepInExMod;

verus! {

/// The general tab.
pub struct GeneralTab {
    mod_receiver: Receiver<BepInExMod>,
    mods: Vec<BepInExMod>,
}

impl View for GeneralTab {
    type V = Seq<BepInExMod>;

    /// The mods received so far, in the order of arrival.
    closed spec fn view(&self) -> Seq<BepInExMod> {
        self.mods@
    }
}

impl GeneralTab {
    /// The channel that the tab polls for mods.
    pub closed spec fn mod_receiver(&self) -> Receiver<BepInExMod> {
        self.mod_receiver
    }

    /// A tab that has received no mod yet and polls `mods_receiver`.
    pub fn new(mods_receiver: Receiver<BepInExMod>) -> (r: Self)
        ensures
            r@.len() == 0,
            r.mod_receiver() == mods_receiver,
    {
        Self { mod_receiver: mods_receiver, mods: Vec::new() }
    }

    pub fn name(&self) -> (r: &'static str)
        ensures
            r@ == "General"@,
    {
        "General"
    }

    /// The mods received so far. While there is none the tab shows a
    /// loading text in place of the list.
    pub fn mods(&self) -> (r: &Vec<BepInExMod>)
        ensures
            r@ == self@,
    {
        &self.mods
    }

    /// Takes one outcome of a poll of the mod channel into the list, and
    /// says whether to poll again.
    pub fn accept_mod(&mut self, polled: Polled<BepInExMod>) -> (more: bool)
        ensures
            final(self)@ == buffer_after(old(self)@, polled),
            final(self).mod_receiver() == old(self).mod_receiver(),
            more == keeps_draining(polled),
    {
        accept(&mut self.mods, polled)
    }

    /// Appends every mod that waits in the channel, in the order of
    /// arrival, and returns how many there were. The mods that were there
    /// stay in front, and the tab goes on polling the same channel.
    pub fn update_mod_receiver(&mut self) -> (taken: usize)
        ensures
            final(self).mod_receiver() == old(self).mod_receiver(),
            final(self)@.len() == old(self)@.len() + taken,
            final(self)@.subrange(0, old(self)@.len() as int) == old(self)@,
            exists|outcomes: Seq<Polled<BepInExMod>>| final(self)@ == drained(old(self)@, outcomes),
    {
        drain(&self.mod_receiver, &mut self.mods)
    }
}

} // verus!
