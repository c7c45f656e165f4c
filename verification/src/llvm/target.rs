//! What the layer keeps of the target that a module is meant for.

use vstd::prelude::*;
use crate::owned::{Disposal, DropInPlace, Owned};

verus! {

/// The description of how a target lays out data in memory.
pub struct DataLayout {
    description: String,
    disposals: Ghost<nat>,
}

impl View for DataLayout {
    type V = Seq<char>;

    /// The description as a string.
    closed spec fn view(&self) -> Seq<char> {
        self.description@
    }
}

impl DropInPlace for DataLayout {
    closed spec fn disposals(&self) -> nat {
        self.disposals@
    }

    /// A data layout holds nothing but its description, which goes away with
    /// it: its disposal is counted and the description stays.
    fn drop_in_place(&mut self, leave: Disposal)
        ensures
            final(self)@ == old(self)@,
    {
        proof {
            self.disposals@ = self.disposals@ + 1;
        }
    }
}

impl DataLayout {
    /// The data layout that `desc` describes.
    pub fn from_string(desc: &str) -> (layout: Owned<DataLayout>)
        ensures
            layout@@ == desc@,
            layout@.disposals() == 0,
    {
        Owned::from_raw(DataLayout { description: desc.to_owned(), disposals: Ghost(0) })
    }

    /// The description of the data layout.
    pub fn as_string(&self) -> (desc: String)
        ensures
            desc@ == self@,
    {
        self.description.clone()
    }
}

/// What a call across the boundary has done, told from the status that it
/// handed back: `value` if the status is zero, which stands for success, and
/// the failure `message` for every other status.
pub fn outcome<T>(status: i32, value: T, message: String) -> (result: Result<T, String>)
    ensures
        status == 0 ==> result == Ok::<T, String>(value),
        status != 0 ==> result == Err::<T, String>(message),
{
    if status == 0 {
        Ok(value)
    } else {
        Err(message)
    }
}

} // verus!
