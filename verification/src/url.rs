//! An opaque string-wrapping identifier naming the origin of a signal.

use vstd::prelude::*;

verus! {

/// An opaque identifier carried by `Exit` and `Disconnect` signals.
#[derive(Debug)]
pub struct Url {
    data: String,
}

impl Clone for Url {
    fn clone(&self) -> (r: Self)
        ensures
            r == *self,
    {
        Url { data: self.data.clone() }
    }
}

impl Url {
    /// The identifier's text, as a sequence of characters.
    pub closed spec fn view(&self) -> Seq<char> {
        self.data@
    }

    pub fn new(url: String) -> (r: Self)
        ensures
            r@ == url@,
    {
        Url { data: url }
    }

    pub fn get_url(&self) -> (r: &String)
        ensures
            r@ == self@,
    {
        &self.data
    }
}

} // verus!
