//! Configure network.

use vstd::prelude::*;

mod pasta;

pub use pasta::{pasta_cmdline, Pasta};

verus! {

/// The network mode of a new Network namespace.
#[derive(PartialEq, Eq, Clone, Debug)]
pub enum Network {
    Pasta(Pasta),
}

/// What a network mode holds.
pub enum NetworkView {
    Pasta { program: Seq<char>, args: Seq<Seq<char>> },
}

impl View for Network {
    type V = NetworkView;

    open spec fn view(&self) -> NetworkView {
        match self {
            Network::Pasta(p) => NetworkView::Pasta { program: p.spec_program(), args: p.spec_args() },
        }
    }
}

impl Network {
    /// A network mode with the same configuration.
    pub fn duplicate(&self) -> (r: Network)
        ensures
            r@ == self@,
    {
        match self {
            Network::Pasta(p) => Network::Pasta(p.duplicate()),
        }
    }
}

impl From<Pasta> for Network {
    fn from(val: Pasta) -> (r: Self) {
        Self::Pasta(val)
    }
}

impl vstd::std_specs::convert::FromSpecImpl<Pasta> for Network {
    open spec fn obeys_from_spec() -> bool {
        true
    }

    open spec fn from_spec(v: Pasta) -> Network {
        Network::Pasta(v)
    }
}

} // verus!
