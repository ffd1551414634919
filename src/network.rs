//! Modes of the network statistics view.
use vstd::prelude::*;

verus! {

/// Sort order of the device list.
#[derive(Clone, Copy, Debug, PartialEq, Eq, Default, Structural)]
pub enum SortBy {
    /// Received plus sent bytes, descending.
    #[default]
    Traffic,
    /// Errors plus dropped packets, descending.
    Errors,
}

impl SortBy {
    /// "TRAFFIC" or "ERRORS".
    pub fn label(&self) -> (r: &'static str)
        ensures
            r@ == match *self {
                SortBy::Traffic => "TRAFFIC"@,
                SortBy::Errors => "ERRORS"@,
            },
    {
        match self {
            SortBy::Traffic => "TRAFFIC",
            SortBy::Errors => "ERRORS",
        }
    }
}

/// Which view of the network statistics is shown.
#[derive(Clone, Copy, Debug, PartialEq, Eq, Default, Structural)]
pub enum ViewMode {
    /// The interfaces.
    #[default]
    Interfaces,
    /// The connections, drilled down from the interfaces.
    Connections,
}

/// Sort order of the connection list.
#[derive(Clone, Copy, Debug, PartialEq, Eq, Default, Structural)]
pub enum ConnSortBy {
    /// By connection state.
    #[default]
    State,
    /// By local port.
    Port,
}

} // verus!
