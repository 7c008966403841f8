//! Configuration of the remote trace export.

use vstd::prelude::*;

verus! {

/// Where traces are exported to, and the trace that this process continues.
#[derive(Clone, Debug, PartialEq)]
pub struct OtelConfig {
    /// If the tool is called by another service, the trace parent keeps the
    /// context across services.
    pub traceparent: Option<String>,
    /// The collector that traces are exported to.
    pub destination: Option<String>,
}

impl OtelConfig {
    /// The destination, with the trace parent if there is one; nothing
    /// without a destination, even where a trace parent is set.
    pub fn flatten(&self) -> (r: Option<(&String, Option<&String>)>)
        ensures
            match r {
                Some((destination, traceparent)) => {
                    &&& self.destination == Some(*destination)
                    &&& match traceparent {
                        Some(parent) => self.traceparent == Some(*parent),
                        None => self.traceparent is None,
                    }
                },
                None => self.destination is None,
            },
    {
        match &self.destination {
            Some(destination) => Some((destination, self.traceparent.as_ref())),
            None => None,
        }
    }
}

} // verus!
