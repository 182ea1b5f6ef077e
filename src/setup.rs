//! What the configuring step of construction does, decided from the
//! caller's arguments: the scripts to register, the request filter for the
//! custom protocol, and the URL of the initial navigation.
use vstd::prelude::*;
use crate::bridge::opt_view;
use crate::protocol::{filter_of, navigation_target_of, navigation_url, request_filter};
use crate::scripts::{document_created_scripts, injection_order, views};

verus! {

/// A navigation target as plain values: the URL's serialization and its
/// scheme, which that serialization starts with, followed by `:`.
pub struct NavigationTarget {
    pub url: String,
    pub scheme: String,
}

/// The configuring step's work list.
pub struct Setup {
    /// Scripts to register for every document, in order.
    pub scripts: Vec<String>,
    /// The request filter to register, when a custom protocol is given.
    pub filter: Option<String>,
    /// Where to navigate, when an initial URL is given.
    pub navigate_to: Option<String>,
}

/// Works out the configuring step from the scripts, the initial navigation
/// target and the name of the custom protocol.
pub fn plan_setup(
    scripts: &Vec<String>,
    target: &Option<NavigationTarget>,
    custom: &Option<String>,
) -> (r: Setup)
    ensures
        views(r.scripts@) == injection_order(views(scripts@)),
        opt_view(r.filter) == match custom {
            Some(n) => Some(filter_of(n@)),
            None => None::<Seq<char>>,
        },
        opt_view(r.navigate_to) == match target {
            Some(t) => Some(navigation_target_of(t.url@, t.scheme@, opt_view(*custom))),
            None => None::<Seq<char>>,
        },
{
    let filter = match custom {
        Some(n) => Some(request_filter(n.as_str())),
        None => None,
    };
    let navigate_to = match target {
        Some(t) => Some(navigation_url(t.url.as_str(), t.scheme.as_str(), custom)),
        None => None,
    };
    Setup { scripts: document_created_scripts(scripts), filter, navigate_to }
}

} // verus!
