//! The fixed capability set used by the convenience entry point.
use vstd::prelude::*;
use crate::capabilities::CapabilitiesView;
use crate::capabilities::ChromeArgs;
use crate::capabilities::DefaultCapabilitiesBuilder;
use crate::capabilities::default_capabilities;
use crate::capabilities::excluded_switches;
use crate::capabilities::launch_args;

verus! {

/// A fixed capability set: the defaults, without the search-engine
/// choice screen switch.
pub fn get_capabilities() -> (r: ChromeArgs)
    ensures
        r.args.deep_view() == launch_args(
            CapabilitiesView { disable_search_engine_choice_screen: false, ..default_capabilities() },
        ),
        r.exclude_switches.deep_view() == excluded_switches(
            CapabilitiesView { disable_search_engine_choice_screen: false, ..default_capabilities() },
        ),
{
    DefaultCapabilitiesBuilder::new().set_disable_search_engine_choice_screen(
        false,
    ).into_chrome_caps()
}

} // verus!
