//! The outlook map that is on display.

use vstd::prelude::*;

verus! {

/// One of the four static outlook maps.
#[derive(Clone, Copy, Debug, PartialEq, Eq, Structural, Hash)]
pub enum OutlookVariant {
    CategoricalMap,
    TornadoMap,
    WindMap,
    HailMap,
}

impl OutlookVariant {
    /// The image reference of the map, as a sequence of characters.
    pub open spec fn spec_image_url(self) -> Seq<char> {
        match self {
            OutlookVariant::CategoricalMap => "https://www.spc.noaa.gov/products/outlook/day1otlk.gif"@,
            OutlookVariant::TornadoMap => "https://www.spc.noaa.gov/products/outlook/day1probotlk_torn.gif"@,
            OutlookVariant::WindMap => "https://www.spc.noaa.gov/products/outlook/day1probotlk_wind.gif"@,
            OutlookVariant::HailMap => "https://www.spc.noaa.gov/products/outlook/day1probotlk_hail.gif"@,
        }
    }

    /// The image reference of the map.
    pub fn image_url(&self) -> (url: &'static str)
        ensures
            url@ == self.spec_image_url(),
    {
        match self {
            OutlookVariant::CategoricalMap => "https://www.spc.noaa.gov/products/outlook/day1otlk.gif",
            OutlookVariant::TornadoMap => "https://www.spc.noaa.gov/products/outlook/day1probotlk_torn.gif",
            OutlookVariant::WindMap => "https://www.spc.noaa.gov/products/outlook/day1probotlk_wind.gif",
            OutlookVariant::HailMap => "https://www.spc.noaa.gov/products/outlook/day1probotlk_hail.gif",
        }
    }
}

/// Holder of the one outlook map that is selected.
#[derive(Clone, Copy, Debug, PartialEq, Eq, Structural, Hash)]
pub struct OutlookSelection {
    pub variant: OutlookVariant,
}

impl OutlookSelection {
    /// A selection that shows the categorical map.
    pub fn new() -> (selection: OutlookSelection)
        ensures
            selection.variant == OutlookVariant::CategoricalMap,
    {
        OutlookSelection { variant: OutlookVariant::CategoricalMap }
    }

    /// Makes `variant` the selected map.
    pub fn select(&mut self, variant: OutlookVariant)
        ensures
            final(self).variant == variant,
    {
        self.variant = variant;
    }

    /// The selected map.
    pub fn current(&self) -> (variant: OutlookVariant)
        ensures
            variant == self.variant,
    {
        self.variant
    }
}

/// What the outlook panel shows: the reference of the selected image.
#[derive(Clone, Debug, PartialEq, Eq)]
pub struct AppState {
    pub outlook_url: String,
}

impl AppState {
    /// The state at start: the categorical map is shown.
    pub fn new() -> (state: AppState)
        ensures
            state.outlook_url@ == OutlookVariant::CategoricalMap.spec_image_url(),
    {
        AppState::showing(OutlookVariant::CategoricalMap)
    }

    /// The state in which the given map is shown.
    pub fn showing(variant: OutlookVariant) -> (state: AppState)
        ensures
            state.outlook_url@ == variant.spec_image_url(),
    {
        AppState { outlook_url: String::from_str(variant.image_url()) }
    }
}

} // verus!
