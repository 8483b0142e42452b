//! The hazard kinds that are tracked, the categorical risk scale and the
//! normalized risk value.

use vstd::prelude::*;

verus! {

/// One of the four severe-weather hazards shown on the dashboard.
#[derive(Clone, Copy, Debug, PartialEq, Eq, Structural, Hash)]
pub enum HazardKind {
    Categorical,
    Tornado,
    Wind,
    Hail,
}

impl HazardKind {
    /// The upstream layer identifier, as a mathematical integer.
    pub open spec fn spec_layer_id(self) -> int {
        match self {
            HazardKind::Categorical => 1,
            HazardKind::Tornado => 3,
            HazardKind::Wind => 5,
            HazardKind::Hail => 7,
        }
    }

    /// The display label, as a sequence of characters.
    pub open spec fn spec_label(self) -> Seq<char> {
        match self {
            HazardKind::Categorical => "categorical"@,
            HazardKind::Tornado => "tornado"@,
            HazardKind::Wind => "wind"@,
            HazardKind::Hail => "hail"@,
        }
    }

    /// The layer identifier in decimal, as a sequence of characters.
    pub open spec fn spec_layer_text(self) -> Seq<char> {
        match self {
            HazardKind::Categorical => "1"@,
            HazardKind::Tornado => "3"@,
            HazardKind::Wind => "5"@,
            HazardKind::Hail => "7"@,
        }
    }

    /// The layer of the outlook query service that answers for this hazard.
    pub fn layer_id(&self) -> (id: i32)
        ensures
            id == self.spec_layer_id(),
    {
        match self {
            HazardKind::Categorical => 1,
            HazardKind::Tornado => 3,
            HazardKind::Wind => 5,
            HazardKind::Hail => 7,
        }
    }

    /// The layer identifier in decimal, as it stands in a query address.
    pub fn layer_text(&self) -> (text: &'static str)
        ensures
            text@ == self.spec_layer_text(),
    {
        match self {
            HazardKind::Categorical => "1",
            HazardKind::Tornado => "3",
            HazardKind::Wind => "5",
            HazardKind::Hail => "7",
        }
    }

    /// The lower-case name under which the hazard is displayed.
    pub fn label(&self) -> (name: &'static str)
        ensures
            name@ == self.spec_label(),
    {
        match self {
            HazardKind::Categorical => "categorical",
            HazardKind::Tornado => "tornado",
            HazardKind::Wind => "wind",
            HazardKind::Hail => "hail",
        }
    }

    /// All four kinds, in display order.
    pub fn all() -> (kinds: [HazardKind; 4])
        ensures
            kinds@ == seq![
                HazardKind::Categorical,
                HazardKind::Tornado,
                HazardKind::Wind,
                HazardKind::Hail,
            ],
    {
        let kinds = [
            HazardKind::Categorical,
            HazardKind::Tornado,
            HazardKind::Wind,
            HazardKind::Hail,
        ];
        proof {
            assert(kinds@ =~= seq![
                HazardKind::Categorical,
                HazardKind::Tornado,
                HazardKind::Wind,
                HazardKind::Hail,
            ]);
        }
        kinds
    }
}

/// The six-level ordinal severity scale of the categorical outlook.
#[derive(Clone, Copy, Debug, PartialEq, Eq, Structural, Hash)]
pub enum RiskCategory {
    Thunderstorms,
    Marginal,
    Slight,
    Enhanced,
    Moderate,
    High,
}

/// The category that a categorical risk code stands for, if any.
pub open spec fn category_of(code: int) -> Option<RiskCategory> {
    if code == 2 {
        Some(RiskCategory::Thunderstorms)
    } else if code == 3 {
        Some(RiskCategory::Marginal)
    } else if code == 4 {
        Some(RiskCategory::Slight)
    } else if code == 5 {
        Some(RiskCategory::Enhanced)
    } else if code == 6 {
        Some(RiskCategory::Moderate)
    } else if code == 7 {
        Some(RiskCategory::High)
    } else {
        None
    }
}

impl RiskCategory {
    /// The ordinal code of the category, from 2 to 7.
    pub open spec fn spec_code(self) -> int {
        match self {
            RiskCategory::Thunderstorms => 2,
            RiskCategory::Marginal => 3,
            RiskCategory::Slight => 4,
            RiskCategory::Enhanced => 5,
            RiskCategory::Moderate => 6,
            RiskCategory::High => 7,
        }
    }

    /// The display label, as a sequence of characters.
    pub open spec fn spec_label(self) -> Seq<char> {
        match self {
            RiskCategory::Thunderstorms => "THUNDERSTORMS"@,
            RiskCategory::Marginal => "MARGINAL"@,
            RiskCategory::Slight => "SLIGHT"@,
            RiskCategory::Enhanced => "ENHANCED"@,
            RiskCategory::Moderate => "MODERATE"@,
            RiskCategory::High => "HIGH"@,
        }
    }

    /// Maps a risk code to its category; codes outside 2 to 7 have none.
    pub fn from_code(code: i32) -> (category: Option<RiskCategory>)
        ensures
            category == category_of(code as int),
            category is Some <==> 2 <= code <= 7,
    {
        match code {
            2 => Some(RiskCategory::Thunderstorms),
            3 => Some(RiskCategory::Marginal),
            4 => Some(RiskCategory::Slight),
            5 => Some(RiskCategory::Enhanced),
            6 => Some(RiskCategory::Moderate),
            7 => Some(RiskCategory::High),
            _ => None,
        }
    }

    /// The ordinal code of the category.
    pub fn code(&self) -> (code: i32)
        ensures
            code == self.spec_code(),
            2 <= code <= 7,
    {
        match self {
            RiskCategory::Thunderstorms => 2,
            RiskCategory::Marginal => 3,
            RiskCategory::Slight => 4,
            RiskCategory::Enhanced => 5,
            RiskCategory::Moderate => 6,
            RiskCategory::High => 7,
        }
    }

    /// The upper-case name under which the category is displayed.
    pub fn label(&self) -> (name: &'static str)
        ensures
            name@ == self.spec_label(),
    {
        match self {
            RiskCategory::Thunderstorms => "THUNDERSTORMS",
            RiskCategory::Marginal => "MARGINAL",
            RiskCategory::Slight => "SLIGHT",
            RiskCategory::Enhanced => "ENHANCED",
            RiskCategory::Moderate => "MODERATE",
            RiskCategory::High => "HIGH",
        }
    }

    /// Whether this category is at least as severe as `other`.
    pub fn at_least(&self, other: &RiskCategory) -> (holds: bool)
        ensures
            holds == (self.spec_code() >= other.spec_code()),
    {
        self.code() >= other.code()
    }
}

/// Codes and categories correspond one to one: the category of a code in 2
/// to 7 has that code, and every category is the category of its own code.
pub proof fn lemma_category_code_round_trip(code: int, category: RiskCategory)
    ensures
        2 <= code <= 7 ==> category_of(code) is Some && category_of(code)->0.spec_code() == code,
        !(2 <= code <= 7) ==> category_of(code) is None,
        category_of(category.spec_code()) == Some(category),
{
}

/// Categories and display labels correspond one to one: two different
/// categories have different labels.
pub proof fn lemma_labels_distinct(first: RiskCategory, second: RiskCategory)
    requires
        first != second,
    ensures
        first.spec_label() != second.spec_label(),
{
    reveal_strlit("THUNDERSTORMS");
    reveal_strlit("MARGINAL");
    reveal_strlit("SLIGHT");
    reveal_strlit("ENHANCED");
    reveal_strlit("MODERATE");
    reveal_strlit("HIGH");
    let a = first.spec_label();
    let b = second.spec_label();
    if a.len() == b.len() {
        assert(a[0] != b[0] || a[1] != b[1]);
    }
}

/// Different categories have different codes.
pub proof fn lemma_codes_distinct(first: RiskCategory, second: RiskCategory)
    requires
        first != second,
    ensures
        first.spec_code() != second.spec_code(),
{
}

/// The normalized risk at the observation point for one hazard.
#[derive(Clone, Copy, Debug, PartialEq, Eq, Structural, Hash)]
pub enum RiskValue {
    /// A level of the categorical scale.
    Categorical(RiskCategory),
    /// The raw risk percentage of a probabilistic layer.
    Percentage(i32),
    /// The categorical layer names no category for the point.
    NoRisk,
}

} // verus!
