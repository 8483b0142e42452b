//! Decoding of a hazard-risk response into a risk value.

use vstd::prelude::*;
use crate::error::DecodeError;
use crate::hazard::{category_of, HazardKind, RiskCategory, RiskValue};

verus! {

/// One geospatial record of a hazard response.
#[derive(Clone, Copy, Debug, PartialEq, Eq)]
pub struct Feature {
    /// The attribute `dn`; `None` where the record has no such attribute or
    /// it is no 32-bit integer.
    pub dn: Option<i32>,
}

/// The envelope of a hazard response, as read from the wire.
#[derive(Clone, Debug, PartialEq, Eq)]
pub struct FeatureCollection {
    /// The records under `features`; `None` where the payload has no such
    /// array.
    pub features: Option<Vec<Feature>>,
}

impl FeatureCollection {
    /// Whether the envelope has the expected shape: a `features` array whose
    /// records all carry an integer `dn`.
    pub open spec fn well_shaped(&self) -> bool {
        match self.features {
            Some(features) => forall|i: int|
                0 <= i < features@.len() ==> (#[trigger] features@[i]).dn is Some,
            None => false,
        }
    }

    /// The codes of the records, in order. Meaningful on well-shaped envelopes.
    pub open spec fn codes(&self) -> Seq<int> {
        match self.features {
            Some(features) => Seq::new(features@.len(), |i: int| features@[i].dn->0 as int),
            None => Seq::empty(),
        }
    }
}

/// The risk that a sequence of record codes stands for, under a hazard kind:
/// the first code decides, and no record means no risk.
pub open spec fn risk_of_codes(codes: Seq<int>, kind: HazardKind) -> Result<RiskValue, DecodeError> {
    if kind == HazardKind::Categorical {
        if codes.len() == 0 {
            Ok(RiskValue::NoRisk)
        } else {
            match category_of(codes[0]) {
                Some(category) => Ok(RiskValue::Categorical(category)),
                None => Err(DecodeError::UnknownCategory(codes[0] as i32)),
            }
        }
    } else {
        if codes.len() == 0 {
            Ok(RiskValue::Percentage(0))
        } else {
            Ok(RiskValue::Percentage(codes[0] as i32))
        }
    }
}

/// What decoding an envelope yields.
pub open spec fn decode_risk(payload: FeatureCollection, kind: HazardKind) -> Result<
    RiskValue,
    DecodeError,
> {
    if payload.well_shaped() {
        risk_of_codes(payload.codes(), kind)
    } else {
        Err(DecodeError::Malformed)
    }
}

/// Decoder of hazard-risk responses.
pub struct RiskCodec;

impl RiskCodec {
    /// Decodes a hazard response for the given kind. An envelope that is not
    /// well shaped is malformed; otherwise the first record decides, and an
    /// empty envelope means no risk.
    pub fn decode(payload: &FeatureCollection, kind: HazardKind) -> (risk: Result<
        RiskValue,
        DecodeError,
    >)
        ensures
            risk == decode_risk(*payload, kind),
            risk is Ok <==> payload.well_shaped() && (kind == HazardKind::Categorical
                && payload.codes().len() > 0 ==> 2 <= payload.codes()[0] <= 7),
            risk matches Ok(RiskValue::Categorical(_)) ==> kind == HazardKind::Categorical,
    {
        let features = match &payload.features {
            Some(features) => features,
            None => {
                return Err(DecodeError::Malformed);
            },
        };
        let mut i: usize = 0;
        while i < features.len()
            invariant
                payload.features == Some(*features),
                i <= features@.len(),
                forall|j: int| 0 <= j < i ==> (#[trigger] features@[j]).dn is Some,
            decreases features@.len() - i,
        {
            if features[i].dn.is_none() {
                assert(features@[i as int].dn is None);
                return Err(DecodeError::Malformed);
            }
            i += 1;
        }
        if features.len() == 0 {
            return Ok(
                match kind {
                    HazardKind::Categorical => RiskValue::NoRisk,
                    _ => RiskValue::Percentage(0),
                },
            );
        }
        let dn: i32 = match features[0].dn {
            Some(dn) => dn,
            None => 0,
        };
        match kind {
            HazardKind::Categorical => match RiskCategory::from_code(dn) {
                Some(category) => Ok(RiskValue::Categorical(category)),
                None => Err(DecodeError::UnknownCategory(dn)),
            },
            _ => Ok(RiskValue::Percentage(dn)),
        }
    }
}

/// On a categorical payload whose first record has a code from 2 to 7,
/// decoding yields the category with that code, and with it that category's
/// display label.
pub proof fn lemma_categorical_codes_decode(payload: FeatureCollection, code: int)
    requires
        payload.well_shaped(),
        payload.codes().len() > 0,
        payload.codes()[0] == code,
        2 <= code <= 7,
    ensures
        decode_risk(payload, HazardKind::Categorical) matches Ok(RiskValue::Categorical(category))
            && category.spec_code() == code && category_of(code) == Some(category),
{
}

/// Without records a well-shaped payload never fails: it decodes to no
/// category for the categorical kind and to zero percent for every other.
pub proof fn lemma_no_records_no_risk(payload: FeatureCollection, kind: HazardKind)
    requires
        payload.well_shaped(),
        payload.codes().len() == 0,
    ensures
        kind == HazardKind::Categorical ==> decode_risk(payload, kind) == Ok::<
            RiskValue,
            DecodeError,
        >(RiskValue::NoRisk),
        kind != HazardKind::Categorical ==> decode_risk(payload, kind) == Ok::<
            RiskValue,
            DecodeError,
        >(RiskValue::Percentage(0)),
{
}

/// A categorical payload whose first record has a code outside 2 to 7 fails
/// with that code.
pub proof fn lemma_unknown_code_rejected(payload: FeatureCollection, code: i32)
    requires
        payload.well_shaped(),
        payload.codes().len() > 0,
        payload.codes()[0] == code,
        !(2 <= code <= 7),
    ensures
        decode_risk(payload, HazardKind::Categorical) == Err::<RiskValue, DecodeError>(
            DecodeError::UnknownCategory(code),
        ),
{
}

/// A kind other than the categorical one never decodes to a category, and
/// passes the first record's code through as the percentage.
pub proof fn lemma_percentage_passes_through(payload: FeatureCollection, kind: HazardKind)
    requires
        payload.well_shaped(),
        kind != HazardKind::Categorical,
    ensures
        decode_risk(payload, kind) matches Ok(RiskValue::Percentage(p)) && p == (
        if payload.codes().len() == 0 {
            0
        } else {
            payload.codes()[0]
        }),
{
}

} // verus!
