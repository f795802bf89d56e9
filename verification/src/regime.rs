//! Flow regimes, the orientations that own them, and the model that resolves
//! each regime.

use vstd::prelude::*;
use crate::error::SolveError;

verus! {

/// The direction of the pipe segment.
#[derive(Clone, Copy, Debug, PartialEq, Eq, Structural)]
pub enum Orientation {
    Horizontal,
    VerticalUp,
    VerticalDown,
}

/// A flow pattern. Every tag but `NONE` belongs to one orientation; `NONE`
/// marks a segment that has not been classified.
#[allow(non_camel_case_types)]
#[derive(Clone, Copy, Debug, PartialEq, Eq, Structural)]
pub enum Regime {
    VerticalUpAnnularFlow,
    VerticalUpBubbleFlow,
    VerticalUpSlugAndChurnFlow,
    VerticalUpFinelyDispersedBubbleFlow,
    HorizontalStratifiedSmoothFlow,
    HorizontalStratifiedWavyFlow,
    HorizontalAnnularDispersedFlow,
    HorizontalElongatedBubbleFlow,
    HorizontalIntermittentSlugFlow,
    HorizontalDispersedBubbleFlow,
    VerticalDownAnnularFlow,
    VerticalDownSlugFlow,
    VerticalDownDispersedBubbleFlow,
    NONE,
}

/// The correlation that turns a classified segment into hydraulic results.
#[derive(Clone, Copy, Debug, PartialEq, Eq, Structural)]
pub enum Model {
    /// Horizontal stratified flow: equilibrium liquid level by bisection.
    Stratified,
    /// Similarity analysis: gas holdup by damped fixed point.
    SimilarityAnalysis,
    /// Horizontal slug flow: film-end holdup by damped fixed point.
    HorizontalSlug,
    /// Upward slug and churn flow: Taylor-bubble void fraction by
    /// Newton-Raphson.
    SlugAndChurn,
    /// Upward bubble flow: void fraction by damped fixed point.
    Bubble,
    /// Downward annular flow: liquid holdup by Newton-Raphson.
    DownwardAnnular,
    /// Downward slug flow, in closed form.
    DownwardSlug,
    /// Downward dispersed-bubble flow, in closed form.
    DownwardBubble,
}

impl Regime {
    /// The orientation that owns the tag; `None` for `NONE`.
    pub open spec fn owner(self) -> Option<Orientation> {
        match self {
            Regime::VerticalUpAnnularFlow
            | Regime::VerticalUpBubbleFlow
            | Regime::VerticalUpSlugAndChurnFlow
            | Regime::VerticalUpFinelyDispersedBubbleFlow => Some(Orientation::VerticalUp),
            Regime::HorizontalStratifiedSmoothFlow
            | Regime::HorizontalStratifiedWavyFlow
            | Regime::HorizontalAnnularDispersedFlow
            | Regime::HorizontalElongatedBubbleFlow
            | Regime::HorizontalIntermittentSlugFlow
            | Regime::HorizontalDispersedBubbleFlow => Some(Orientation::Horizontal),
            Regime::VerticalDownAnnularFlow
            | Regime::VerticalDownSlugFlow
            | Regime::VerticalDownDispersedBubbleFlow => Some(Orientation::VerticalDown),
            Regime::NONE => None,
        }
    }

    /// The canonical name of the tag; empty for `NONE`.
    pub open spec fn name(self) -> Seq<char> {
        match self {
            Regime::VerticalUpAnnularFlow => "Vertical Up Annular Flow"@,
            Regime::VerticalUpBubbleFlow => "Vertical Up Bubble Flow"@,
            Regime::VerticalUpSlugAndChurnFlow => "Vertical Up Slug and Churn Flow"@,
            Regime::VerticalUpFinelyDispersedBubbleFlow => "Vertical Up Finely Dispersed Bubble Flow"@,
            Regime::HorizontalStratifiedSmoothFlow => "Stratified Smooth Flow"@,
            Regime::HorizontalStratifiedWavyFlow => "Stratified Wavy Flow"@,
            Regime::HorizontalAnnularDispersedFlow => "Annular-Dispersed Flow"@,
            Regime::HorizontalElongatedBubbleFlow => "Elongated Bubble Flow"@,
            Regime::HorizontalIntermittentSlugFlow => "Intermittent-Slug Flow"@,
            Regime::HorizontalDispersedBubbleFlow => "Dispersed Bubble Flow"@,
            Regime::VerticalDownAnnularFlow => "Annular Flow"@,
            Regime::VerticalDownSlugFlow => "Slug Flow"@,
            Regime::VerticalDownDispersedBubbleFlow => "Dispersed-Bubble Flow"@,
            Regime::NONE => ""@,
        }
    }

    /// The model that resolves the tag; `None` for `NONE`.
    pub open spec fn model(self) -> Option<Model> {
        match self {
            Regime::VerticalUpAnnularFlow => Some(Model::SimilarityAnalysis),
            Regime::VerticalUpBubbleFlow => Some(Model::Bubble),
            Regime::VerticalUpSlugAndChurnFlow => Some(Model::SlugAndChurn),
            Regime::VerticalUpFinelyDispersedBubbleFlow => Some(Model::Bubble),
            Regime::HorizontalStratifiedSmoothFlow => Some(Model::Stratified),
            Regime::HorizontalStratifiedWavyFlow => Some(Model::Stratified),
            Regime::HorizontalAnnularDispersedFlow => Some(Model::SimilarityAnalysis),
            Regime::HorizontalElongatedBubbleFlow => Some(Model::HorizontalSlug),
            Regime::HorizontalIntermittentSlugFlow => Some(Model::HorizontalSlug),
            Regime::HorizontalDispersedBubbleFlow => Some(Model::SimilarityAnalysis),
            Regime::VerticalDownAnnularFlow => Some(Model::DownwardAnnular),
            Regime::VerticalDownSlugFlow => Some(Model::DownwardSlug),
            Regime::VerticalDownDispersedBubbleFlow => Some(Model::DownwardBubble),
            Regime::NONE => None,
        }
    }

    /// The orientation that owns the tag; `None` for `NONE`.
    pub fn orientation(&self) -> (o: Option<Orientation>)
        ensures
            o == self.owner(),
    {
        match self {
            Regime::VerticalUpAnnularFlow
            | Regime::VerticalUpBubbleFlow
            | Regime::VerticalUpSlugAndChurnFlow
            | Regime::VerticalUpFinelyDispersedBubbleFlow => Some(Orientation::VerticalUp),
            Regime::HorizontalStratifiedSmoothFlow
            | Regime::HorizontalStratifiedWavyFlow
            | Regime::HorizontalAnnularDispersedFlow
            | Regime::HorizontalElongatedBubbleFlow
            | Regime::HorizontalIntermittentSlugFlow
            | Regime::HorizontalDispersedBubbleFlow => Some(Orientation::Horizontal),
            Regime::VerticalDownAnnularFlow
            | Regime::VerticalDownSlugFlow
            | Regime::VerticalDownDispersedBubbleFlow => Some(Orientation::VerticalDown),
            Regime::NONE => None,
        }
    }

    /// The canonical name of the tag; empty for `NONE`.
    pub fn label(&self) -> (s: &'static str)
        ensures
            s@ == self.name(),
    {
        match self {
            Regime::VerticalUpAnnularFlow => "Vertical Up Annular Flow",
            Regime::VerticalUpBubbleFlow => "Vertical Up Bubble Flow",
            Regime::VerticalUpSlugAndChurnFlow => "Vertical Up Slug and Churn Flow",
            Regime::VerticalUpFinelyDispersedBubbleFlow => "Vertical Up Finely Dispersed Bubble Flow",
            Regime::HorizontalStratifiedSmoothFlow => "Stratified Smooth Flow",
            Regime::HorizontalStratifiedWavyFlow => "Stratified Wavy Flow",
            Regime::HorizontalAnnularDispersedFlow => "Annular-Dispersed Flow",
            Regime::HorizontalElongatedBubbleFlow => "Elongated Bubble Flow",
            Regime::HorizontalIntermittentSlugFlow => "Intermittent-Slug Flow",
            Regime::HorizontalDispersedBubbleFlow => "Dispersed Bubble Flow",
            Regime::VerticalDownAnnularFlow => "Annular Flow",
            Regime::VerticalDownSlugFlow => "Slug Flow",
            Regime::VerticalDownDispersedBubbleFlow => "Dispersed-Bubble Flow",
            Regime::NONE => "",
        }
    }
}

/// The model that `orientation` runs for `regime`: the tag's own model when
/// the orientation owns the tag, and none otherwise.
pub open spec fn matching_model(orientation: Orientation, regime: Regime) -> Option<Model> {
    if regime.owner() == Some(orientation) {
        regime.model()
    } else {
        None
    }
}

/// Picks the model that `orientation` runs for `regime`.
///
/// Fails with `NoMatchingModel` exactly when the orientation does not own the
/// tag, which includes the unclassified `NONE`.
pub fn model_for(orientation: Orientation, regime: Regime) -> (r: Result<Model, SolveError>)
    ensures
        match matching_model(orientation, regime) {
            Some(m) => r == Ok::<Model, SolveError>(m),
            None => r == Err::<Model, SolveError>(SolveError::NoMatchingModel),
        },
{
    let owner = regime.orientation();
    let owned = match owner {
        Some(o) => o == orientation,
        None => false,
    };
    if !owned {
        return Err(SolveError::NoMatchingModel);
    }
    match regime {
        Regime::VerticalUpAnnularFlow => Ok(Model::SimilarityAnalysis),
        Regime::VerticalUpBubbleFlow => Ok(Model::Bubble),
        Regime::VerticalUpSlugAndChurnFlow => Ok(Model::SlugAndChurn),
        Regime::VerticalUpFinelyDispersedBubbleFlow => Ok(Model::Bubble),
        Regime::HorizontalStratifiedSmoothFlow => Ok(Model::Stratified),
        Regime::HorizontalStratifiedWavyFlow => Ok(Model::Stratified),
        Regime::HorizontalAnnularDispersedFlow => Ok(Model::SimilarityAnalysis),
        Regime::HorizontalElongatedBubbleFlow => Ok(Model::HorizontalSlug),
        Regime::HorizontalIntermittentSlugFlow => Ok(Model::HorizontalSlug),
        Regime::HorizontalDispersedBubbleFlow => Ok(Model::SimilarityAnalysis),
        Regime::VerticalDownAnnularFlow => Ok(Model::DownwardAnnular),
        Regime::VerticalDownSlugFlow => Ok(Model::DownwardSlug),
        Regime::VerticalDownDispersedBubbleFlow => Ok(Model::DownwardBubble),
        Regime::NONE => Err(SolveError::NoMatchingModel),
    }
}

/// Every tag that an orientation owns has a model there: a classified segment
/// never meets `NoMatchingModel`.
pub proof fn owned_regime_has_model(orientation: Orientation, regime: Regime)
    requires
        regime.owner() == Some(orientation),
    ensures
        matching_model(orientation, regime) is Some,
{
}

} // verus!
