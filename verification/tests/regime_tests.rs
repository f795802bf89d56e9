use twophase::error::SolveError;
use twophase::regime::{model_for, Model, Orientation, Regime};

const ALL: [Regime; 14] = [
    Regime::VerticalUpAnnularFlow,
    Regime::VerticalUpBubbleFlow,
    Regime::VerticalUpSlugAndChurnFlow,
    Regime::VerticalUpFinelyDispersedBubbleFlow,
    Regime::HorizontalStratifiedSmoothFlow,
    Regime::HorizontalStratifiedWavyFlow,
    Regime::HorizontalAnnularDispersedFlow,
    Regime::HorizontalElongatedBubbleFlow,
    Regime::HorizontalIntermittentSlugFlow,
    Regime::HorizontalDispersedBubbleFlow,
    Regime::VerticalDownAnnularFlow,
    Regime::VerticalDownSlugFlow,
    Regime::VerticalDownDispersedBubbleFlow,
    Regime::NONE,
];

#[test]
fn labels_are_the_canonical_names() {
    let names = [
        "Vertical Up Annular Flow",
        "Vertical Up Bubble Flow",
        "Vertical Up Slug and Churn Flow",
        "Vertical Up Finely Dispersed Bubble Flow",
        "Stratified Smooth Flow",
        "Stratified Wavy Flow",
        "Annular-Dispersed Flow",
        "Elongated Bubble Flow",
        "Intermittent-Slug Flow",
        "Dispersed Bubble Flow",
        "Annular Flow",
        "Slug Flow",
        "Dispersed-Bubble Flow",
        "",
    ];
    for (regime, name) in ALL.iter().zip(names.iter()) {
        assert_eq!(regime.label(), *name);
    }
}

#[test]
fn every_tag_but_none_has_one_owner() {
    for (index, regime) in ALL.iter().enumerate() {
        let expected = match index {
            0..=3 => Some(Orientation::VerticalUp),
            4..=9 => Some(Orientation::Horizontal),
            10..=12 => Some(Orientation::VerticalDown),
            _ => None,
        };
        assert_eq!(regime.orientation(), expected);
    }
}

#[test]
fn models_follow_the_dispatch_table() {
    let h = Orientation::Horizontal;
    let u = Orientation::VerticalUp;
    let d = Orientation::VerticalDown;
    assert_eq!(model_for(h, Regime::HorizontalAnnularDispersedFlow), Ok(Model::SimilarityAnalysis));
    assert_eq!(model_for(h, Regime::HorizontalDispersedBubbleFlow), Ok(Model::SimilarityAnalysis));
    assert_eq!(model_for(h, Regime::HorizontalElongatedBubbleFlow), Ok(Model::HorizontalSlug));
    assert_eq!(model_for(h, Regime::HorizontalIntermittentSlugFlow), Ok(Model::HorizontalSlug));
    assert_eq!(model_for(h, Regime::HorizontalStratifiedSmoothFlow), Ok(Model::Stratified));
    assert_eq!(model_for(h, Regime::HorizontalStratifiedWavyFlow), Ok(Model::Stratified));
    assert_eq!(model_for(u, Regime::VerticalUpAnnularFlow), Ok(Model::SimilarityAnalysis));
    assert_eq!(model_for(u, Regime::VerticalUpSlugAndChurnFlow), Ok(Model::SlugAndChurn));
    assert_eq!(model_for(u, Regime::VerticalUpBubbleFlow), Ok(Model::Bubble));
    assert_eq!(model_for(u, Regime::VerticalUpFinelyDispersedBubbleFlow), Ok(Model::Bubble));
    assert_eq!(model_for(d, Regime::VerticalDownAnnularFlow), Ok(Model::DownwardAnnular));
    assert_eq!(model_for(d, Regime::VerticalDownSlugFlow), Ok(Model::DownwardSlug));
    assert_eq!(model_for(d, Regime::VerticalDownDispersedBubbleFlow), Ok(Model::DownwardBubble));
}

#[test]
fn foreign_and_missing_tags_have_no_model() {
    for orientation in [Orientation::Horizontal, Orientation::VerticalUp, Orientation::VerticalDown]
    {
        let mut owned = 0;
        for regime in ALL.iter() {
            let model = model_for(orientation, *regime);
            if regime.orientation() == Some(orientation) {
                assert!(model.is_ok());
                owned += 1;
            } else {
                assert_eq!(model, Err(SolveError::NoMatchingModel));
            }
        }
        assert!(owned >= 3);
    }
    assert_eq!(
        model_for(Orientation::VerticalDown, Regime::VerticalUpBubbleFlow),
        Err(SolveError::NoMatchingModel)
    );
    assert_eq!(model_for(Orientation::Horizontal, Regime::NONE), Err(SolveError::NoMatchingModel));
}

#[test]
fn failures_have_their_names() {
    assert_eq!(SolveError::InvalidInput.message(), "InvalidInput");
    assert_eq!(SolveError::InvalidReynolds.message(), "InvalidReynolds");
    assert_eq!(SolveError::SingularDerivative.message(), "SingularDerivative");
    assert_eq!(SolveError::NonConvergence.message(), "NonConvergence");
    assert_eq!(SolveError::NoMatchingModel.message(), "NoMatchingModel");
    assert_eq!(SolveError::DegenerateResult.message(), "DegenerateResult");
}
