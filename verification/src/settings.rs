//! Per-camera anti-aliasing settings and the shader toggles derived from them.

use vstd::prelude::*;
use vstd::string::StringExecFns;

verus! {

/// A discrete threshold tier. Each tier selects one numeric threshold inside
/// the anti-aliasing shader; the numbers themselves live in the shader.
#[derive(Clone, Copy, Debug, PartialEq, Eq, Structural)]
pub enum Quality {
    Low,
    Medium,
    High,
    Ultra,
}

impl Quality {
    /// The label of the tier, as it appears at the end of a shader toggle.
    pub open spec fn label(self) -> Seq<char> {
        match self {
            Quality::Low => "LOW"@,
            Quality::Medium => "MEDIUM"@,
            Quality::High => "HIGH"@,
            Quality::Ultra => "ULTRA"@,
        }
    }

    /// The label of the tier.
    pub fn get_str(&self) -> (label: &'static str)
        ensures
            label@ == self.label(),
    {
        match self {
            Quality::Low => "LOW",
            Quality::Medium => "MEDIUM",
            Quality::High => "HIGH",
            Quality::Ultra => "ULTRA",
        }
    }
}

/// Anti-aliasing configuration of one camera.
#[derive(Clone, Copy, Debug, PartialEq, Eq, Structural)]
pub struct FXAA {
    /// Whether the effect runs for this camera at all.
    pub enabled: bool,
    /// The minimum amount of local contrast required to apply the filter.
    pub edge_threshold: Quality,
    /// Trims the filter from processing darks.
    pub edge_threshold_min: Quality,
}

impl Default for FXAA {
    fn default() -> (settings: Self)
        ensures
            settings == (FXAA {
                enabled: true,
                edge_threshold: Quality::High,
                edge_threshold_min: Quality::High,
            }),
    {
        FXAA { enabled: true, edge_threshold: Quality::High, edge_threshold_min: Quality::High }
    }
}

impl FXAA {
    /// The two shader toggles that these settings select: one for the edge
    /// threshold, one for its minimum.
    pub open spec fn toggle_names(self) -> Seq<Seq<char>> {
        seq![
            "EDGE_THRESH_"@ + self.edge_threshold.label(),
            "EDGE_THRESH_MIN_"@ + self.edge_threshold_min.label(),
        ]
    }

    /// Derives the shader toggles of these settings.
    pub fn get_settings(&self) -> (defs: Vec<String>)
        ensures
            defs.deep_view() == self.toggle_names(),
    {
        let threshold = String::from_str("EDGE_THRESH_").concat(self.edge_threshold.get_str());
        let threshold_min = String::from_str("EDGE_THRESH_MIN_").concat(
            self.edge_threshold_min.get_str(),
        );
        let mut defs: Vec<String> = Vec::new();
        defs.push(threshold);
        defs.push(threshold_min);
        proof {
            assert(defs.deep_view() =~= self.toggle_names());
        }
        defs
    }
}

/// The labels of the four tiers have the lengths 3, 6, 4 and 5, and start with
/// `L`, `M`, `H` and `U`.
proof fn lemma_labels(tier: Quality)
    ensures
        tier == Quality::Low ==> tier.label().len() == 3 && tier.label()[0] == 'L',
        tier == Quality::Medium ==> tier.label().len() == 6 && tier.label()[0] == 'M'
            && tier.label()[1] == 'E',
        tier == Quality::High ==> tier.label().len() == 4 && tier.label()[0] == 'H',
        tier == Quality::Ultra ==> tier.label().len() == 5 && tier.label()[0] == 'U',
{
    reveal_strlit("LOW");
    reveal_strlit("MEDIUM");
    reveal_strlit("HIGH");
    reveal_strlit("ULTRA");
}

/// Distinct tiers have labels of distinct lengths.
pub proof fn lemma_label_injective(a: Quality, b: Quality)
    ensures
        a.label() == b.label() <==> a == b,
        a.label().len() == b.label().len() <==> a == b,
{
    lemma_labels(a);
    lemma_labels(b);
}

/// Every settings value derives exactly two toggles, and the two differ.
pub proof fn lemma_toggle_names_two_distinct(settings: FXAA)
    ensures
        settings.toggle_names().len() == 2,
        settings.toggle_names()[0] != settings.toggle_names()[1],
{
    reveal_strlit("EDGE_THRESH_");
    reveal_strlit("EDGE_THRESH_MIN_");
    lemma_labels(settings.edge_threshold);
    lemma_labels(settings.edge_threshold_min);
    let first = settings.toggle_names()[0];
    let second = settings.toggle_names()[1];
    assert(second[12] == 'M');
    assert(second[13] == 'I');
    assert(first[12] == settings.edge_threshold.label()[0]);
    if settings.edge_threshold == Quality::Medium {
        assert(first[13] == settings.edge_threshold.label()[1]);
    }
}

/// The toggles are a function of the two tiers alone, and an injective one:
/// two settings derive the same toggles exactly when they agree on both
/// tiers. Whether the effect is enabled plays no part.
pub proof fn lemma_toggle_names_injective(a: FXAA, b: FXAA)
    ensures
        a.toggle_names() == b.toggle_names() <==> (a.edge_threshold == b.edge_threshold
            && a.edge_threshold_min == b.edge_threshold_min),
{
    reveal_strlit("EDGE_THRESH_");
    reveal_strlit("EDGE_THRESH_MIN_");
    lemma_label_injective(a.edge_threshold, b.edge_threshold);
    lemma_label_injective(a.edge_threshold_min, b.edge_threshold_min);
    if a.toggle_names() == b.toggle_names() {
        assert(a.toggle_names()[0].len() == b.toggle_names()[0].len());
        assert(a.toggle_names()[1].len() == b.toggle_names()[1].len());
    }
}

} // verus!
