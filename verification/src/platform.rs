//! Platform effects requested by the runtime, the features they need, and
//! how a platform with given capabilities carries them out.

use vstd::prelude::*;

verus! {

/// A platform feature that an effect relies on.
#[derive(Clone, Copy, Debug, PartialEq, Eq, Structural)]
pub enum PlatformFeature {
    TextInputBridge,
    PointerCapture,
    AccessibilityTree,
    ClipboardWrite,
}

/// How well a platform supports a feature.
#[derive(Clone, Copy, Debug, PartialEq, Eq, Structural)]
pub enum SupportLevel {
    Full,
    Partial,
    Unsupported,
}

/// A platform's support for one feature, with the fallback it uses and why.
#[derive(Clone, Copy, Debug, PartialEq, Eq)]
pub struct FeatureSupport {
    pub support: SupportLevel,
    pub fallback: &'static str,
    pub rationale: &'static str,
}

/// The support a platform offers for each feature.
#[derive(Clone, Copy, Debug, PartialEq, Eq)]
pub struct PlatformCapabilities {
    pub text_input_bridge: FeatureSupport,
    pub pointer_capture: FeatureSupport,
    pub accessibility_tree: FeatureSupport,
    pub clipboard_write: FeatureSupport,
}

impl PlatformCapabilities {
    /// The support recorded for `feature`.
    pub open spec fn support_spec(self, feature: PlatformFeature) -> FeatureSupport {
        match feature {
            PlatformFeature::TextInputBridge => self.text_input_bridge,
            PlatformFeature::PointerCapture => self.pointer_capture,
            PlatformFeature::AccessibilityTree => self.accessibility_tree,
            PlatformFeature::ClipboardWrite => self.clipboard_write,
        }
    }

    /// The support recorded for `feature`.
    pub fn support(&self, feature: PlatformFeature) -> (s: FeatureSupport)
        ensures
            s == self.support_spec(feature),
    {
        match feature {
            PlatformFeature::TextInputBridge => self.text_input_bridge,
            PlatformFeature::PointerCapture => self.pointer_capture,
            PlatformFeature::AccessibilityTree => self.accessibility_tree,
            PlatformFeature::ClipboardWrite => self.clipboard_write,
        }
    }
}

/// An effect the runtime asks the platform to carry out.
#[derive(Debug)]
pub enum PlatformEffect {
    SyncTextInput,
    SyncPointerCapture,
    SyncAccessibility,
    WriteClipboard(String),
}

/// The feature an effect relies on.
pub open spec fn feature_spec(effect: PlatformEffect) -> PlatformFeature {
    match effect {
        PlatformEffect::SyncTextInput => PlatformFeature::TextInputBridge,
        PlatformEffect::SyncPointerCapture => PlatformFeature::PointerCapture,
        PlatformEffect::SyncAccessibility => PlatformFeature::AccessibilityTree,
        PlatformEffect::WriteClipboard(_) => PlatformFeature::ClipboardWrite,
    }
}

/// The feature an effect relies on.
pub fn feature_for_effect(effect: &PlatformEffect) -> (f: PlatformFeature)
    ensures
        f == feature_spec(*effect),
{
    match effect {
        PlatformEffect::SyncTextInput => PlatformFeature::TextInputBridge,
        PlatformEffect::SyncPointerCapture => PlatformFeature::PointerCapture,
        PlatformEffect::SyncAccessibility => PlatformFeature::AccessibilityTree,
        PlatformEffect::WriteClipboard(_) => PlatformFeature::ClipboardWrite,
    }
}

/// The support of the effect's feature when it is only partial or missing.
pub open spec fn degraded_spec(capabilities: PlatformCapabilities, effect: PlatformEffect) -> Option<
    FeatureSupport,
> {
    let s = capabilities.support_spec(feature_spec(effect));
    if s.support == SupportLevel::Full {
        None
    } else {
        Some(s)
    }
}

/// The support of the effect's feature, when the platform supports it only
/// partially or not at all; `None` when it is fully supported.
pub fn degraded_effect_support(capabilities: PlatformCapabilities, effect: &PlatformEffect) -> (r:
    Option<FeatureSupport>)
    ensures
        r == degraded_spec(capabilities, *effect),
{
    let support = capabilities.support(feature_for_effect(effect));
    match support.support {
        SupportLevel::Partial | SupportLevel::Unsupported => Some(support),
        SupportLevel::Full => None,
    }
}

/// A warning that an effect is carried out through a degraded feature.
#[derive(Clone, Copy, Debug, PartialEq, Eq)]
pub struct EffectWarning {
    pub feature: PlatformFeature,
    pub support: FeatureSupport,
}

/// A service call that carries out an effect.
#[derive(Debug)]
pub enum EffectAction {
    /// Sync the text input bridge with the focused editor, or detach it when
    /// `suppress_bridge` holds.
    SyncTextInput { suppress_bridge: bool },
    /// Sync pointer capture to `has_capture`.
    SyncPointerCapture { has_capture: bool },
    /// Write the text to the clipboard.
    WriteClipboard(String),
}

/// The content of an [`EffectAction`].
pub enum ActionModel {
    SyncTextInput { suppress_bridge: bool },
    SyncPointerCapture { has_capture: bool },
    WriteClipboard(Seq<char>),
}

impl View for EffectAction {
    type V = ActionModel;

    open spec fn view(&self) -> ActionModel {
        match self {
            EffectAction::SyncTextInput { suppress_bridge } => ActionModel::SyncTextInput {
                suppress_bridge: *suppress_bridge,
            },
            EffectAction::SyncPointerCapture { has_capture } => ActionModel::SyncPointerCapture {
                has_capture: *has_capture,
            },
            EffectAction::WriteClipboard(t) => ActionModel::WriteClipboard(t@),
        }
    }
}

/// The warnings for a list of effects: one per effect whose feature is
/// degraded, in order.
pub open spec fn warnings_spec(capabilities: PlatformCapabilities, effects: Seq<PlatformEffect>) -> Seq<
    EffectWarning,
>
    decreases effects.len(),
{
    if effects.len() == 0 {
        Seq::empty()
    } else {
        let last = effects.last();
        warnings_spec(capabilities, effects.drop_last()) + match degraded_spec(capabilities, last) {
            Some(s) => seq![EffectWarning { feature: feature_spec(last), support: s }],
            None => Seq::empty(),
        }
    }
}

/// The service call of one effect; accessibility needs none.
pub open spec fn action_spec(effect: PlatformEffect, has_capture: bool, suppress_bridge: bool) -> Seq<
    ActionModel,
> {
    match effect {
        PlatformEffect::SyncTextInput => seq![ActionModel::SyncTextInput { suppress_bridge }],
        PlatformEffect::SyncPointerCapture => seq![ActionModel::SyncPointerCapture { has_capture }],
        PlatformEffect::SyncAccessibility => Seq::empty(),
        PlatformEffect::WriteClipboard(t) => seq![ActionModel::WriteClipboard(t@)],
    }
}

/// The service calls for a list of effects, in order.
pub open spec fn actions_spec(effects: Seq<PlatformEffect>, has_capture: bool, suppress_bridge: bool) -> Seq<
    ActionModel,
>
    decreases effects.len(),
{
    if effects.len() == 0 {
        Seq::empty()
    } else {
        actions_spec(effects.drop_last(), has_capture, suppress_bridge) + action_spec(
            effects.last(),
            has_capture,
            suppress_bridge,
        )
    }
}

/// The views of a list of actions.
pub open spec fn action_views(actions: Seq<EffectAction>) -> Seq<ActionModel> {
    actions.map_values(|a: EffectAction| a@)
}

/// What carrying out a batch of effects amounts to: the warnings to report
/// first, then the service calls in order.
pub struct EffectPlan {
    pub warnings: Vec<EffectWarning>,
    pub actions: Vec<EffectAction>,
}

fn action_for(effect: &PlatformEffect, has_capture: bool, suppress_bridge: bool) -> (a: Option<
    EffectAction,
>)
    ensures
        match a {
            Some(x) => action_spec(*effect, has_capture, suppress_bridge) == seq![x@],
            None => action_spec(*effect, has_capture, suppress_bridge) == Seq::<ActionModel>::empty(),
        },
{
    match effect {
        PlatformEffect::SyncTextInput => Some(EffectAction::SyncTextInput { suppress_bridge }),
        PlatformEffect::SyncPointerCapture => Some(EffectAction::SyncPointerCapture { has_capture }),
        PlatformEffect::SyncAccessibility => None,
        PlatformEffect::WriteClipboard(text) => Some(EffectAction::WriteClipboard(text.clone())),
    }
}

/// Plans a batch of effects on a platform with `capabilities`: a warning for
/// every effect whose feature is only partially supported or unsupported,
/// then the service call of each effect in order, with the pointer-capture
/// state and bridge suppression handed to the calls that take them.
pub fn apply_effects_with_services(
    capabilities: PlatformCapabilities,
    effects: &Vec<PlatformEffect>,
    has_capture: bool,
    suppress_bridge: bool,
) -> (plan: EffectPlan)
    ensures
        plan.warnings@ == warnings_spec(capabilities, effects@),
        action_views(plan.actions@) == actions_spec(effects@, has_capture, suppress_bridge),
{
    let mut warnings: Vec<EffectWarning> = Vec::new();
    let mut i: usize = 0;
    while i < effects.len()
        invariant
            0 <= i <= effects@.len(),
            warnings@ == warnings_spec(capabilities, effects@.subrange(0, i as int)),
        decreases effects@.len() - i,
    {
        let ghost before = warnings@;
        if let Some(support) = degraded_effect_support(capabilities, &effects[i]) {
            warnings.push(EffectWarning { feature: feature_for_effect(&effects[i]), support });
        }
        proof {
            let pre = effects@.subrange(0, i + 1);
            assert(pre.drop_last() =~= effects@.subrange(0, i as int));
            assert(pre.last() == effects@[i as int]);
            assert(warnings@ =~= warnings_spec(capabilities, pre));
        }
        i = i + 1;
    }
    let mut actions: Vec<EffectAction> = Vec::new();
    let mut j: usize = 0;
    assert(action_views(actions@) =~= Seq::empty());
    while j < effects.len()
        invariant
            0 <= j <= effects@.len(),
            action_views(actions@) == actions_spec(
                effects@.subrange(0, j as int),
                has_capture,
                suppress_bridge,
            ),
        decreases effects@.len() - j,
    {
        let ghost before = action_views(actions@);
        if let Some(a) = action_for(&effects[j], has_capture, suppress_bridge) {
            actions.push(a);
        }
        proof {
            let pre = effects@.subrange(0, j + 1);
            assert(pre.drop_last() =~= effects@.subrange(0, j as int));
            assert(pre.last() == effects@[j as int]);
            assert(action_views(actions@) =~= actions_spec(pre, has_capture, suppress_bridge));
        }
        j = j + 1;
    }
    assert(effects@.subrange(0, effects@.len() as int) =~= effects@);
    EffectPlan { warnings, actions }
}

/// The clipboard of the web platform: writes are held until the host takes
/// them and hands them to the browser.
pub struct ClipboardBridge {
    pub pending_write: Option<String>,
}

impl ClipboardBridge {
    /// A bridge with nothing pending.
    pub fn new() -> (b: Self)
        ensures
            b.pending_write is None,
    {
        ClipboardBridge { pending_write: None }
    }

    /// The web platform cannot read the clipboard synchronously.
    pub fn read_text(&self) -> (r: Option<String>)
        ensures
            r is None,
    {
        None
    }

    /// Holds `text` as the pending write, replacing any earlier one.
    pub fn write_text(&mut self, text: &str)
        ensures
            opt_string_view(final(self).pending_write) == Some(text@),
    {
        self.pending_write = Some(text.to_owned());
    }

    /// Takes the pending write, leaving nothing pending.
    pub fn take_pending_clipboard_write(&mut self) -> (r: Option<String>)
        ensures
            r == old(self).pending_write,
            final(self).pending_write is None,
    {
        self.pending_write.take()
    }
}

/// The view of an optional string.
pub open spec fn opt_string_view(s: Option<String>) -> Option<Seq<char>> {
    match s {
        Some(t) => Some(t@),
        None => None,
    }
}


/// What drawing a frame achieved: whether it rendered, and whether the host
/// should draw again soon.
#[derive(Clone, Copy, Debug, PartialEq, Eq, Structural)]
pub struct PlatformDrawOutcome {
    pub rendered: bool,
    pub needs_retry: bool,
}

/// The outcome of a frame drawn by the GPU backend, which always completes.
pub fn native_frame_outcome() -> (o: PlatformDrawOutcome)
    ensures
        o == (PlatformDrawOutcome { rendered: true, needs_retry: false }),
{
    PlatformDrawOutcome { rendered: true, needs_retry: false }
}

/// The outcome of a frame drawn by the web layers: it rendered, and it needs
/// another pass when the surface layer asked for one, or when it has surface
/// frames to show while its surfaces are still initializing.
pub fn web_frame_outcome(
    surface_needs_retry: bool,
    surface_frame_count: usize,
    surfaces_initializing: bool,
) -> (o: PlatformDrawOutcome)
    ensures
        o.rendered,
        o.needs_retry == (surface_needs_retry || (surface_frame_count > 0 && surfaces_initializing)),
{
    PlatformDrawOutcome {
        rendered: true,
        needs_retry: surface_needs_retry || (surface_frame_count != 0 && surfaces_initializing),
    }
}

} // verus!
