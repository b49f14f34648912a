use sparsha::platform::{
    apply_effects_with_services, degraded_effect_support, feature_for_effect,
    native_frame_outcome, web_frame_outcome, ClipboardBridge, EffectAction, FeatureSupport,
    PlatformCapabilities, PlatformEffect, PlatformFeature, SupportLevel,
};
use sparsha::text_bridge::{text_bridge_sync, EditorSnapshot};
use sparsha::viewport::{definite_extent, LayoutViewport};

fn full() -> FeatureSupport {
    FeatureSupport {
        support: SupportLevel::Full,
        fallback: "none",
        rationale: "native support",
    }
}

fn web_capabilities() -> PlatformCapabilities {
    PlatformCapabilities {
        text_input_bridge: full(),
        pointer_capture: full(),
        accessibility_tree: full(),
        clipboard_write: FeatureSupport {
            support: SupportLevel::Partial,
            fallback: "deferred write",
            rationale: "the browser clipboard is asynchronous",
        },
    }
}

#[test]
fn web_effect_support_only_warns_for_partial_or_unsupported_features() {
    let capabilities = web_capabilities();
    assert!(degraded_effect_support(capabilities, &PlatformEffect::SyncTextInput).is_none());
    assert!(degraded_effect_support(capabilities, &PlatformEffect::SyncPointerCapture).is_none());
    assert!(degraded_effect_support(capabilities, &PlatformEffect::SyncAccessibility).is_none());
    let degraded =
        degraded_effect_support(capabilities, &PlatformEffect::WriteClipboard(String::from("x")))
            .expect("partial support is reported");
    assert_eq!(degraded.support, SupportLevel::Partial);
    assert_eq!(degraded.fallback, "deferred write");

    let mut none = capabilities;
    none.pointer_capture.support = SupportLevel::Unsupported;
    assert_eq!(
        degraded_effect_support(none, &PlatformEffect::SyncPointerCapture).map(|s| s.support),
        Some(SupportLevel::Unsupported)
    );
}

#[test]
fn effects_map_to_their_features() {
    assert_eq!(feature_for_effect(&PlatformEffect::SyncTextInput), PlatformFeature::TextInputBridge);
    assert_eq!(feature_for_effect(&PlatformEffect::SyncPointerCapture), PlatformFeature::PointerCapture);
    assert_eq!(feature_for_effect(&PlatformEffect::SyncAccessibility), PlatformFeature::AccessibilityTree);
    assert_eq!(
        feature_for_effect(&PlatformEffect::WriteClipboard(String::new())),
        PlatformFeature::ClipboardWrite
    );
}

#[test]
fn effect_plan_warns_then_calls_services_in_order() {
    let effects = vec![
        PlatformEffect::WriteClipboard(String::from("copied")),
        PlatformEffect::SyncAccessibility,
        PlatformEffect::SyncTextInput,
        PlatformEffect::SyncPointerCapture,
        PlatformEffect::WriteClipboard(String::from("again")),
    ];
    let plan = apply_effects_with_services(web_capabilities(), &effects, true, false);
    assert_eq!(plan.warnings.len(), 2);
    assert!(plan
        .warnings
        .iter()
        .all(|w| w.feature == PlatformFeature::ClipboardWrite));
    assert_eq!(plan.actions.len(), 4);
    assert!(matches!(&plan.actions[0], EffectAction::WriteClipboard(t) if t == "copied"));
    assert!(matches!(plan.actions[1], EffectAction::SyncTextInput { suppress_bridge: false }));
    assert!(matches!(plan.actions[2], EffectAction::SyncPointerCapture { has_capture: true }));
    assert!(matches!(&plan.actions[3], EffectAction::WriteClipboard(t) if t == "again"));

    let empty = apply_effects_with_services(web_capabilities(), &Vec::new(), false, true);
    assert!(empty.warnings.is_empty());
    assert!(empty.actions.is_empty());
}

#[test]
fn clipboard_write_is_taken_once() {
    let mut clipboard = ClipboardBridge::new();
    assert_eq!(clipboard.read_text(), None);
    assert_eq!(clipboard.take_pending_clipboard_write(), None);
    clipboard.write_text("first");
    clipboard.write_text("second");
    assert_eq!(clipboard.take_pending_clipboard_write(), Some(String::from("second")));
    assert_eq!(clipboard.take_pending_clipboard_write(), None);
}

#[test]
fn frame_outcomes() {
    let native = native_frame_outcome();
    assert!(native.rendered && !native.needs_retry);
    assert!(web_frame_outcome(true, 0, false).needs_retry);
    assert!(web_frame_outcome(false, 2, true).needs_retry);
    assert!(!web_frame_outcome(false, 0, true).needs_retry);
    assert!(!web_frame_outcome(false, 3, false).needs_retry);
    assert!(web_frame_outcome(false, 0, false).rendered);
}

#[test]
fn adapter_clamps_empty_viewport_to_definite_layout_space() {
    let viewport = LayoutViewport::new(0.0f32.to_bits(), (-20.0f32).to_bits());
    assert_eq!(f32::from_bits(viewport.definite_width()), 1.0);
    assert_eq!(f32::from_bits(viewport.definite_height()), 1.0);
}

#[test]
fn definite_extent_matches_float_max() {
    for v in [
        0.0f32, -0.0, 0.5, 1.0, 1.0000001, 2.0, 800.0, -20.0, f32::NAN, f32::INFINITY,
        f32::NEG_INFINITY, f32::MAX, f32::MIN_POSITIVE,
    ] {
        assert_eq!(definite_extent(v.to_bits()), v.max(1.0).to_bits(), "value {v}");
    }
}

#[test]
fn text_bridge_follows_the_focused_editor() {
    let editor = EditorSnapshot {
        text: String::from("hello"),
        selection_start: 1,
        selection_end: 4,
    };
    let sync = text_bridge_sync("", Some(&editor));
    assert_eq!(sync.set_value.as_deref(), Some("hello"));
    assert_eq!(sync.selection, Some((1, 4)));
    assert!(sync.focus);

    let same = text_bridge_sync("hello", Some(&editor));
    assert_eq!(same.set_value, None);

    let detached = text_bridge_sync("left over", None);
    assert_eq!(detached.set_value.as_deref(), Some(""));
    assert_eq!(detached.selection, None);
    assert!(!detached.focus);
    assert_eq!(text_bridge_sync("", None).set_value, None);
}
