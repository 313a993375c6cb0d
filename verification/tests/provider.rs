use sua_sdk::{CancellationSignal, InteractionKind};

#[test]
fn interaction_order_is_typed_then_semantic_then_visual() {
    let mut kinds = vec![
        InteractionKind::VisualUi,
        InteractionKind::Typed,
        InteractionKind::SemanticUi,
    ];
    kinds.sort();
    assert_eq!(
        kinds,
        vec![
            InteractionKind::Typed,
            InteractionKind::SemanticUi,
            InteractionKind::VisualUi,
        ]
    );
}

#[test]
fn cancellation_is_cloneable_and_idempotent() {
    let signal = CancellationSignal::new();
    let observer = signal.clone();
    assert!(!observer.is_cancelled());
    signal.cancel();
    signal.cancel();
    assert!(observer.is_cancelled());
    assert!(signal.token().is_cancelled());
}
