use vstd::prelude::*;

verus! {

/// The real stage boundaries of `create`, announced in execution order.
/// Payload-free on purpose: a stage can never carry a secret.
#[derive(Debug, Clone, Copy, PartialEq, Eq, Structural)]
pub enum CreateStage {
    AllocatingBackingFile,
    FormattingLuks2,
    EnrollingFido2Key,
    CreatingFilesystem,
    ScaffoldingHookTemplates,
}

/// The real stage boundaries of `resize`, announced in execution order.
#[derive(Debug, Clone, Copy, PartialEq, Eq, Structural)]
pub enum ResizeStage {
    GrowingBackingFile,
    ResizingLuks2Mapping,
    GrowingFilesystem,
}

/// `progress` was told that `stage` started.
pub open spec fn announced<P: Fn(CreateStage)>(progress: &P, stage: CreateStage) -> bool {
    exists|u: ()| #[trigger] call_ensures(*progress, (stage,), u)
}

/// `progress` was told that `stage` started.
pub open spec fn resize_announced<P: Fn(ResizeStage)>(progress: &P, stage: ResizeStage) -> bool {
    exists|u: ()| #[trigger] call_ensures(*progress, (stage,), u)
}

} // verus!
