use recipe_ops::fragment::{KernelEmission};
use recipe_ops::primitive::{AliasPermission, AliasRule, ReduceOperator, ReduceResult, ReduceSpec};
use recipe_ops::{
    PrimitiveKind, ByteCount, CompositionPayload, CompositionRecipe, CompositionStep, GraphLedger, IdentityNamespace,
    IterationBound, KernelTemplateId, LoweringAvailability, OperationDescriptor, OperationErrorKind,
    OperationFamily, OperationId, PreparedParameters, PrimitiveFamily, StageEmitter, ValueId, expand_composition,
};

fn kernel(kind: PrimitiveKind) -> KernelEmission {
    KernelEmission { inputs: vec![ValueId(1), ValueId(2)], outputs: vec![ValueId(3)], kind }
}

fn reduce() -> PrimitiveKind {
    PrimitiveKind::Reduce(ReduceSpec {
        operator: ReduceOperator::Sum,
        result: ReduceResult::Value,
        axes: vec![0],
        keep_dimensions: false,
        tree_lanes: 32,
    })
}

fn namespace(values: u64, kernels: u64) -> IdentityNamespace {
    IdentityNamespace::new(ValueId(1_000), values, KernelTemplateId(5_000), kernels)
}

#[test]
fn ledger_reserves_consecutive_identities_within_the_limit() {
    let mut ledger = GraphLedger::new(namespace(3, 2), &[ValueId(1), ValueId(2)], ByteCount(100)).unwrap();
    assert_eq!(ledger.intermediate(40), Ok(ValueId(1_000)));
    assert_eq!(ledger.intermediate(60), Ok(ValueId(1_001)));
    assert_eq!(ledger.workspace_bytes(), ByteCount(100));
    assert_eq!(ledger.intermediate(1).unwrap_err().kind, OperationErrorKind::WorkspaceLimitExceeded);
    assert_eq!(ledger.intermediate(0), Ok(ValueId(1_002)));
    assert_eq!(ledger.intermediate(0).unwrap_err().kind, OperationErrorKind::IdentityNamespaceExhausted);
    assert_eq!(ledger.intermediate_values(), &[ValueId(1_000), ValueId(1_001), ValueId(1_002)]);
    assert_eq!(ledger.emit_kernel(), Ok(KernelTemplateId(5_000)));
    assert_eq!(ledger.emit_kernel(), Ok(KernelTemplateId(5_001)));
    assert_eq!(ledger.emit_kernel().unwrap_err().kind, OperationErrorKind::IdentityNamespaceExhausted);
    assert_eq!(ledger.kernel_ids(), &[KernelTemplateId(5_000), KernelTemplateId(5_001)]);
    assert_eq!(ledger.check_reservation(3, 2, ByteCount(100)), Ok(()));
    assert_eq!(
        ledger.check_reservation(2, 2, ByteCount(100)).unwrap_err().kind,
        OperationErrorKind::GraphMaterializationFailed
    );
    assert_eq!(
        ledger.check_reservation(3, 1, ByteCount(100)).unwrap_err().kind,
        OperationErrorKind::GraphMaterializationFailed
    );
    assert_eq!(
        ledger.check_reservation(3, 2, ByteCount(99)).unwrap_err().kind,
        OperationErrorKind::WorkspaceFormulaMismatch
    );
}

#[test]
fn ledger_refuses_declared_tensors_inside_the_reserved_range() {
    let overlap = GraphLedger::new(namespace(10, 1), &[ValueId(1_005)], ByteCount(0)).unwrap_err();
    assert_eq!(overlap.kind, OperationErrorKind::IdentityNamespaceOverlap);
    assert!(GraphLedger::new(namespace(10, 1), &[ValueId(1_010), ValueId(999)], ByteCount(0)).is_ok());
    let wrapping = IdentityNamespace::new(ValueId(u64::MAX), 2, KernelTemplateId(0), 0);
    assert_eq!(
        GraphLedger::new(wrapping, &[], ByteCount(0)).unwrap_err().kind,
        OperationErrorKind::IdentityNamespaceExhausted
    );
}

#[test]
fn workspace_arithmetic_overflow_is_refused() {
    let mut ledger = GraphLedger::new(namespace(3, 0), &[], ByteCount(u64::MAX)).unwrap();
    assert!(ledger.intermediate(u64::MAX).is_ok());
    assert_eq!(ledger.intermediate(1).unwrap_err().kind, OperationErrorKind::WorkspaceArithmeticOverflow);
}

#[test]
fn stages_follow_the_resolved_steps() {
    let descriptor = OperationDescriptor {
        id: OperationId(4),
        symbol: "custom",
        source: "tests",
        lowering: LoweringAvailability::Composition(CompositionRecipe::new(
            "custom",
            "two reductions then a map",
            vec![
                CompositionStep::repeat(
                    IterationBound::Fixed(2),
                    "reduce twice",
                    vec![CompositionStep::primitive(PrimitiveFamily::Reduce, "reduce")],
                ),
                CompositionStep::primitive(PrimitiveFamily::Elementwise, "map"),
            ],
            CompositionPayload::F32,
            OperationFamily::Other,
        )),
    };
    let resolved = expand_composition(&descriptor, &[], &PreparedParameters::new()).unwrap();
    let ledger = GraphLedger::new(namespace(4, 5), &[], ByteCount(64)).unwrap();
    let mut emitter = StageEmitter::new(ledger, &resolved);
    assert_eq!(emitter.intermediate(8), Ok(ValueId(1_000)));
    assert_eq!(
        emitter.emit_stage(vec![kernel(PrimitiveKind::Elementwise)]).unwrap_err().kind,
        OperationErrorKind::GraphMaterializationFailed
    );
    assert_eq!(emitter.emit_stage(vec![]).unwrap_err().kind, OperationErrorKind::GraphMaterializationFailed);
    assert_eq!(emitter.emit_stage(vec![kernel(PrimitiveKind::Elementwise), kernel(reduce())]), Ok(()));
    let early = StageEmitter::new(GraphLedger::new(namespace(4, 5), &[], ByteCount(64)).unwrap(), &resolved);
    assert_eq!(early.finish().unwrap_err().kind, OperationErrorKind::GraphMaterializationFailed);
    assert_eq!(emitter.emit(vec![ValueId(1_000)], vec![ValueId(9)], reduce()), Ok(()));
    assert_eq!(emitter.emit(vec![ValueId(9)], vec![], PrimitiveKind::Elementwise), Ok(()));
    assert_eq!(
        emitter.emit(vec![], vec![ValueId(9)], PrimitiveKind::Elementwise).unwrap_err().kind,
        OperationErrorKind::GraphMaterializationFailed
    );
    let (ledger, stages, nodes) = emitter.finish().unwrap();
    assert_eq!(stages.len(), 3);
    assert_eq!(stages.iter().map(|stage| stage.step()).collect::<Vec<_>>(), [0, 1, 2]);
    assert_eq!(stages[0].kernels(), &[KernelTemplateId(5_000), KernelTemplateId(5_001)]);
    assert_eq!(stages[1].kernels(), &[KernelTemplateId(5_002)]);
    assert_eq!(stages[2].kernels(), &[KernelTemplateId(5_003)]);
    assert_eq!(ledger.kernel_ids().len(), 4);
    assert_eq!(ledger.workspace_bytes(), ByteCount(8));
    assert_eq!(nodes.len(), 4);
    assert_eq!(nodes[2].kernel, KernelTemplateId(5_002));
    assert_eq!(nodes[2].inputs, vec![ValueId(1_000)]);
    assert_eq!(nodes[2].outputs, vec![ValueId(9)]);
    assert_eq!(
        nodes[0].alias_rules,
        vec![
            AliasRule { input: 0, output: 0, permission: AliasPermission::Forbidden },
            AliasRule { input: 1, output: 0, permission: AliasPermission::Forbidden },
        ]
    );
    assert!(nodes[3].alias_rules.is_empty());
}

#[test]
fn stages_beyond_the_kernel_reservation_are_refused() {
    let descriptor = OperationDescriptor {
        id: OperationId(4),
        symbol: "custom",
        source: "tests",
        lowering: LoweringAvailability::Composition(CompositionRecipe::new(
            "custom",
            "one map",
            vec![CompositionStep::primitive(PrimitiveFamily::Elementwise, "map")],
            CompositionPayload::F32,
            OperationFamily::Other,
        )),
    };
    let resolved = expand_composition(&descriptor, &[], &PreparedParameters::new()).unwrap();
    let mut emitter = StageEmitter::new(GraphLedger::new(namespace(0, 1), &[], ByteCount(0)).unwrap(), &resolved);
    assert_eq!(
        emitter
            .emit_stage(vec![kernel(PrimitiveKind::Elementwise), kernel(PrimitiveKind::Elementwise)])
            .unwrap_err()
            .kind,
        OperationErrorKind::IdentityNamespaceExhausted
    );
}
