use bytevm::assembler::Assembler;
use bytevm::graph::{BBInfo, Graph, GraphOp, GraphOpKind, Operand};
use bytevm::interp::Interpreter;

#[test]
fn graph_blocks_track_ops() {
    let mut g = Graph::new();
    g.add(GraphOp {
        kind: GraphOpKind::DeclareStack { size: 8 },
    });
    g.add(GraphOp {
        kind: GraphOpKind::ExitSuccess,
    });
    let id = g.complete_block();
    assert_eq!(id, 0);
    let BBInfo { ops } = g.blocks[0];
    assert_eq!(ops.start, 0);
    assert_eq!(ops.end, 2);
}

#[test]
fn assemble_and_run_prints_constant() {
    let mut g = Graph::new();
    g.add(GraphOp {
        kind: GraphOpKind::DeclareStack { size: 8 },
    });
    g.add(GraphOp {
        kind: GraphOpKind::ConstantU64 {
            target: Operand::StackLocal { id: 0 },
            value: 12,
        },
    });
    g.add(GraphOp {
        kind: GraphOpKind::ConstantU64 {
            target: Operand::StackLocal { id: 0 },
            value: 25,
        },
    });
    g.add(GraphOp {
        kind: GraphOpKind::Print {
            value: Operand::StackLocal { id: 0 },
        },
    });
    g.add(GraphOp {
        kind: GraphOpKind::PrintNewline,
    });
    g.add(GraphOp {
        kind: GraphOpKind::StackDealloc { count: 1 },
    });
    g.add(GraphOp {
        kind: GraphOpKind::ExitSuccess,
    });
    let entry = g.complete_block();

    let assembler = Assembler::new();
    let binary = assembler.assemble(&g, entry);

    let mut interp = Interpreter::new(binary);
    let result = interp.run();

    assert!(result.is_ok(), "{:?}", result);
    assert_eq!(interp.output, b"25 \n".to_vec());
}

#[test]
fn assemble_and_run_adds_stack_values() {
    let mut g = Graph::new();
    g.add(GraphOp {
        kind: GraphOpKind::DeclareStack { size: 8 },
    });
    g.add(GraphOp {
        kind: GraphOpKind::DeclareStack { size: 8 },
    });
    g.add(GraphOp {
        kind: GraphOpKind::ConstantU64 {
            target: Operand::StackLocal { id: 0 },
            value: 30,
        },
    });
    g.add(GraphOp {
        kind: GraphOpKind::ConstantU64 {
            target: Operand::StackLocal { id: 1 },
            value: 7,
        },
    });
    g.add(GraphOp {
        kind: GraphOpKind::Add {
            target: Operand::StackLocal { id: 0 },
            left: Operand::StackLocal { id: 0 },
            right: Operand::StackLocal { id: 1 },
        },
    });
    g.add(GraphOp {
        kind: GraphOpKind::Print {
            value: Operand::StackLocal { id: 0 },
        },
    });
    g.add(GraphOp {
        kind: GraphOpKind::ExitSuccess,
    });
    let entry = g.complete_block();

    let binary = Assembler::new().assemble(&g, entry);
    let mut interp = Interpreter::new(binary);
    let result = interp.run();

    assert!(result.is_ok(), "{:?}", result);
    assert_eq!(interp.output, b"37 ".to_vec());
}
