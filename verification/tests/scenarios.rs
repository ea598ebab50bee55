//! End-to-end scenarios: small programs shaped like what a C compiler
//! emits, run through the interpreter.

use llvm_interp::interp::LLVMIRInterpreter;
use llvm_interp::ir::{
    Block, Callee, Function, GInit, Global, Inst, IntOp, FloatOp, Module, Operand, Pred,
    SwitchCase, Term, Ty,
};
use llvm_interp::semantics::Outcome;

const FUEL: u64 = 1_000_000;

fn n(s: &str) -> Vec<u8> {
    s.as_bytes().to_vec()
}

fn local_i32(name: &str) -> Operand {
    Operand::Local { name: n(name), ty: Ty::Int(32) }
}

fn local_f64(name: &str) -> Operand {
    Operand::Local { name: n(name), ty: Ty::Double }
}

fn ci32(v: i32) -> Operand {
    Operand::ConstInt { width: 32, val: (v as u32) as u64 }
}

fn cstr(global: &str) -> Operand {
    Operand::ConstStr { global: n(global) }
}

fn str_global(name: &str, text: &[u8]) -> Global {
    let mut bytes = text.to_vec();
    bytes.push(0);
    Global { name: n(name), init: Some(GInit::Bytes(bytes)) }
}

fn printf_call(dest: &str, args: Vec<Operand>) -> Inst {
    Inst::Call { dest: Some(n(dest)), callee: Callee::Name(n("printf")), args }
}

fn one_block_main(instrs: Vec<Inst>, term: Term) -> Function {
    Function {
        name: n("main"),
        params: vec![],
        blocks: vec![Block { name: n("entry"), instrs, term }],
    }
}

#[test]
fn hello_world() {
    let m = Module {
        functions: vec![one_block_main(
            vec![printf_call("call", vec![cstr(".str")])],
            Term::Ret { val: Some(ci32(0)) },
        )],
        globals: vec![str_global(".str", b"hello\n")],
    };
    let mut it = LLVMIRInterpreter::new(m);
    let r = it.interpret(FUEL);
    assert_eq!(r, Outcome::Done);
    assert_eq!(it.output().as_slice(), b"hello\n\n");
}

#[test]
fn integer_arithmetic_and_print() {
    // int a=7; int b=3; printf("%d %d %d %d", a+b, a-b, a*b, a/b);
    let instrs = vec![
        Inst::Alloca { dest: n("a") },
        Inst::Store { addr: local_i32("a"), value: ci32(7) },
        Inst::Alloca { dest: n("b") },
        Inst::Store { addr: local_i32("b"), value: ci32(3) },
        Inst::Load { dest: n("t1"), addr: local_i32("a") },
        Inst::Load { dest: n("t2"), addr: local_i32("b") },
        Inst::IntBin { op: IntOp::Add, dest: n("add"), a: local_i32("t1"), b: local_i32("t2") },
        Inst::IntBin { op: IntOp::Sub, dest: n("sub"), a: local_i32("t1"), b: local_i32("t2") },
        Inst::IntBin { op: IntOp::Mul, dest: n("mul"), a: local_i32("t1"), b: local_i32("t2") },
        Inst::IntBin { op: IntOp::SDiv, dest: n("div"), a: local_i32("t1"), b: local_i32("t2") },
        printf_call(
            "call",
            vec![
                cstr(".str"),
                local_i32("add"),
                local_i32("sub"),
                local_i32("mul"),
                local_i32("div"),
            ],
        ),
    ];
    let m = Module {
        functions: vec![one_block_main(instrs, Term::Ret { val: Some(ci32(0)) })],
        globals: vec![str_global(".str", b"%d %d %d %d")],
    };
    let mut it = LLVMIRInterpreter::new(m);
    let r = it.interpret(FUEL);
    assert_eq!(r, Outcome::Done);
    assert_eq!(it.output().as_slice(), b"10 4 21 2\n");
}

#[test]
fn signed_vs_unsigned_comparison() {
    // int x=-1; if (x<0) printf("neg"); else printf("pos");
    let entry = Block {
        name: n("entry"),
        instrs: vec![
            Inst::Alloca { dest: n("x") },
            Inst::Store { addr: local_i32("x"), value: ci32(-1) },
            Inst::Load { dest: n("t1"), addr: local_i32("x") },
            Inst::Icmp { pred: Pred::Slt, dest: n("cmp"), a: local_i32("t1"), b: ci32(0) },
        ],
        term: Term::CondBr {
            cond: Operand::Local { name: n("cmp"), ty: Ty::Int(1) },
            then_dest: n("then"),
            else_dest: n("else"),
        },
    };
    let then_b = Block {
        name: n("then"),
        instrs: vec![printf_call("c1", vec![cstr(".str")])],
        term: Term::Br { target: n("end") },
    };
    let else_b = Block {
        name: n("else"),
        instrs: vec![printf_call("c2", vec![cstr(".str.1")])],
        term: Term::Br { target: n("end") },
    };
    let end = Block { name: n("end"), instrs: vec![], term: Term::Ret { val: Some(ci32(0)) } };
    let m = Module {
        functions: vec![Function {
            name: n("main"),
            params: vec![],
            blocks: vec![entry, then_b, else_b, end],
        }],
        globals: vec![str_global(".str", b"neg"), str_global(".str.1", b"pos")],
    };
    let mut it = LLVMIRInterpreter::new(m);
    let r = it.interpret(FUEL);
    assert_eq!(r, Outcome::Done);
    assert_eq!(it.output().as_slice(), b"neg\n");
}

#[test]
fn branching_with_switch() {
    // int x=2; switch(x){ case 1: "a"; case 2: "b"; default: "d"; }
    let entry = Block {
        name: n("entry"),
        instrs: vec![
            Inst::Alloca { dest: n("x") },
            Inst::Store { addr: local_i32("x"), value: ci32(2) },
            Inst::Load { dest: n("t1"), addr: local_i32("x") },
        ],
        term: Term::Switch {
            val: local_i32("t1"),
            cases: vec![
                SwitchCase { key: Some(1), target: n("case1") },
                SwitchCase { key: Some(2), target: n("case2") },
            ],
            default_dest: n("dflt"),
        },
    };
    let mk = |bname: &str, gname: &str, dest: &str| Block {
        name: n(bname),
        instrs: vec![printf_call(dest, vec![cstr(gname)])],
        term: Term::Br { target: n("end") },
    };
    let end = Block { name: n("end"), instrs: vec![], term: Term::Ret { val: Some(ci32(0)) } };
    let m = Module {
        functions: vec![Function {
            name: n("main"),
            params: vec![],
            blocks: vec![
                entry,
                mk("case1", ".str", "c1"),
                mk("case2", ".str.1", "c2"),
                mk("dflt", ".str.2", "c3"),
                end,
            ],
        }],
        globals: vec![
            str_global(".str", b"a"),
            str_global(".str.1", b"b"),
            str_global(".str.2", b"d"),
        ],
    };
    let mut it = LLVMIRInterpreter::new(m);
    let r = it.interpret(FUEL);
    assert_eq!(r, Outcome::Done);
    assert_eq!(it.output().as_slice(), b"b\n");
}

#[test]
fn function_call_with_return_value() {
    // int add(int a,int b){return a+b;} printf("%d", add(40,2));
    let add_fn = Function {
        name: n("add"),
        params: vec![n("a"), n("b")],
        blocks: vec![Block {
            name: n("entry"),
            instrs: vec![Inst::IntBin {
                op: IntOp::Add,
                dest: n("r"),
                a: local_i32("a"),
                b: local_i32("b"),
            }],
            term: Term::Ret { val: Some(local_i32("r")) },
        }],
    };
    let main_fn = one_block_main(
        vec![
            Inst::Call {
                dest: Some(n("call1")),
                callee: Callee::Name(n("add")),
                args: vec![ci32(40), ci32(2)],
            },
            printf_call("call2", vec![cstr(".str"), local_i32("call1")]),
        ],
        Term::Ret { val: Some(ci32(0)) },
    );
    let m = Module {
        functions: vec![add_fn, main_fn],
        globals: vec![str_global(".str", b"%d")],
    };
    let mut it = LLVMIRInterpreter::new(m);
    let r = it.interpret(FUEL);
    assert_eq!(r, Outcome::Done);
    assert_eq!(it.output().as_slice(), b"42\n");
}

#[test]
fn double_arithmetic() {
    // double a=1.5; double b=2.25; printf("%f", a+b);
    let ca = Operand::ConstDouble { bits: (1.5f64).to_bits() };
    let cb = Operand::ConstDouble { bits: (2.25f64).to_bits() };
    let instrs = vec![
        Inst::Alloca { dest: n("a") },
        Inst::Store { addr: local_f64("a"), value: ca },
        Inst::Alloca { dest: n("b") },
        Inst::Store { addr: local_f64("b"), value: cb },
        Inst::Load { dest: n("t1"), addr: local_f64("a") },
        Inst::Load { dest: n("t2"), addr: local_f64("b") },
        Inst::FloatBin {
            op: FloatOp::Add,
            dest: n("s"),
            a: local_f64("t1"),
            b: local_f64("t2"),
        },
        printf_call("call", vec![cstr(".str"), local_f64("s")]),
    ];
    let m = Module {
        functions: vec![one_block_main(instrs, Term::Ret { val: Some(ci32(0)) })],
        globals: vec![str_global(".str", b"%f")],
    };
    let mut it = LLVMIRInterpreter::new(m);
    let r = it.interpret(FUEL);
    match r {
        Outcome::FloatBin { op, wide, a, b } => {
            assert_eq!(op, FloatOp::Add);
            assert!(wide);
            let sum = f64::from_bits(a) + f64::from_bits(b);
            assert_eq!(sum, 3.75f64);
            let r2 = it.resume_float(sum.to_bits(), FUEL);
            match r2 {
                Outcome::FloatText { wide, bits } => {
                    assert!(wide);
                    let text = format!("{}", f64::from_bits(bits));
                    assert_eq!(text, "3.75");
                    let r3 = it.resume_text(text.into_bytes(), FUEL);
                    assert_eq!(r3, Outcome::Done);
                },
                other => panic!("expected a text request, got {:?}", other),
            }
        },
        other => panic!("expected a float request, got {:?}", other),
    }
    assert_eq!(it.output().as_slice(), b"3.75\n");
}
