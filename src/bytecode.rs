use vstd::prelude::*;
use crate::ids::{AttrId, FunId, Label, ModuleId, QualifiedId, TempIndex};
use crate::text::{decimal, push_decimal, temp_name};

verus! {

/// The kind of a proposition instruction.
#[derive(Clone, Copy, Debug, PartialEq, Eq, Structural)]
pub enum PropKind {
    Assert,
    Assume,
}

/// The operation that a call instruction performs.
#[derive(Clone, Copy, Debug, PartialEq, Eq, Structural)]
pub enum Operation {
    /// A call of a function known statically.
    Function(ModuleId, FunId),
    BorrowLoc,
    ReadRef,
    WriteRef,
    Add,
    Not,
}

/// One instruction of a function's code.
#[derive(Clone, Copy, Debug, PartialEq, Eq, Structural)]
pub enum Bytecode {
    Assign(AttrId, TempIndex, TempIndex),
    Call(AttrId, Option<TempIndex>, Operation, Option<TempIndex>),
    Ret(AttrId, Option<TempIndex>),
    Label(AttrId, Label),
    Jump(AttrId, Label),
    Branch(AttrId, Label, Label, TempIndex),
    Prop(AttrId, PropKind, TempIndex),
    Nop(AttrId),
}

/// The attribute id of an instruction.
pub open spec fn attr_of(b: Bytecode) -> AttrId {
    match b {
        Bytecode::Assign(a, _, _) => a,
        Bytecode::Call(a, _, _, _) => a,
        Bytecode::Ret(a, _) => a,
        Bytecode::Label(a, _) => a,
        Bytecode::Jump(a, _) => a,
        Bytecode::Branch(a, _, _, _) => a,
        Bytecode::Prop(a, _, _) => a,
        Bytecode::Nop(a) => a,
    }
}

/// The label that an instruction declares, if it is a label declaration.
pub open spec fn label_of(b: Bytecode) -> Option<Label> {
    match b {
        Bytecode::Label(_, l) => Some(l),
        _ => None,
    }
}

/// The callee of an instruction, if it is a direct call of a known function.
pub open spec fn callee_of(b: Bytecode) -> Option<QualifiedId> {
    match b {
        Bytecode::Call(_, _, Operation::Function(m, f), _) => Some((m, f)),
        _ => None,
    }
}

/// The text in which an operation is shown.
pub open spec fn operation_text(op: Operation) -> Seq<char> {
    match op {
        Operation::Function(m, f) => "M"@ + decimal(m as nat) + "::F"@ + decimal(f as nat),
        Operation::BorrowLoc => "borrow_local"@,
        Operation::ReadRef => "read_ref"@,
        Operation::WriteRef => "write_ref"@,
        Operation::Add => "add"@,
        Operation::Not => "not"@,
    }
}

/// The text in which a label is shown.
pub open spec fn label_text(l: Label) -> Seq<char> {
    "L"@ + decimal(l as nat)
}

/// The text in which an instruction is shown.
pub open spec fn bytecode_text(b: Bytecode) -> Seq<char> {
    match b {
        Bytecode::Assign(_, d, s) => temp_name(d as nat) + " := "@ + temp_name(s as nat),
        Bytecode::Call(_, d, op, s) => (match d {
            Some(d) => temp_name(d as nat) + " := "@,
            None => Seq::empty(),
        }) + operation_text(op) + "("@ + (match s {
            Some(s) => temp_name(s as nat),
            None => Seq::empty(),
        }) + ")"@,
        Bytecode::Ret(_, v) => "return"@ + (match v {
            Some(v) => " "@ + temp_name(v as nat),
            None => Seq::empty(),
        }),
        Bytecode::Label(_, l) => "label "@ + label_text(l),
        Bytecode::Jump(_, l) => "jump "@ + label_text(l),
        Bytecode::Branch(_, t, e, c) => "if ("@ + temp_name(c as nat) + ") goto "@ + label_text(t)
            + " else goto "@ + label_text(e),
        Bytecode::Prop(_, k, c) => (match k {
            PropKind::Assert => "assert "@,
            PropKind::Assume => "assume "@,
        }) + temp_name(c as nat),
        Bytecode::Nop(_) => "nop"@,
    }
}

fn push_temp(out: &mut String, t: TempIndex)
    ensures
        final(out)@ == old(out)@ + temp_name(t as nat),
{
    out.append("$t");
    push_decimal(out, t);
    assert(final(out)@ =~= old(out)@ + temp_name(t as nat));
}

fn push_label(out: &mut String, l: Label)
    ensures
        final(out)@ == old(out)@ + label_text(l),
{
    out.append("L");
    push_decimal(out, l);
    assert(final(out)@ =~= old(out)@ + label_text(l));
}

impl Operation {
    /// Appends the text of this operation to `out`.
    pub fn push_text(&self, out: &mut String)
        ensures
            final(out)@ == old(out)@ + operation_text(*self),
    {
        let ghost start = out@;
        match self {
            Operation::Function(m, f) => {
                out.append("M");
                push_decimal(out, *m);
                out.append("::F");
                push_decimal(out, *f);
            },
            Operation::BorrowLoc => out.append("borrow_local"),
            Operation::ReadRef => out.append("read_ref"),
            Operation::WriteRef => out.append("write_ref"),
            Operation::Add => out.append("add"),
            Operation::Not => out.append("not"),
        }
        assert(out@ =~= start + operation_text(*self));
    }
}

impl Bytecode {
    /// The attribute id of this instruction.
    pub fn get_attr_id(&self) -> (r: AttrId)
        ensures
            r == attr_of(*self),
    {
        match self {
            Bytecode::Assign(a, _, _) => *a,
            Bytecode::Call(a, _, _, _) => *a,
            Bytecode::Ret(a, _) => *a,
            Bytecode::Label(a, _) => *a,
            Bytecode::Jump(a, _) => *a,
            Bytecode::Branch(a, _, _, _) => *a,
            Bytecode::Prop(a, _, _) => *a,
            Bytecode::Nop(a) => *a,
        }
    }

    /// Whether this instruction is a proposition (an assertion or an assumption).
    pub fn is_prop(&self) -> (r: bool)
        ensures
            r == self is Prop,
    {
        matches!(self, Bytecode::Prop(_, _, _))
    }

    /// Appends the text of this instruction to `out`.
    pub fn push_text(&self, out: &mut String)
        ensures
            final(out)@ == old(out)@ + bytecode_text(*self),
    {
        let ghost start = out@;
        match self {
            Bytecode::Assign(_, d, s) => {
                push_temp(out, *d);
                out.append(" := ");
                push_temp(out, *s);
            },
            Bytecode::Call(_, d, op, s) => {
                if let Some(d) = d {
                    push_temp(out, *d);
                    out.append(" := ");
                }
                op.push_text(out);
                out.append("(");
                if let Some(s) = s {
                    push_temp(out, *s);
                }
                out.append(")");
            },
            Bytecode::Ret(_, v) => {
                out.append("return");
                if let Some(v) = v {
                    out.append(" ");
                    push_temp(out, *v);
                }
            },
            Bytecode::Label(_, l) => {
                out.append("label ");
                push_label(out, *l);
            },
            Bytecode::Jump(_, l) => {
                out.append("jump ");
                push_label(out, *l);
            },
            Bytecode::Branch(_, t, e, c) => {
                out.append("if (");
                push_temp(out, *c);
                out.append(") goto ");
                push_label(out, *t);
                out.append(" else goto ");
                push_label(out, *e);
            },
            Bytecode::Prop(_, k, c) => {
                match k {
                    PropKind::Assert => out.append("assert "),
                    PropKind::Assume => out.append("assume "),
                }
                push_temp(out, *c);
            },
            Bytecode::Nop(_) => out.append("nop"),
        }
        assert(out@ =~= start + bytecode_text(*self));
    }
}

} // verus!
