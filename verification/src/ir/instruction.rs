//! The linear IR instruction set: tagged variants for function definitions,
//! immediate loads, register copies, binary operations, conditional branch,
//! jump, label definition, call, return and frame markers, together with
//! their mathematical views and their exact text rendering.

use vstd::prelude::*;
use vstd::string::StringExecFns;
use crate::render::{dec_digits, u64_to_dec};
use super::{Imm, Label, Reg};

verus! {

broadcast use vstd::std_specs::vec::group_vec_axioms;

/// The type of a value carried by the IR.
#[derive(Debug, Clone, Copy, PartialEq, Eq, Structural)]
pub enum Type {
    Null,
    U64,
}

impl Default for Type {
    fn default() -> (r: Self)
        ensures
            r == Type::Null,
    {
        Type::Null
    }
}

/// An IR instruction.
#[derive(Debug, PartialEq, Eq)]
pub enum Instruction {
    DefFunc(DefFunc),
    LoadImm(LoadImm),
    CopyReg(CopyReg),
    Add(Add),
    Sub(Sub),
    Mul(Mul),
    Div(Div),
    Grt(Grt),
    Copy(Copy),
    Conditional(Conditional),
    Jump(Jump),
    DefLabel(DefLabel),
    Call(Call),
    Return(Return),
    Enter(Enter),
    Leave(Leave),
}

/// A function definition wrapping one lowered body.
#[derive(Debug, PartialEq, Eq)]
pub struct DefFunc {
    pub name: String,
    pub params: Vec<(Reg, Type)>,
    pub body: Vec<Instruction>,
}

/// Loads an unsigned 64-bit constant into a register.
#[derive(Debug, Clone, PartialEq, Eq)]
pub struct LoadImm {
    pub des: Reg,
    pub imm: Imm,
}

/// Copies one register into another.
#[derive(Debug, Clone, PartialEq, Eq)]
pub struct CopyReg {
    pub des: Reg,
    pub src: Reg,
}

/// Addition: `des = lhs + rhs`.
#[derive(Debug, Clone, PartialEq, Eq)]
pub struct Add {
    pub des: Reg,
    pub lhs: Reg,
    pub rhs: Reg,
}

/// Subtraction: `des = lhs - rhs`.
#[derive(Debug, Clone, PartialEq, Eq)]
pub struct Sub {
    pub des: Reg,
    pub lhs: Reg,
    pub rhs: Reg,
}

/// Multiplication: `des = lhs * rhs`.
#[derive(Debug, Clone, PartialEq, Eq)]
pub struct Mul {
    pub des: Reg,
    pub lhs: Reg,
    pub rhs: Reg,
}

/// Division: `des = lhs / rhs`.
#[derive(Debug, Clone, PartialEq, Eq)]
pub struct Div {
    pub des: Reg,
    pub lhs: Reg,
    pub rhs: Reg,
}

/// Greater-than comparison: `des = lhs > rhs`, materialized as 0 or 1.
#[derive(Debug, Clone, PartialEq, Eq)]
pub struct Grt {
    pub des: Reg,
    pub lhs: Reg,
    pub rhs: Reg,
}

/// A generic copy, kept for compatibility; the back end does not lower it.
#[derive(Debug, Clone, PartialEq, Eq)]
pub struct Copy {
    pub to: Reg,
    pub from: Reg,
}

/// Branches to `label` when `reg` holds zero; otherwise falls through.
#[derive(Debug, Clone, PartialEq, Eq)]
pub struct Conditional {
    pub label: Label,
    pub reg: Reg,
}

/// A direct call with its argument registers and return-value register.
#[derive(Debug, Clone, PartialEq, Eq)]
pub struct Call {
    pub caller: Label,
    pub args: Vec<Reg>,
    pub ret: Reg,
}

/// An unconditional jump.
#[derive(Debug, Clone, PartialEq, Eq)]
pub struct Jump(pub Label);

/// Defines a label at this point of the sequence.
#[derive(Debug, Clone, PartialEq, Eq)]
pub struct DefLabel(pub Label);

/// Returns the value of the register, or nothing when the value already
/// sits in the return slot of the calling convention.
#[derive(Debug, Clone, PartialEq, Eq)]
pub struct Return(pub Option<Reg>);

/// Function prologue marker.
#[derive(Debug, Clone, PartialEq, Eq)]
pub struct Enter;

/// Function epilogue marker.
#[derive(Debug, Clone, PartialEq, Eq)]
pub struct Leave;

/// The mathematical view of a function definition.
#[verifier::ext_equal]
pub struct DefFuncV {
    pub name: Seq<char>,
    pub params: Seq<(int, Type)>,
    pub body: Seq<InstrV>,
}

/// The mathematical view of an instruction: registers as integers, labels
/// and names as character sequences.
#[verifier::ext_equal]
pub enum InstrV {
    DefFunc(DefFuncV),
    LoadImm { des: int, imm: u64 },
    CopyReg { des: int, src: int },
    Add { des: int, lhs: int, rhs: int },
    Sub { des: int, lhs: int, rhs: int },
    Mul { des: int, lhs: int, rhs: int },
    Div { des: int, lhs: int, rhs: int },
    Grt { des: int, lhs: int, rhs: int },
    Copy { to: int, from: int },
    Conditional { label: Seq<char>, reg: int },
    Jump { label: Seq<char> },
    DefLabel { label: Seq<char> },
    Call { caller: Seq<char>, args: Seq<int>, ret: int },
    Return { reg: Option<int> },
    Enter,
    Leave,
}

/// The view of a function definition.
pub open spec fn def_func_view(d: DefFunc) -> DefFuncV
    decreases d,
{
    DefFuncV {
        name: d.name@,
        params: d.params@.map_values(|p: (Reg, Type)| (p.0@, p.1)),
        body: instrs_view(d.body@, d.body.len() as int),
    }
}

/// The views of the first `n` instructions of `v`, in order.
pub open spec fn instrs_view(v: Seq<Instruction>, n: int) -> Seq<InstrV>
    decreases v, n,
{
    if 1 <= n <= v.len() {
        instrs_view(v, n - 1).push(instr_view(v[n - 1]))
    } else {
        Seq::empty()
    }
}

/// The view of one instruction.
pub open spec fn instr_view(i: Instruction) -> InstrV
    decreases i,
{
    match i {
        Instruction::DefFunc(d) => InstrV::DefFunc(def_func_view(d)),
        Instruction::LoadImm(x) => InstrV::LoadImm { des: x.des@, imm: x.imm.0 },
        Instruction::CopyReg(x) => InstrV::CopyReg { des: x.des@, src: x.src@ },
        Instruction::Add(x) => InstrV::Add { des: x.des@, lhs: x.lhs@, rhs: x.rhs@ },
        Instruction::Sub(x) => InstrV::Sub { des: x.des@, lhs: x.lhs@, rhs: x.rhs@ },
        Instruction::Mul(x) => InstrV::Mul { des: x.des@, lhs: x.lhs@, rhs: x.rhs@ },
        Instruction::Div(x) => InstrV::Div { des: x.des@, lhs: x.lhs@, rhs: x.rhs@ },
        Instruction::Grt(x) => InstrV::Grt { des: x.des@, lhs: x.lhs@, rhs: x.rhs@ },
        Instruction::Copy(x) => InstrV::Copy { to: x.to@, from: x.from@ },
        Instruction::Conditional(x) => InstrV::Conditional { label: x.label@, reg: x.reg@ },
        Instruction::Jump(x) => InstrV::Jump { label: x.0@ },
        Instruction::DefLabel(x) => InstrV::DefLabel { label: x.0@ },
        Instruction::Call(x) => InstrV::Call {
            caller: x.caller@,
            args: x.args@.map_values(|r: Reg| r@),
            ret: x.ret@,
        },
        Instruction::Return(x) => InstrV::Return {
            reg: match x.0 {
                Some(r) => Some(r@),
                None => None,
            },
        },
        Instruction::Enter(_) => InstrV::Enter,
        Instruction::Leave(_) => InstrV::Leave,
    }
}

impl View for Instruction {
    type V = InstrV;

    open spec fn view(&self) -> InstrV {
        instr_view(*self)
    }
}

impl View for DefFunc {
    type V = DefFuncV;

    open spec fn view(&self) -> DefFuncV {
        def_func_view(*self)
    }
}

/// The text of a register: `%` followed by its number.
pub open spec fn reg_text(n: int) -> Seq<char> {
    "%"@ + dec_digits(n as nat)
}

/// The text of a value type.
pub open spec fn type_text(t: Type) -> Seq<char> {
    match t {
        Type::Null => "null"@,
        Type::U64 => "u64"@,
    }
}

/// `parts` joined by `sep`.
pub open spec fn join_texts(parts: Seq<Seq<char>>, sep: Seq<char>) -> Seq<char>
    decreases parts.len(),
{
    if parts.len() == 0 {
        Seq::empty()
    } else if parts.len() == 1 {
        parts[0]
    } else {
        join_texts(parts.drop_last(), sep) + sep + parts.last()
    }
}

/// The rendered parameter list entries: `%r: type`.
pub open spec fn param_texts(params: Seq<(int, Type)>) -> Seq<Seq<char>> {
    params.map_values(|p: (int, Type)| reg_text(p.0) + ": "@ + type_text(p.1))
}

/// The rendered texts of the first `n` instructions of `body`.
pub open spec fn body_texts(body: Seq<InstrV>, n: int) -> Seq<Seq<char>>
    decreases body, n,
{
    if 1 <= n <= body.len() {
        body_texts(body, n - 1).push(instr_text(body[n - 1]))
    } else {
        Seq::empty()
    }
}

/// The text of a function definition.
pub open spec fn def_func_text(d: DefFuncV) -> Seq<char>
    decreases d,
{
    "function "@ + d.name + "("@ + join_texts(param_texts(d.params), ", "@) + ") {\n"@
        + join_texts(body_texts(d.body, d.body.len() as int), "\n"@) + "\n}\n\n"@
}

/// The exact text of one rendered IR instruction.
pub open spec fn instr_text(i: InstrV) -> Seq<char>
    decreases i,
{
    match i {
        InstrV::DefFunc(d) => def_func_text(d),
        InstrV::LoadImm { des, imm } => "    load "@ + reg_text(des) + " "@ + dec_digits(
            imm as nat,
        ),
        InstrV::CopyReg { des, src } => "    copyreg "@ + reg_text(des) + " "@ + reg_text(src),
        InstrV::Add { des, lhs, rhs } => "    "@ + reg_text(des) + " = "@ + reg_text(lhs) + " + "@
            + reg_text(rhs),
        InstrV::Sub { des, lhs, rhs } => "    "@ + reg_text(des) + " = "@ + reg_text(lhs) + " - "@
            + reg_text(rhs),
        InstrV::Mul { des, lhs, rhs } => "    "@ + reg_text(des) + " = "@ + reg_text(lhs) + " * "@
            + reg_text(rhs),
        InstrV::Div { des, lhs, rhs } => "    "@ + reg_text(des) + " = "@ + reg_text(lhs) + " / "@
            + reg_text(rhs),
        InstrV::Grt { des, lhs, rhs } => "    "@ + reg_text(des) + " = "@ + reg_text(lhs) + " > "@
            + reg_text(rhs),
        InstrV::Copy { to, from } => "    copy "@ + reg_text(to) + " "@ + reg_text(from),
        InstrV::Conditional { label, reg } => "    if "@ + reg_text(reg) + " goto "@ + label,
        InstrV::Jump { label } => "    goto "@ + label,
        InstrV::DefLabel { label } => label + ":"@,
        InstrV::Call { caller, args, ret } => "    call "@ + caller + "("@ + join_texts(
            args.map_values(|r: int| reg_text(r)),
            ", "@,
        ) + ") -> "@ + reg_text(ret),
        InstrV::Return { reg } => match reg {
            Some(r) => "    return "@ + reg_text(r),
            None => "    return"@,
        },
        InstrV::Enter => "    enter"@,
        InstrV::Leave => "    leave"@,
    }
}

impl Reg {
    /// The register rendered as text.
    pub fn to_text(&self) -> (r: String)
        ensures
            r@ == reg_text(self@),
    {
        let mut s = String::from_str("%");
        let d = u64_to_dec(self.0 as u64);
        s.append(d.as_str());
        s
    }
}

impl Imm {
    /// The immediate rendered as decimal text.
    pub fn to_text(&self) -> (r: String)
        ensures
            r@ == dec_digits(self.0 as nat),
    {
        u64_to_dec(self.0)
    }
}

impl Type {
    /// The type rendered as text.
    pub fn to_text(&self) -> (r: String)
        ensures
            r@ == type_text(*self),
    {
        match self {
            Type::Null => String::from_str("null"),
            Type::U64 => String::from_str("u64"),
        }
    }
}

impl Jump {
    /// The name of the jump's target label.
    pub fn name(&self) -> (r: String)
        ensures
            r@ == self.0@,
    {
        self.0.0.clone()
    }
}

impl DefLabel {
    /// The name of the label being defined.
    pub fn name(&self) -> (r: String)
        ensures
            r@ == self.0@,
    {
        self.0.0.clone()
    }
}

/// Joins already-rendered parts with a separator; `texts` names what each
/// part reads as.
fn join_with(parts: &Vec<String>, sep: &str, Ghost(texts): Ghost<Seq<Seq<char>>>) -> (r: String)
    requires
        texts.len() == parts@.len(),
        forall|j: int| 0 <= j < texts.len() ==> texts[j] == (#[trigger] parts@[j])@,
    ensures
        r@ == join_texts(texts, sep@),
{
    let mut out = String::new();
    let n = parts.len();
    let mut i: usize = 0;
    while i < n
        invariant
            n == parts@.len(),
            texts.len() == n,
            forall|j: int| 0 <= j < texts.len() ==> texts[j] == (#[trigger] parts@[j])@,
            i <= n,
            out@ == join_texts(texts.take(i as int), sep@),
        decreases n - i,
    {
        if i > 0 {
            out.append(sep);
        }
        out.append(parts[i].as_str());
        proof {
            let t = texts.take(i + 1 as int);
            assert(t.drop_last() =~= texts.take(i as int));
            assert(t.last() == texts[i as int]);
            assert(out@ =~= join_texts(t, sep@));
        }
        i = i + 1;
    }
    proof {
        assert(texts.take(n as int) =~= texts);
    }
    out
}

/// Emits the three-address text of a binary operation.
fn op_to_text(des: &Reg, lhs: &Reg, rhs: &Reg, sym: &str) -> (r: String)
    ensures
        r@ == "    "@ + reg_text(des@) + " = "@ + reg_text(lhs@) + sym@ + reg_text(rhs@),
{
    let mut s = String::from_str("    ");
    let dt = des.to_text();
    s.append(dt.as_str());
    s.append(" = ");
    let lt = lhs.to_text();
    s.append(lt.as_str());
    s.append(sym);
    let rt = rhs.to_text();
    s.append(rt.as_str());
    s
}

impl DefFunc {
    /// The function definition rendered as text.
    pub fn to_text(&self) -> (r: String)
        ensures
            r@ == def_func_text(self@),
        decreases *self,
    {
        let ghost pv = self.params@.map_values(|p: (Reg, Type)| (p.0@, p.1));
        let ghost ptexts = param_texts(pv);
        let mut parts: Vec<String> = Vec::new();
        let mut i: usize = 0;
        let n = self.params.len();
        while i < n
            invariant
                n == self.params@.len(),
                pv == self.params@.map_values(|p: (Reg, Type)| (p.0@, p.1)),
                ptexts == param_texts(pv),
                i <= n,
                parts@.len() == i,
                forall|k: int| 0 <= k < i ==> (#[trigger] parts@[k])@ == ptexts[k],
            decreases n - i,
        {
            let mut t = self.params[i].0.to_text();
            t.append(": ");
            let ty = self.params[i].1.to_text();
            t.append(ty.as_str());
            proof {
                assert(pv[i as int] == (self.params@[i as int].0@, self.params@[i as int].1));
                assert(ptexts[i as int] == reg_text(pv[i as int].0) + ": "@ + type_text(
                    pv[i as int].1,
                ));
            }
            parts.push(t);
            i = i + 1;
        }
        let params_joined = join_with(&parts, ", ", Ghost(ptexts));

        let ghost bv = instrs_view(self.body@, self.body@.len() as int);
        let mut body_parts: Vec<String> = Vec::new();
        let mut j: usize = 0;
        let m = self.body.len();
        proof {
            lemma_instrs_view_len(self.body@, m as int);
        }
        while j < m
            invariant
                m == self.body@.len(),
                bv == instrs_view(self.body@, m as int),
                bv.len() == m,
                j <= m,
                body_parts@.len() == j,
                forall|k: int|
                    0 <= k < j ==> (#[trigger] body_parts@[k])@ == instr_text(bv[k]),
            decreases m - j,
        {
            proof {
                lemma_instrs_view_index(self.body@, m as int, j as int);
            }
            let t = self.body[j].to_text();
            body_parts.push(t);
            j = j + 1;
        }
        proof {
            lemma_body_texts_full(bv);
        }
        let body_joined = join_with(
            &body_parts,
            "\n",
            Ghost(Seq::new(bv.len(), |k: int| instr_text(bv[k]))),
        );

        let mut out = String::from_str("function ");
        out.append(self.name.as_str());
        out.append("(");
        out.append(params_joined.as_str());
        out.append(") {\n");
        out.append(body_joined.as_str());
        out.append("\n}\n\n");
        proof {
            assert(out@ =~= def_func_text(self@));
        }
        out
    }
}

/// The rendered texts of a body are exactly its instructions' texts.
pub proof fn lemma_body_texts_full(bv: Seq<InstrV>)
    ensures
        body_texts(bv, bv.len() as int) =~= Seq::new(bv.len(), |k: int| instr_text(bv[k])),
{
    lemma_body_texts_prefix(bv, bv.len() as int);
}

/// The rendered texts of the first `n` instructions, pointwise.
pub proof fn lemma_body_texts_prefix(bv: Seq<InstrV>, n: int)
    requires
        0 <= n <= bv.len(),
    ensures
        body_texts(bv, n).len() == n,
        forall|k: int| 0 <= k < n ==> body_texts(bv, n)[k] == instr_text(bv[k]),
    decreases n,
{
    if n > 0 {
        lemma_body_texts_prefix(bv, n - 1);
    }
}

/// The views of the first `n` instructions index as the view of each.
pub proof fn lemma_instrs_view_index(v: Seq<Instruction>, n: int, j: int)
    requires
        0 <= j < n <= v.len(),
    ensures
        instrs_view(v, n).len() == n,
        instrs_view(v, n)[j] == instr_view(v[j]),
    decreases n,
{
    lemma_instrs_view_len(v, n - 1);
    if j < n - 1 {
        lemma_instrs_view_index(v, n - 1, j);
    }
}

/// The view sequence of the first `n` instructions has length `n`.
pub proof fn lemma_instrs_view_len(v: Seq<Instruction>, n: int)
    requires
        0 <= n <= v.len(),
    ensures
        instrs_view(v, n).len() == n,
    decreases n,
{
    if n > 0 {
        lemma_instrs_view_len(v, n - 1);
    }
}

/// Appending an instruction does not disturb the views of the ones before
/// it, and extends the full view by the view of the new one.
pub proof fn lemma_instrs_view_push(v: Seq<Instruction>, x: Instruction, n: int)
    requires
        0 <= n <= v.len(),
    ensures
        instrs_view(v.push(x), n) == instrs_view(v, n),
    decreases n,
{
    if n > 0 {
        lemma_instrs_view_push(v, x, n - 1);
        assert(v.push(x)[n - 1] == v[n - 1]);
    }
}

/// The full view of an extended sequence is the old full view plus the view
/// of the new instruction.
pub proof fn lemma_instrs_view_push_full(v: Seq<Instruction>, x: Instruction)
    ensures
        instrs_view(v.push(x), v.len() as int + 1) == instrs_view(v, v.len() as int).push(
            instr_view(x),
        ),
{
    lemma_instrs_view_push(v, x, v.len() as int);
    let w = v.push(x);
    assert(w[v.len() as int] == x);
    assert(instrs_view(w, v.len() as int + 1) == instrs_view(w, v.len() as int).push(
        instr_view(w[v.len() as int]),
    ));
}

impl Instruction {
    /// The instruction rendered exactly as the IR text layout demands.
    pub fn to_text(&self) -> (r: String)
        ensures
            r@ == instr_text(self@),
        decreases *self,
    {
        match self {
            Instruction::DefFunc(d) => d.to_text(),
            Instruction::LoadImm(x) => {
                let mut s = String::from_str("    load ");
                let dt = x.des.to_text();
                s.append(dt.as_str());
                s.append(" ");
                let it = x.imm.to_text();
                s.append(it.as_str());
                s
            },
            Instruction::CopyReg(x) => {
                let mut s = String::from_str("    copyreg ");
                let dt = x.des.to_text();
                s.append(dt.as_str());
                s.append(" ");
                let st = x.src.to_text();
                s.append(st.as_str());
                s
            },
            Instruction::Add(x) => op_to_text(&x.des, &x.lhs, &x.rhs, " + "),
            Instruction::Sub(x) => op_to_text(&x.des, &x.lhs, &x.rhs, " - "),
            Instruction::Mul(x) => op_to_text(&x.des, &x.lhs, &x.rhs, " * "),
            Instruction::Div(x) => op_to_text(&x.des, &x.lhs, &x.rhs, " / "),
            Instruction::Grt(x) => op_to_text(&x.des, &x.lhs, &x.rhs, " > "),
            Instruction::Copy(x) => {
                let mut s = String::from_str("    copy ");
                let tt = x.to.to_text();
                s.append(tt.as_str());
                s.append(" ");
                let ft = x.from.to_text();
                s.append(ft.as_str());
                s
            },
            Instruction::Conditional(x) => {
                let mut s = String::from_str("    if ");
                let rt = x.reg.to_text();
                s.append(rt.as_str());
                s.append(" goto ");
                s.append(x.label.0.as_str());
                s
            },
            Instruction::Jump(x) => {
                let mut s = String::from_str("    goto ");
                s.append(x.0.0.as_str());
                s
            },
            Instruction::DefLabel(x) => {
                let mut s = x.0.0.clone();
                s.append(":");
                s
            },
            Instruction::Call(x) => {
                let ghost atexts = x.args@.map_values(|rg: Reg| rg@).map_values(
                    |v: int| reg_text(v),
                );
                let mut parts: Vec<String> = Vec::new();
                let mut i: usize = 0;
                let n = x.args.len();
                while i < n
                    invariant
                        n == x.args@.len(),
                        atexts == x.args@.map_values(|rg: Reg| rg@).map_values(
                            |v: int| reg_text(v),
                        ),
                        atexts.len() == n,
                        i <= n,
                        parts@.len() == i,
                        forall|k: int| 0 <= k < i ==> (#[trigger] parts@[k])@ == atexts[k],
                    decreases n - i,
                {
                    let t = x.args[i].to_text();
                    proof {
                        assert(atexts[i as int] == reg_text(x.args@[i as int]@));
                    }
                    parts.push(t);
                    i = i + 1;
                }
                let args_joined = join_with(&parts, ", ", Ghost(atexts));
                let mut s = String::from_str("    call ");
                s.append(x.caller.0.as_str());
                s.append("(");
                s.append(args_joined.as_str());
                s.append(") -> ");
                let rt = x.ret.to_text();
                s.append(rt.as_str());
                s
            },
            Instruction::Return(x) => {
                match &x.0 {
                    Some(rg) => {
                        let mut s = String::from_str("    return ");
                        let rt = rg.to_text();
                        s.append(rt.as_str());
                        s
                    },
                    None => String::from_str("    return"),
                }
            },
            Instruction::Enter(_) => String::from_str("    enter"),
            Instruction::Leave(_) => String::from_str("    leave"),
        }
    }
}

} // verus!
