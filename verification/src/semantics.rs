//! The mathematical model of the engine: a small-step machine over the
//! control stack, the operand stack and the frame stack, and the fuelled
//! big-step evaluation function [`run_spec`] that every `run` call is proved
//! to implement.

use vstd::prelude::*;

use crate::module::{Instr, Locals};
use crate::store::{spec_find_function, StoreV};
use crate::values::{Num, Val};

verus! {

/// The step budget of one evaluation: the driver loop spends one unit per
/// dispatched instruction and fails when the budget is gone.
pub const MAX_FUEL: u64 = 0xffff_ffff_ffff_ffff;

/// Model of one activation record.
#[verifier::ext_equal]
pub ghost struct SFrame {
    /// Operand-stack height at frame creation: the floor below which this
    /// invocation never reads or writes.
    pub init: nat,
    /// Local slots: parameters followed by declared locals.
    pub locals: Seq<Val>,
    /// Declared result count.
    pub arity: nat,
}

/// Model of the runner's share of the machine: operand stack and frames.
#[verifier::ext_equal]
pub ghost struct RState {
    pub ops: Seq<Val>,
    pub frames: Seq<SFrame>,
}

/// Model of the whole machine: one (cursor, function id) control-stack entry
/// per in-progress invocation, on top of the runner state.
#[verifier::ext_equal]
pub ghost struct State {
    pub ctrl: Seq<(nat, nat)>,
    pub r: RState,
}

/// What one machine step yields: a successor state, the final values (the
/// control stack was empty), or a failure.
pub ghost enum StepResult {
    Progress(State),
    Done(Seq<Val>),
    Failed,
}

/// What a whole evaluation yields.
pub ghost enum Outcome {
    Values(Seq<Val>),
    Failed,
}

// ---------------------------------------------------------------------------
// Locals construction

/// The local slots a declaration list adds: for each run, `repeat` copies of
/// the type's default value, in declaration order.
pub open spec fn locals_of_decls(decls: Seq<Locals>) -> Seq<Val>
    decreases decls.len(),
{
    if decls.len() == 0 {
        Seq::empty()
    } else {
        locals_of_decls(decls.drop_last()) + Seq::new(
            decls.last().repeat as nat,
            |i: int| Val::spec_default(decls.last().ty),
        )
    }
}

/// A frame's full locals sequence: the arguments followed by the declared
/// locals' defaults.
pub open spec fn build_locals(args: Seq<Val>, decls: Seq<Locals>) -> Seq<Val> {
    args + locals_of_decls(decls)
}

/// Pushes a fresh frame: the current operand-stack height becomes its floor;
/// the operand stack itself is untouched.
pub open spec fn push_frame_r(r: RState, args: Seq<Val>, decls: Seq<Locals>, arity: nat) -> RState {
    RState {
        ops: r.ops,
        frames: r.frames.push(
            SFrame { init: r.ops.len(), locals: build_locals(args, decls), arity },
        ),
    }
}

// ---------------------------------------------------------------------------
// Instruction effects on the runner state

/// The three 32-bit integer combinators of the supported subset.
#[derive(Clone, Copy, Debug, PartialEq, Eq, Structural)]
pub enum BinOp {
    Add,
    Sub,
    LtU,
}

/// The value a binary combinator produces: wrapping arithmetic for add and
/// subtract; unsigned comparison mapped to 1/0 for less-than.
pub open spec fn apply_binop(op: BinOp, lhs: i32, rhs: i32) -> Val {
    match op {
        BinOp::Add => Val::Num(Num::I32(lhs.wrapping_add(rhs))),
        BinOp::Sub => Val::Num(Num::I32(lhs.wrapping_sub(rhs))),
        BinOp::LtU => Val::Num(Num::I32(if (lhs as u32) < (rhs as u32) { 1i32 } else { 0i32 })),
    }
}

/// Reading the indexed local slot of the innermost frame and pushing it;
/// fails on a missing frame or an out-of-range index.
pub open spec fn op_local_get(r: RState, x: u32) -> Option<RState> {
    if r.frames.len() == 0 {
        None
    } else if x < r.frames.last().locals.len() {
        Some(RState { ops: r.ops.push(r.frames.last().locals[x as int]), frames: r.frames })
    } else {
        None
    }
}

/// Popping one value into the indexed local slot of the innermost frame;
/// fails on a missing frame, an out-of-range index, or a pop that would dig
/// below the frame's floor.
pub open spec fn op_local_set(r: RState, x: u32) -> Option<RState> {
    if r.frames.len() == 0 {
        None
    } else if r.ops.len() > r.frames.last().init && x < r.frames.last().locals.len() {
        Some(
            RState {
                ops: r.ops.drop_last(),
                frames: r.frames.update(
                    r.frames.len() - 1,
                    SFrame {
                        init: r.frames.last().init,
                        locals: r.frames.last().locals.update(x as int, r.ops.last()),
                        arity: r.frames.last().arity,
                    },
                ),
            },
        )
    } else {
        None
    }
}

/// Popping one 32-bit integer (a condition); fails on a missing frame, a pop
/// below the floor, or a non-integer tag.
pub open spec fn op_pop_i32(r: RState) -> Option<(RState, i32)> {
    if r.frames.len() == 0 {
        None
    } else if r.ops.len() > r.frames.last().init {
        match r.ops.last() {
            Val::Num(Num::I32(c)) => Some(
                (RState { ops: r.ops.drop_last(), frames: r.frames }, c),
            ),
            _ => None,
        }
    } else {
        None
    }
}

/// Popping two operands (first popped is the right-hand one), applying a
/// 32-bit combinator, pushing the result; fails on a missing frame, pops
/// below the floor, or non-integer tags.
pub open spec fn op_binop_i32(r: RState, op: BinOp) -> Option<RState> {
    if r.frames.len() == 0 {
        None
    } else if r.ops.len() >= r.frames.last().init + 2 {
        match (r.ops[r.ops.len() - 2], r.ops.last()) {
            (Val::Num(Num::I32(lhs)), Val::Num(Num::I32(rhs))) => Some(
                RState {
                    ops: r.ops.drop_last().drop_last().push(apply_binop(op, lhs, rhs)),
                    frames: r.frames,
                },
            ),
            _ => None,
        }
    } else {
        None
    }
}

/// Entering a callee: resolves the callee's parameter count from its static
/// type, moves exactly that many operands (order preserved) into the new
/// frame's locals together with the callee's declared locals, and records
/// the shrunken stack height as the new floor.
pub open spec fn op_call(s: StoreV, r: RState, g: u32) -> Option<RState> {
    if r.frames.len() == 0 {
        None
    } else if g >= s.funcs.len() {
        None
    } else if s.funcs[g as int].0 >= s.types.len() {
        None
    } else {
        let ty = s.types[s.funcs[g as int].0 as int];
        let np = ty.params@.len();
        if r.ops.len() >= r.frames.last().init + np {
            let args = r.ops.skip(r.ops.len() - np);
            let rest = r.ops.take(r.ops.len() - np);
            Some(
                push_frame_r(
                    RState { ops: rest, frames: r.frames },
                    args,
                    s.funcs[g as int].1.locals@,
                    ty.results@.len(),
                ),
            )
        } else {
            None
        }
    }
}

/// Leaving the innermost frame: exactly `arity` values are taken from the
/// stack top as the results, everything above the frame's floor and below
/// them is discarded, and the results land on the truncated stack. Fails
/// when the stack holds fewer than `floor + arity` values.
pub open spec fn op_return(r: RState) -> Option<RState> {
    if r.frames.len() == 0 {
        None
    } else if r.ops.len() >= r.frames.last().init + r.frames.last().arity {
        Some(
            RState {
                ops: r.ops.take(r.frames.last().init as int) + r.ops.skip(
                    r.ops.len() - r.frames.last().arity,
                ),
                frames: r.frames.drop_last(),
            },
        )
    } else {
        None
    }
}

// ---------------------------------------------------------------------------
// Bracket matching

/// What a forward scan looks for. A scan for the else-target also accepts
/// the construct's own end, so a then-branch without an else still reaches
/// just past its enclosing end.
#[derive(Clone, Copy, Debug, PartialEq, Eq, Structural)]
pub enum ScanTarget {
    Else,
    End,
}

/// Whether an instruction closes the scan at nesting depth zero.
pub open spec fn matches_target(ins: Instr, t: ScanTarget) -> bool {
    match t {
        ScanTarget::Else => ins == Instr::IfElse || ins == Instr::End,
        ScanTarget::End => ins == Instr::End,
    }
}

/// How an instruction that did not match moves the nesting depth: block and
/// if starts go one deeper, an end comes one back up.
pub open spec fn scan_depth_change(ins: Instr, depth: nat) -> nat {
    match ins {
        Instr::BlockStart(_) => depth + 1,
        Instr::IfStart(_) => depth + 1,
        Instr::End => if depth > 0 {
            (depth - 1) as nat
        } else {
            0
        },
        _ => depth,
    }
}

/// The position of the first target instruction at nesting depth zero, from
/// position `i` at starting depth `depth`; `None` when the scan runs off the
/// end of the body.
pub open spec fn find_match(expr: Seq<Instr>, i: int, depth: nat, t: ScanTarget) -> Option<int>
    decreases expr.len() - i,
{
    if i < 0 || i >= expr.len() {
        None
    } else if depth == 0 && matches_target(expr[i], t) {
        Some(i)
    } else {
        find_match(expr, i + 1, scan_depth_change(expr[i], depth), t)
    }
}

// ---------------------------------------------------------------------------
// The machine step

/// The top control entry, its cursor moved to `c`.
pub open spec fn at_cursor(ctrl: Seq<(nat, nat)>, c: nat) -> Seq<(nat, nat)> {
    ctrl.update(ctrl.len() - 1, (c, ctrl.last().1))
}

/// A return transition: shape the operand stack, pop the frame, pop the
/// control entry.
pub open spec fn ret_step(st: State) -> StepResult {
    match op_return(st.r) {
        Some(r2) => StepResult::Progress(State { ctrl: st.ctrl.drop_last(), r: r2 }),
        None => StepResult::Failed,
    }
}

/// The effect of dispatching one instruction of the innermost body, cursor
/// advancement and control transfers included.
pub open spec fn instr_step(s: StoreV, st: State, expr: Seq<Instr>, ins: Instr) -> StepResult {
    let cursor = st.ctrl.last().0;
    let next = at_cursor(st.ctrl, cursor + 1);
    match ins {
        Instr::LocalGet(x) => match op_local_get(st.r, x) {
            Some(r2) => StepResult::Progress(State { ctrl: next, r: r2 }),
            None => StepResult::Failed,
        },
        Instr::LocalSet(x) => match op_local_set(st.r, x) {
            Some(r2) => StepResult::Progress(State { ctrl: next, r: r2 }),
            None => StepResult::Failed,
        },
        Instr::I32Const(c) => StepResult::Progress(
            State {
                ctrl: next,
                r: RState { ops: st.r.ops.push(Val::Num(Num::I32(c))), frames: st.r.frames },
            },
        ),
        Instr::I32Add => match op_binop_i32(st.r, BinOp::Add) {
            Some(r2) => StepResult::Progress(State { ctrl: next, r: r2 }),
            None => StepResult::Failed,
        },
        Instr::I32Sub => match op_binop_i32(st.r, BinOp::Sub) {
            Some(r2) => StepResult::Progress(State { ctrl: next, r: r2 }),
            None => StepResult::Failed,
        },
        Instr::I32LtU => match op_binop_i32(st.r, BinOp::LtU) {
            Some(r2) => StepResult::Progress(State { ctrl: next, r: r2 }),
            None => StepResult::Failed,
        },
        Instr::Call(g) => match op_call(s, st.r, g) {
            Some(r2) => StepResult::Progress(
                State { ctrl: next.push((0 as nat, g as nat)), r: r2 },
            ),
            None => StepResult::Failed,
        },
        Instr::IfStart(_) => match op_pop_i32(st.r) {
            Some((r2, c)) => if c != 0 {
                StepResult::Progress(State { ctrl: next, r: r2 })
            } else {
                match find_match(expr, cursor + 1 as int, 0, ScanTarget::Else) {
                    Some(j) => StepResult::Progress(
                        State { ctrl: at_cursor(st.ctrl, (j + 1) as nat), r: r2 },
                    ),
                    None => StepResult::Failed,
                }
            },
            None => StepResult::Failed,
        },
        Instr::IfElse => match find_match(expr, cursor + 1 as int, 0, ScanTarget::End) {
            Some(j) => StepResult::Progress(
                State { ctrl: at_cursor(st.ctrl, (j + 1) as nat), r: st.r },
            ),
            None => StepResult::Failed,
        },
        Instr::End => StepResult::Progress(State { ctrl: next, r: st.r }),
        Instr::Return => ret_step(st),
        Instr::BlockStart(_) => StepResult::Failed,
        Instr::Unsupported => StepResult::Failed,
    }
}

/// One machine step: completion when the control stack is empty, an implicit
/// return when the cursor has run past the end of the innermost body, else
/// the dispatch of the instruction under the cursor.
pub open spec fn step(s: StoreV, st: State) -> StepResult {
    if st.ctrl.len() == 0 {
        StepResult::Done(st.r.ops)
    } else if st.ctrl.last().1 >= s.funcs.len() {
        StepResult::Failed
    } else {
        let body = s.funcs[st.ctrl.last().1 as int].1;
        if st.ctrl.last().0 >= body.expr@.len() {
            ret_step(st)
        } else {
            instr_step(s, st, body.expr@, body.expr@[st.ctrl.last().0 as int])
        }
    }
}

/// Fuelled iteration of [`step`]: the machine's outcome within `fuel` steps,
/// failure when the budget runs out.
pub open spec fn exec_from(s: StoreV, st: State, fuel: nat) -> Outcome
    decreases fuel,
{
    match step(s, st) {
        StepResult::Done(vals) => Outcome::Values(vals),
        StepResult::Failed => Outcome::Failed,
        StepResult::Progress(st2) => if fuel == 0 {
            Outcome::Failed
        } else {
            exec_from(s, st2, (fuel - 1) as nat)
        },
    }
}

// ---------------------------------------------------------------------------
// Whole-evaluation specification

/// The machine state a fresh evaluation of function `fid` starts in: one
/// control entry at cursor zero, an empty operand stack, and one frame whose
/// floor is zero.
pub open spec fn init_state(s: StoreV, fid: nat, args: Seq<Val>) -> State {
    State {
        ctrl: seq![(0 as nat, fid)],
        r: RState {
            ops: Seq::empty(),
            frames: seq![
                SFrame {
                    init: 0,
                    locals: build_locals(args, s.funcs[fid as int].1.locals@),
                    arity: s.types[s.funcs[fid as int].0 as int].results@.len(),
                },
            ],
        },
    }
}

/// The declared result count of function `f`.
pub open spec fn result_arity(s: StoreV, f: u32) -> nat {
    s.types[s.funcs[f as int].0 as int].results@.len()
}

/// What evaluating export `name` on `args` yields: failure when the name
/// does not resolve to a function with a well-formed type or the argument
/// count differs from the declared parameter count; otherwise the machine's
/// outcome from the initial state.
pub open spec fn run_spec(s: StoreV, name: Seq<char>, args: Seq<Val>) -> Outcome {
    match spec_find_function(s, name) {
        Some(f) => if s.funcs[f as int].0 >= s.types.len() {
            Outcome::Failed
        } else if s.types[s.funcs[f as int].0 as int].params@.len() != args.len() {
            Outcome::Failed
        } else {
            exec_from(s, init_state(s, f as nat, args), MAX_FUEL as nat)
        },
        None => Outcome::Failed,
    }
}

// ---------------------------------------------------------------------------
// Laws

/// Determinism: the evaluation outcome is a function of the store, the
/// export name and the argument list alone, so two evaluations of the same
/// export on the same store and arguments yield identical results.
pub proof fn lemma_determinism(
    s: StoreV,
    name: Seq<char>,
    args: Seq<Val>,
    o1: Outcome,
    o2: Outcome,
)
    requires
        o1 == run_spec(s, name, args),
        o2 == run_spec(s, name, args),
    ensures
        o1 == o2,
{
}

/// The balance invariant behind stack balance: frames and control entries
/// pair up, the outermost frame sits on floor zero with the declared result
/// count, and an empty control stack leaves exactly that many operands.
pub open spec fn balanced(st: State, arity: nat) -> bool {
    &&& st.r.frames.len() == st.ctrl.len()
    &&& (st.r.frames.len() > 0 ==> st.r.frames[0].init == 0 && st.r.frames[0].arity == arity)
    &&& (st.ctrl.len() == 0 ==> st.r.ops.len() == arity)
}

proof fn lemma_step_balanced(s: StoreV, st: State, arity: nat)
    requires
        balanced(st, arity),
    ensures
        step(s, st) matches StepResult::Progress(st2) ==> balanced(st2, arity),
        step(s, st) matches StepResult::Done(vals) ==> vals.len() == arity,
{
}

proof fn lemma_exec_balanced(s: StoreV, st: State, fuel: nat, arity: nat)
    requires
        balanced(st, arity),
    ensures
        exec_from(s, st, fuel) matches Outcome::Values(vals) ==> vals.len() == arity,
    decreases fuel,
{
    lemma_step_balanced(s, st, arity);
    match step(s, st) {
        StepResult::Progress(st2) => {
            if fuel > 0 {
                lemma_exec_balanced(s, st2, (fuel - 1) as nat, arity);
            }
        },
        _ => {},
    }
}

/// Stack balance: a successful evaluation yields exactly one value per
/// declared result of the export — nothing extraneous remains from the
/// emptied operand stack.
pub proof fn lemma_stack_balance(s: StoreV, name: Seq<char>, args: Seq<Val>)
    ensures
        run_spec(s, name, args) matches Outcome::Values(vals) ==> (spec_find_function(s, name)
            matches Some(f) && vals.len() == result_arity(s, f)),
{
    match spec_find_function(s, name) {
        Some(f) => {
            if s.funcs[f as int].0 < s.types.len() && s.types[s.funcs[f as int].0 as int].params@.len()
                == args.len() {
                let st0 = init_state(s, f as nat, args);
                assert(balanced(st0, result_arity(s, f)));
                lemma_exec_balanced(s, st0, MAX_FUEL as nat, result_arity(s, f));
            }
        },
        None => {},
    }
}

/// The floor invariant behind frame-floor restoration: frame floors never
/// decrease inward, and the innermost floor never exceeds the operand-stack
/// height.
pub open spec fn floors_sorted(st: State) -> bool {
    &&& (forall|i: int|
        0 <= i < st.r.frames.len() - 1 ==> #[trigger] st.r.frames[i].init <= st.r.frames[
            i + 1
        ].init)
    &&& (st.r.frames.len() > 0 ==> st.r.frames.last().init <= st.r.ops.len())
}

/// Frame floor restoration: no machine step ever changes the operand stack
/// below the innermost frame's floor. In particular, everything a function
/// pushes above its entry floor and below its declared results is discarded
/// on return and never observed by the caller.
pub proof fn lemma_frame_floor(s: StoreV, st: State, st2: State)
    requires
        floors_sorted(st),
        st.r.frames.len() > 0,
        step(s, st) == StepResult::Progress(st2),
    ensures
        st2.r.ops.take(st.r.frames.last().init as int) == st.r.ops.take(
            st.r.frames.last().init as int,
        ),
        floors_sorted(st2),
{
    let fl = st.r.frames.last().init as int;
    let cur = st.ctrl.last();
    let body = s.funcs[cur.1 as int].1;
    if cur.0 >= body.expr@.len() {
        assert(st2.r.ops.take(fl) =~= st.r.ops.take(fl));
        assert(floors_sorted(st2));
    } else {
        let ins = body.expr@[cur.0 as int];
        match ins {
            Instr::LocalGet(_) => {
                assert(st2.r.ops.take(fl) =~= st.r.ops.take(fl));
            },
            Instr::LocalSet(_) => {
                assert(st2.r.ops.take(fl) =~= st.r.ops.take(fl));
                assert(floors_sorted(st2));
            },
            Instr::I32Const(_) => {
                assert(st2.r.ops.take(fl) =~= st.r.ops.take(fl));
            },
            Instr::I32Add => {
                assert(st2.r.ops.take(fl) =~= st.r.ops.take(fl));
            },
            Instr::I32Sub => {
                assert(st2.r.ops.take(fl) =~= st.r.ops.take(fl));
            },
            Instr::I32LtU => {
                assert(st2.r.ops.take(fl) =~= st.r.ops.take(fl));
            },
            Instr::Call(_) => {
                assert(st2.r.ops.take(fl) =~= st.r.ops.take(fl));
                assert(floors_sorted(st2));
            },
            Instr::IfStart(_) => {
                assert(st2.r.ops.take(fl) =~= st.r.ops.take(fl));
            },
            Instr::IfElse => {},
            Instr::End => {},
            Instr::Return => {
                assert(st2.r.ops.take(fl) =~= st.r.ops.take(fl));
                assert(floors_sorted(st2));
            },
            Instr::BlockStart(_) => {},
            Instr::Unsupported => {},
        }
    }
}

/// Net nesting depth over `[start, end)`: block and if starts count one
/// deeper, each end one back up.
pub open spec fn depth_delta(ins: Instr) -> int {
    match ins {
        Instr::BlockStart(_) => 1,
        Instr::IfStart(_) => 1,
        Instr::End => -1,
        _ => 0,
    }
}

/// The sum of the depth deltas of the instructions in `[start, end)`.
pub open spec fn net_depth(expr: Seq<Instr>, start: int, end: int) -> int
    decreases end - start,
{
    if start >= end {
        0
    } else {
        net_depth(expr, start, end - 1) + depth_delta(expr[end - 1])
    }
}

proof fn lemma_find_match_aux(expr: Seq<Instr>, start: int, i: int, depth: nat, t: ScanTarget)
    requires
        0 <= start <= i,
        depth == net_depth(expr, start, i),
        forall|k: int|
            start <= k < i ==> !(matches_target(expr[k], t) && net_depth(expr, start, k) == 0),
    ensures
        find_match(expr, i, depth, t) matches Some(j) ==> {
            &&& start <= j < expr.len()
            &&& matches_target(expr[j], t)
            &&& net_depth(expr, start, j) == 0
            &&& forall|k: int|
                start <= k < j ==> !(matches_target(expr[k], t) && net_depth(expr, start, k) == 0)
        },
        find_match(expr, i, depth, t) is None ==> forall|k: int|
            i <= k < expr.len() ==> !(matches_target(expr[k], t) && net_depth(expr, start, k)
                == 0),
    decreases expr.len() - i,
{
    if i >= expr.len() {
    } else if depth == 0 && matches_target(expr[i], t) {
    } else {
        assert(matches_target(Instr::End, t));
        let d2 = scan_depth_change(expr[i], depth);
        assert(net_depth(expr, start, i + 1) == net_depth(expr, start, i) + depth_delta(expr[i]));
        assert(d2 == net_depth(expr, start, i + 1));
        assert(!(matches_target(expr[i], t) && net_depth(expr, start, i) == 0));
        lemma_find_match_aux(expr, start, i + 1, d2, t);
    }
}

/// Bracket-matching correctness: a forward scan finds exactly the first
/// target instruction whose net nesting depth relative to the scan's start
/// is zero — never one inside a nested block or if construct — and reports
/// none exactly when no such instruction exists.
pub proof fn lemma_bracket_matching(expr: Seq<Instr>, start: int, t: ScanTarget)
    requires
        0 <= start,
    ensures
        find_match(expr, start, 0, t) matches Some(j) ==> {
            &&& start <= j < expr.len()
            &&& matches_target(expr[j], t)
            &&& net_depth(expr, start, j) == 0
            &&& forall|k: int|
                start <= k < j ==> !(matches_target(expr[k], t) && net_depth(expr, start, k) == 0)
        },
        find_match(expr, start, 0, t) is None ==> forall|k: int|
            start <= k < expr.len() ==> !(matches_target(expr[k], t) && net_depth(expr, start, k)
                == 0),
{
    lemma_find_match_aux(expr, start, start, 0, t);
}

} // verus!
