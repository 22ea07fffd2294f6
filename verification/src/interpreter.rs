//! The execution engine and its driver.
//!
//! The runner owns the operand stack and the frame stack and implements each
//! instruction's stack effect. The interpreter owns the explicit control
//! stack of (cursor, function id) pairs and runs the fetch-dispatch-advance
//! loop. Every `run` call is proved to return exactly what the machine model
//! in [`crate::semantics`] yields.

use vstd::prelude::*;

use crate::module::{BlockType, FuncBody, Instr, Locals};
use crate::semantics::{
    at_cursor, exec_from, find_match, init_state, locals_of_decls, matches_target, op_binop_i32,
    op_call, op_local_get, op_local_set, op_pop_i32, op_return, push_frame_r, run_spec,
    scan_depth_change, step, BinOp, Outcome, RState, SFrame, ScanTarget, State, StepResult,
    MAX_FUEL,
};
use crate::store::{Store, StoreV};
use crate::values::{Num, Val};

verus! {

/// A successful evaluation: one value per declared result, in declaration
/// order.
#[derive(Debug, PartialEq)]
pub enum EvaluationStatus {
    Value(Vec<Val>),
}

/// The control signal a runner operation hands back to the driver.
#[derive(Debug, PartialEq, Eq, Structural)]
pub enum ComputationStatus {
    /// Fall through to the next instruction.
    ContinueToNext,
    /// Transfer control to the callee with this function id.
    Call(u32),
    /// Skip forward to just past the matching else (or end) at equal depth.
    ContinueToElse,
    /// Skip forward to just past the matching end at equal depth.
    ContinueToEnd,
    /// Pop the control stack: the current invocation is over.
    Return,
}

/// A runtime evaluation failure: the whole `run` invocation aborts with it.
#[derive(Debug)]
pub struct Trap;

/// One activation record.
struct Frame {
    /// Operand-stack height at frame creation.
    init_stack_size: usize,
    /// Parameters followed by declared locals.
    locals: Vec<Val>,
    /// Declared result count.
    arity: usize,
}

impl View for Frame {
    type V = SFrame;

    closed spec fn view(&self) -> SFrame {
        SFrame {
            init: self.init_stack_size as nat,
            locals: self.locals@,
            arity: self.arity as nat,
        }
    }
}

/// The execution engine: operand stack, frame stack, and a read-only view of
/// the module store.
struct InstructionRunner<'store> {
    stack: Vec<Val>,
    locals: Vec<Frame>,
    store: &'store Store,
}

impl<'store> InstructionRunner<'store> {
    spec fn frames(&self) -> Seq<SFrame> {
        self.locals@.map_values(|f: Frame| f@)
    }

    spec fn rstate(&self) -> RState {
        RState { ops: self.stack@, frames: self.frames() }
    }

    fn new(store: &'store Store) -> (r: InstructionRunner<'store>)
        ensures
            r.store == store,
            r.rstate() == (RState { ops: Seq::<Val>::empty(), frames: Seq::<SFrame>::empty() }),
    {
        let r = InstructionRunner { locals: Vec::new(), stack: Vec::new(), store };
        proof {
            assert(r.frames() =~= Seq::<SFrame>::empty());
        }
        r
    }

    /// Pushes a fresh frame: the arguments followed by one default value per
    /// declared local slot become the locals; the current operand-stack
    /// height becomes the frame's floor.
    fn push_frame(&mut self, arguments: Vec<Val>, other_locals: &Vec<Locals>, arity: usize)
        ensures
            final(self).store == old(self).store,
            final(self).rstate() == push_frame_r(
                old(self).rstate(),
                arguments@,
                other_locals@,
                arity as nat,
            ),
    {
        let ghost args0 = arguments@;
        let init_stack_size = self.stack.len();
        let mut locals = arguments;
        let mut i: usize = 0;
        proof {
            assert(other_locals@.take(0) =~= Seq::<Locals>::empty());
            assert(locals@ =~= args0 + locals_of_decls(other_locals@.take(0)));
        }
        while i < other_locals.len()
            invariant
                i <= other_locals@.len(),
                locals@ == args0 + locals_of_decls(other_locals@.take(i as int)),
            decreases other_locals@.len() - i,
        {
            let decl = other_locals[i];
            let mut k: u32 = 0;
            proof {
                assert(Seq::new(0, |j: int| Val::spec_default(decl.ty)) =~= Seq::<Val>::empty());
                assert(locals@ =~= args0 + locals_of_decls(other_locals@.take(i as int)) + Seq::new(
                    0,
                    |j: int| Val::spec_default(decl.ty),
                ));
            }
            while k < decl.repeat
                invariant
                    k <= decl.repeat,
                    locals@ == args0 + locals_of_decls(other_locals@.take(i as int)) + Seq::new(
                        k as nat,
                        |j: int| Val::spec_default(decl.ty),
                    ),
                decreases decl.repeat - k,
            {
                locals.push(Val::default(&decl.ty));
                proof {
                    assert((args0 + locals_of_decls(other_locals@.take(i as int)) + Seq::new(
                        (k - 1 + 1) as nat,
                        |j: int| Val::spec_default(decl.ty),
                    )).push(Val::spec_default(decl.ty)) =~= args0 + locals_of_decls(
                        other_locals@.take(i as int),
                    ) + Seq::new((k + 1) as nat, |j: int| Val::spec_default(decl.ty)));
                }
                k = k + 1;
            }
            proof {
                assert(other_locals@.take(i + 1).drop_last() =~= other_locals@.take(i as int));
                assert(other_locals@.take(i + 1).last() == decl);
                assert(locals@ =~= args0 + locals_of_decls(other_locals@.take(i + 1)));
            }
            i = i + 1;
        }
        proof {
            assert(other_locals@.take(other_locals@.len() as int) =~= other_locals@);
        }
        let frame = Frame { init_stack_size, locals, arity };
        self.locals.push(frame);
        proof {
            assert(self.frames() =~= old(self).frames().push(frame@));
            assert(self.rstate() =~= push_frame_r(
                old(self).rstate(),
                args0,
                other_locals@,
                arity as nat,
            ));
        }
    }

    /// Reads the indexed slot of the innermost frame's locals and pushes it.
    fn local_get(&mut self, local: u32) -> (r: Result<ComputationStatus, Trap>)
        ensures
            final(self).store == old(self).store,
            match op_local_get(old(self).rstate(), local) {
                Some(r2) => (r matches Ok(c) && c == ComputationStatus::ContinueToNext && final(self).rstate() == r2),
                None => r is Err && *final(self) == *old(self),
            },
    {
        if self.locals.len() == 0 {
            return Err(Trap);
        }
        let fi = self.locals.len() - 1;
        proof {
            assert(self.frames().last() == self.locals@.last()@);
        }
        if (local as usize) < self.locals[fi].locals.len() {
            let v = self.locals[fi].locals[local as usize];
            self.stack.push(v);
            proof {
                assert(self.rstate() =~= op_local_get(old(self).rstate(), local).unwrap());
            }
            Ok(ComputationStatus::ContinueToNext)
        } else {
            Err(Trap)
        }
    }

    /// Pops one value into the indexed slot of the innermost frame's locals.
    fn local_set(&mut self, local: u32) -> (r: Result<ComputationStatus, Trap>)
        ensures
            final(self).store == old(self).store,
            match op_local_set(old(self).rstate(), local) {
                Some(r2) => (r matches Ok(c) && c == ComputationStatus::ContinueToNext && final(self).rstate() == r2),
                None => r is Err && *final(self) == *old(self),
            },
    {
        if self.locals.len() == 0 {
            return Err(Trap);
        }
        let fi = self.locals.len() - 1;
        proof {
            assert(self.frames().last() == self.locals@.last()@);
        }
        if self.stack.len() <= self.locals[fi].init_stack_size {
            return Err(Trap);
        }
        if (local as usize) >= self.locals[fi].locals.len() {
            return Err(Trap);
        }
        let top = match self.stack.pop() {
            Some(v) => v,
            None => return Err(Trap),
        };
        let mut frame = match self.locals.pop() {
            Some(f) => f,
            None => return Err(Trap),
        };
        frame.locals[local as usize] = top;
        self.locals.push(frame);
        proof {
            assert(self.frames() =~= old(self).frames().update(
                old(self).frames().len() - 1,
                frame@,
            ));
            assert(self.rstate() =~= op_local_set(old(self).rstate(), local).unwrap());
        }
        Ok(ComputationStatus::ContinueToNext)
    }

    /// Pushes a 32-bit integer literal.
    fn const_(&mut self, val: i32) -> (r: Result<ComputationStatus, Trap>)
        ensures
            final(self).store == old(self).store,
            r matches Ok(c) && c == ComputationStatus::ContinueToNext,
            final(self).rstate() == (RState {
                ops: old(self).rstate().ops.push(Val::Num(Num::I32(val))),
                frames: old(self).rstate().frames,
            }),
    {
        self.stack.push(Val::Num(Num::I32(val)));
        Ok(ComputationStatus::ContinueToNext)
    }

    /// Pops one 32-bit integer, respecting the innermost frame's floor.
    fn pop_i32(&mut self) -> (r: Result<i32, Trap>)
        ensures
            final(self).store == old(self).store,
            match op_pop_i32(old(self).rstate()) {
                Some(p) => (r matches Ok(c) && c == p.1 && final(self).rstate() == p.0),
                None => r is Err && *final(self) == *old(self),
            },
    {
        if self.locals.len() == 0 {
            return Err(Trap);
        }
        let fi = self.locals.len() - 1;
        proof {
            assert(self.frames().last() == self.locals@.last()@);
        }
        if self.stack.len() <= self.locals[fi].init_stack_size {
            return Err(Trap);
        }
        let top = self.stack[self.stack.len() - 1];
        match top {
            Val::Num(Num::I32(c)) => {
                self.stack.pop();
                proof {
                    assert(self.rstate() =~= op_pop_i32(old(self).rstate()).unwrap().0);
                }
                Ok(c)
            },
            _ => Err(Trap),
        }
    }

    /// Pops two operands (the first popped is the right-hand one), applies a
    /// 32-bit combinator, and pushes the result.
    fn binop_i32(&mut self, op: BinOp) -> (r: Result<ComputationStatus, Trap>)
        ensures
            final(self).store == old(self).store,
            match op_binop_i32(old(self).rstate(), op) {
                Some(r2) => (r matches Ok(c) && c == ComputationStatus::ContinueToNext && final(self).rstate() == r2),
                None => r is Err && *final(self) == *old(self),
            },
    {
        if self.locals.len() == 0 {
            return Err(Trap);
        }
        let fi = self.locals.len() - 1;
        proof {
            assert(self.frames().last() == self.locals@.last()@);
        }
        if self.stack.len() < 2 || self.stack.len() - 2 < self.locals[fi].init_stack_size {
            return Err(Trap);
        }
        let rhs = self.stack[self.stack.len() - 1];
        let lhs = self.stack[self.stack.len() - 2];
        match (lhs, rhs) {
            (Val::Num(Num::I32(l)), Val::Num(Num::I32(rv))) => {
                let out: i32 = match op {
                    BinOp::Add => l.wrapping_add(rv),
                    BinOp::Sub => l.wrapping_sub(rv),
                    BinOp::LtU => if (l as u32) < (rv as u32) {
                        1
                    } else {
                        0
                    },
                };
                let new_len = self.stack.len() - 2;
                self.stack.truncate(new_len);
                self.stack.push(Val::Num(Num::I32(out)));
                proof {
                    assert(old(self).rstate().ops.drop_last().drop_last() =~= old(
                        self,
                    ).rstate().ops.subrange(0, new_len as int));
                    assert(self.rstate() =~= op_binop_i32(old(self).rstate(), op).unwrap());
                }
                Ok(ComputationStatus::ContinueToNext)
            },
            _ => Err(Trap),
        }
    }

    /// Shared add entry: a binary combinator application.
    fn add(&mut self) -> (r: Result<ComputationStatus, Trap>)
        ensures
            final(self).store == old(self).store,
            match op_binop_i32(old(self).rstate(), BinOp::Add) {
                Some(r2) => (r matches Ok(c) && c == ComputationStatus::ContinueToNext && final(self).rstate() == r2),
                None => r is Err && *final(self) == *old(self),
            },
    {
        self.binop_i32(BinOp::Add)
    }

    /// Shared subtract entry: a binary combinator application.
    fn sub(&mut self) -> (r: Result<ComputationStatus, Trap>)
        ensures
            final(self).store == old(self).store,
            match op_binop_i32(old(self).rstate(), BinOp::Sub) {
                Some(r2) => (r matches Ok(c) && c == ComputationStatus::ContinueToNext && final(self).rstate() == r2),
                None => r is Err && *final(self) == *old(self),
            },
    {
        self.binop_i32(BinOp::Sub)
    }

    /// Shared unsigned-less-than entry: a binary combinator application that
    /// maps its boolean outcome to a 1/0 32-bit integer.
    fn lt_u(&mut self) -> (r: Result<ComputationStatus, Trap>)
        ensures
            final(self).store == old(self).store,
            match op_binop_i32(old(self).rstate(), BinOp::LtU) {
                Some(r2) => (r matches Ok(c) && c == ComputationStatus::ContinueToNext && final(self).rstate() == r2),
                None => r is Err && *final(self) == *old(self),
            },
    {
        self.binop_i32(BinOp::LtU)
    }

    /// Resolves the callee's parameter count, moves that many operands into
    /// the callee's new frame, and signals the control transfer.
    fn call(&mut self, func: u32) -> (r: Result<ComputationStatus, Trap>)
        ensures
            final(self).store == old(self).store,
            match op_call(old(self).store@, old(self).rstate(), func) {
                Some(r2) => (r matches Ok(c) && c == ComputationStatus::Call(func) && final(self).rstate() == r2),
                None => r is Err && *final(self) == *old(self),
            },
    {
        if self.locals.len() == 0 {
            return Err(Trap);
        }
        let fi = self.locals.len() - 1;
        proof {
            assert(self.frames().last() == self.locals@.last()@);
        }
        let entry = match self.store.func(func) {
            Some(e) => e,
            None => return Err(Trap),
        };
        let func_type = match self.store.func_type(entry.0) {
            Some(t) => t,
            None => return Err(Trap),
        };
        let np = func_type.params.len();
        if self.stack.len() < np || self.stack.len() - np < self.locals[fi].init_stack_size {
            return Err(Trap);
        }
        let at = self.stack.len() - np;
        let args = self.stack.split_off(at);
        self.push_frame(args, &entry.1.locals, func_type.results.len());
        proof {
            assert(self.rstate() =~= op_call(old(self).store@, old(self).rstate(), func).unwrap());
        }
        Ok(ComputationStatus::Call(func))
    }

    /// Pops a condition: zero means jump to the matching else-target, nonzero
    /// means fall into the then-branch.
    fn if_start(&mut self, _block_type: &BlockType) -> (r: Result<ComputationStatus, Trap>)
        ensures
            final(self).store == old(self).store,
            match op_pop_i32(old(self).rstate()) {
                Some(p) => (r matches Ok(c) && final(self).rstate() == p.0 && c == (if p.1 != 0 {
                    ComputationStatus::ContinueToNext
                } else {
                    ComputationStatus::ContinueToElse
                })),
                None => r is Err && *final(self) == *old(self),
            },
    {
        match self.pop_i32() {
            Ok(0) => Ok(ComputationStatus::ContinueToElse),
            Ok(_) => Ok(ComputationStatus::ContinueToNext),
            Err(t) => Err(t),
        }
    }

    /// Reached when a then-branch has finished and an else-branch follows:
    /// signals the jump past the matching end.
    fn if_else(&self) -> (r: Result<ComputationStatus, Trap>)
        ensures
            r matches Ok(c) && c == ComputationStatus::ContinueToEnd,
    {
        Ok(ComputationStatus::ContinueToEnd)
    }

    /// The syntactic close of a block or if construct: no stack effect.
    fn end(&self) -> (r: Result<ComputationStatus, Trap>)
        ensures
            r matches Ok(c) && c == ComputationStatus::ContinueToNext,
    {
        Ok(ComputationStatus::ContinueToNext)
    }

    /// Pops the innermost frame: exactly `arity` values are kept from the
    /// stack top, everything else above the frame's floor is discarded, and
    /// the results land on the truncated stack.
    fn return_(&mut self) -> (r: Result<ComputationStatus, Trap>)
        ensures
            final(self).store == old(self).store,
            match op_return(old(self).rstate()) {
                Some(r2) => (r matches Ok(c) && c == ComputationStatus::Return && final(self).rstate() == r2),
                None => r is Err && *final(self) == *old(self),
            },
    {
        if self.locals.len() == 0 {
            return Err(Trap);
        }
        let fi = self.locals.len() - 1;
        proof {
            assert(self.frames().last() == self.locals@.last()@);
        }
        let arity = self.locals[fi].arity;
        let floor = self.locals[fi].init_stack_size;
        if self.stack.len() < arity || self.stack.len() - arity < floor {
            return Err(Trap);
        }
        let at = self.stack.len() - arity;
        let mut results = self.stack.split_off(at);
        self.stack.truncate(floor);
        self.stack.append(&mut results);
        self.locals.pop();
        proof {
            assert(self.frames() =~= old(self).frames().drop_last());
            assert(old(self).rstate().ops.subrange(0, at as int).subrange(0, floor as int) =~= old(
                self,
            ).rstate().ops.take(floor as int));
            assert(self.rstate() =~= op_return(old(self).rstate()).unwrap());
        }
        Ok(ComputationStatus::Return)
    }
}

/// The driver: owns the control stack and the runner, resolves control-flow
/// signals into concrete jumps, and loops until the control stack empties.
pub struct Interpreter<'store> {
    /// The explicit control stack: one (cursor, function id) pair per nested
    /// level of in-progress execution, the innermost on top.
    pub instr_stack: Vec<(usize, u32)>,
    runner: InstructionRunner<'store>,
}

impl<'store> Interpreter<'store> {
    /// Model of the store this interpreter is bound to.
    pub closed spec fn store(&self) -> StoreV {
        self.runner.store@
    }

    /// Model of the machine state: control stack, operand stack, frames.
    pub closed spec fn state(&self) -> State {
        State {
            ctrl: self.instr_stack@.map_values(|p: (usize, u32)| (p.0 as nat, p.1 as nat)),
            r: self.runner.rstate(),
        }
    }

    /// Creates a new interpreter bound to a store. The store is only read;
    /// it may be shared by any number of interpreters.
    pub fn new(store: &'store Store) -> (r: Interpreter<'store>)
        ensures
            r.store() == store@,
            r.state().ctrl.len() == 0,
            r.state().r.ops.len() == 0,
            r.state().r.frames.len() == 0,
    {
        Interpreter { instr_stack: Vec::new(), runner: InstructionRunner::new(store) }
    }

    /// Whether an instruction closes the scan at depth zero.
    fn is_scan_target(ins: &Instr, target: ScanTarget) -> (r: bool)
        ensures
            r == matches_target(*ins, target),
    {
        match target {
            ScanTarget::Else => matches!(ins, Instr::IfElse | Instr::End),
            ScanTarget::End => matches!(ins, Instr::End),
        }
    }

    /// Scans forward from `cursor` for the matching target at equal nesting
    /// depth — block and if starts go one deeper, each end comes one back up
    /// — and returns the position just past the match, or `None` when the
    /// scan runs off the end of the body.
    fn continue_to(func: &FuncBody, target: ScanTarget, cursor: usize) -> (r: Option<usize>)
        ensures
            match find_match(func.expr@, cursor as int, 0, target) {
                Some(j) => (r matches Some(c) && c as int == j + 1),
                None => r is None,
            },
    {
        let mut cur = cursor;
        let mut depth: usize = 0;
        while cur < func.expr.len()
            invariant
                cursor <= cur,
                depth <= cur - cursor,
                find_match(func.expr@, cursor as int, 0, target) == find_match(
                    func.expr@,
                    cur as int,
                    depth as nat,
                    target,
                ),
            decreases func.expr@.len() - cur,
        {
            let ins = func.expr[cur];
            if depth == 0 && Self::is_scan_target(&ins, target) {
                proof {
                    assert(find_match(func.expr@, cur as int, depth as nat, target) == Some(
                        cur as int,
                    ));
                }
                return Some(cur + 1);
            }
            proof {
                assert(matches_target(Instr::End, target));
            }
            let new_depth: usize = match ins {
                Instr::BlockStart(_) => depth + 1,
                Instr::IfStart(_) => depth + 1,
                Instr::End => depth - 1,
                _ => depth,
            };
            proof {
                assert(scan_depth_change(ins, depth as nat) == new_depth as nat);
                assert(find_match(func.expr@, cur as int, depth as nat, target) == find_match(
                    func.expr@,
                    cur + 1 as int,
                    new_depth as nat,
                    target,
                ));
            }
            depth = new_depth;
            cur = cur + 1;
        }
        None
    }

    /// Evaluates the export `func_name` on `args`.
    ///
    /// The returned value is exactly what the machine model yields for this
    /// store, name and argument list: the interpreter first resets its three
    /// stacks, so repeated calls on the same store with the same inputs
    /// always return the same result. On success the control stack is empty
    /// and the operand stack has been drained into the returned values.
    #[verifier::rlimit(100)]
    pub fn run(&mut self, func_name: &str, args: Vec<Val>) -> (r: Result<EvaluationStatus, Trap>)
        ensures
            final(self).store() == old(self).store(),
            match run_spec(old(self).store(), func_name@, args@) {
                Outcome::Values(vs) => (r matches Ok(EvaluationStatus::Value(vals)) && vals@
                    == vs),
                Outcome::Failed => r is Err,
            },
            r is Ok ==> final(self).state().ctrl.len() == 0 && final(self).state().r.ops.len()
                == 0 && final(self).state().r.frames.len() == 0,
    {
        let ghost s = self.store();
        let ghost args0 = args@;

        self.instr_stack.clear();
        self.runner.stack.clear();
        self.runner.locals.clear();

        let store: &'store Store = self.runner.store;
        let fid = match store.find_function(func_name) {
            Some(f) => f,
            None => {
                return Err(Trap);
            },
        };
        let entry = store.func(fid).unwrap();
        let func_type = match store.func_type(entry.0) {
            Some(t) => t,
            None => {
                return Err(Trap);
            },
        };
        if func_type.params.len() != args.len() {
            return Err(Trap);
        }

        self.instr_stack.push((0, fid));
        self.runner.push_frame(args, &entry.1.locals, func_type.results.len());
        proof {
            assert(self.state().ctrl =~= seq![(0 as nat, fid as nat)]);
            assert(self.state().r.frames =~= init_state(s, fid as nat, args0).r.frames);
            assert(self.state() =~= init_state(s, fid as nat, args0));
        }

        let mut fuel: u64 = MAX_FUEL;
        loop
            invariant
                s == old(self).store(),
                args0 == args@,
                self.store() == s,
                self.instr_stack@.len() == self.runner.locals@.len(),
                exec_from(s, self.state(), fuel as nat) == run_spec(s, func_name@, args0),
            decreases fuel,
        {
            let ghost pre = self.state();
            if self.instr_stack.len() == 0 {
                proof {
                    assert(step(s, pre) == StepResult::Done(pre.r.ops));
                }
                let results = self.runner.stack.split_off(0);
                proof {
                    assert(results@ =~= pre.r.ops);
                }
                return Ok(EvaluationStatus::Value(results));
            }
            let top_i = self.instr_stack.len() - 1;
            let (cursor, fid_c) = self.instr_stack[top_i];
            proof {
                assert(pre.ctrl.last() == (cursor as nat, fid_c as nat));
            }
            let store: &'store Store = self.runner.store;
            let entry = match store.func(fid_c) {
                Some(e) => e,
                None => {
                    proof {
                        assert(step(s, pre) == StepResult::Failed);
                    }
                    return Err(Trap);
                },
            };
            let body: &FuncBody = &entry.1;
            proof {
                assert(*body == s.funcs[fid_c as int].1);
            }

            if cursor >= body.expr.len() {
                // the cursor fell off the end of the body: an implicit return
                match self.runner.return_() {
                    Ok(_) => {},
                    Err(t) => {
                        proof {
                            assert(step(s, pre) == StepResult::Failed);
                        }
                        return Err(t);
                    },
                }
                self.instr_stack.pop();
                proof {
                    assert(self.state().ctrl =~= pre.ctrl.drop_last());
                    assert(step(s, pre) == StepResult::Progress(self.state()));
                }
                if fuel == 0 {
                    return Err(Trap);
                }
                fuel = fuel - 1;
                continue;
            }

            let instr = body.expr[cursor];
            proof {
                assert(instr == s.funcs[fid_c as int].1.expr@[cursor as int]);
            }
            let status = match instr {
                Instr::LocalGet(x) => self.runner.local_get(x),
                Instr::I32Add => self.runner.add(),
                Instr::Call(g) => self.runner.call(g),
                Instr::I32Const(c) => self.runner.const_(c),
                Instr::I32LtU => self.runner.lt_u(),
                Instr::IfStart(bt) => self.runner.if_start(&bt),
                Instr::IfElse => self.runner.if_else(),
                Instr::I32Sub => self.runner.sub(),
                Instr::End => self.runner.end(),
                Instr::LocalSet(x) => self.runner.local_set(x),
                Instr::Return => self.runner.return_(),
                Instr::BlockStart(_) => Err(Trap),
                Instr::Unsupported => Err(Trap),
            };
            let status = match status {
                Ok(c) => c,
                Err(t) => {
                    proof {
                        assert(step(s, pre) == StepResult::Failed);
                    }
                    return Err(t);
                },
            };
            self.instr_stack.pop();
            let next_cursor = cursor + 1;
            match status {
                ComputationStatus::ContinueToNext => {
                    self.instr_stack.push((next_cursor, fid_c));
                    proof {
                        assert(self.state().ctrl =~= at_cursor(pre.ctrl, next_cursor as nat));
                        assert(step(s, pre) == StepResult::Progress(self.state()));
                    }
                },
                ComputationStatus::Call(g) => {
                    self.instr_stack.push((next_cursor, fid_c));
                    self.instr_stack.push((0, g));
                    proof {
                        assert(self.state().ctrl =~= at_cursor(pre.ctrl, next_cursor as nat).push(
                            (0 as nat, g as nat),
                        ));
                        assert(step(s, pre) == StepResult::Progress(self.state()));
                    }
                },
                ComputationStatus::ContinueToElse => {
                    match Self::continue_to(body, ScanTarget::Else, next_cursor) {
                        Some(c2) => {
                            self.instr_stack.push((c2, fid_c));
                            proof {
                                assert(self.state().ctrl =~= at_cursor(pre.ctrl, c2 as nat));
                                assert(step(s, pre) == StepResult::Progress(self.state()));
                            }
                        },
                        None => {
                            proof {
                                assert(step(s, pre) == StepResult::Failed);
                            }
                            return Err(Trap);
                        },
                    }
                },
                ComputationStatus::ContinueToEnd => {
                    match Self::continue_to(body, ScanTarget::End, next_cursor) {
                        Some(c2) => {
                            self.instr_stack.push((c2, fid_c));
                            proof {
                                assert(self.state().ctrl =~= at_cursor(pre.ctrl, c2 as nat));
                                assert(step(s, pre) == StepResult::Progress(self.state()));
                            }
                        },
                        None => {
                            proof {
                                assert(step(s, pre) == StepResult::Failed);
                            }
                            return Err(Trap);
                        },
                    }
                },
                ComputationStatus::Return => {
                    proof {
                        assert(self.state().ctrl =~= pre.ctrl.drop_last());
                        assert(step(s, pre) == StepResult::Progress(self.state()));
                    }
                },
            }
            if fuel == 0 {
                return Err(Trap);
            }
            fuel = fuel - 1;
        }
    }
}

} // verus!
