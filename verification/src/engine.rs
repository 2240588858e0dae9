//! The behavior engine: a priority-ordered, resumable execution stack.
//! Each tick the top behavior runs and its action transforms the stack —
//! push on Call, pop on Return or Abort, whole-stack replace on RootCall,
//! top replace on TailCall — until one command has been produced.

use vstd::prelude::*;

use crate::behavior::{
    behavior_post, behavior_wf, context_ok, forward_controls, skid_step_spec, Action, Behavior,
    Context,
};
use crate::segment::CarControls;

verus! {

/// How many stack transitions one tick may take before the engine gives
/// the tick up as idle.
pub const TICK_TRANSITIONS_MAX: usize = 16;

/// How an action transforms the stack. `Yield` leaves it alone; `Return`
/// and `Abort` pop; `Call` pushes; `RootCall` replaces everything;
/// `TailCall` replaces the top without growing the depth. Pops and
/// tail-calls on an empty stack leave it empty.
pub open spec fn apply_action_spec(s: Seq<Behavior>, a: Action) -> Seq<Behavior> {
    match a {
        Action::Yield(_) => s,
        Action::Return => if s.len() == 0 {
            s
        } else {
            s.drop_last()
        },
        Action::Abort => if s.len() == 0 {
            s
        } else {
            s.drop_last()
        },
        Action::Call(b) => s.push(*b),
        Action::RootCall(b) => seq![*b],
        Action::TailCall(b) => if s.len() == 0 {
            s
        } else {
            s.drop_last().push(*b)
        },
    }
}

/// A tail call never changes the stack's depth: the formal heart of the
/// bounded-growth guarantee.
pub proof fn lemma_tail_call_preserves_depth(s: Seq<Behavior>, b: Behavior)
    requires
        s.len() > 0,
    ensures
        apply_action_spec(s, Action::TailCall(Box::new(b))).len() == s.len(),
{
}

/// Any run of consecutive tail calls, applied one after another.
pub open spec fn apply_tail_calls(s: Seq<Behavior>, bs: Seq<Behavior>) -> Seq<Behavior>
    decreases bs.len(),
{
    if bs.len() == 0 {
        s
    } else {
        apply_tail_calls(apply_action_spec(s, Action::TailCall(Box::new(bs[0]))), bs.skip(1))
    }
}

/// A behavior that completes and issues any number of consecutive tail
/// calls never increases the stack depth beyond its starting depth.
pub proof fn lemma_tail_calls_bounded(s: Seq<Behavior>, bs: Seq<Behavior>)
    requires
        s.len() > 0,
    ensures
        apply_tail_calls(s, bs).len() == s.len(),
    decreases bs.len(),
{
    if bs.len() == 0 {
    } else {
        let s1 = apply_action_spec(s, Action::TailCall(Box::new(bs[0])));
        assert(s1.len() == s.len());
        lemma_tail_calls_bounded(s1, bs.skip(1));
    }
}

/// The engine: an owned stack of behaviors, the top one active.
pub struct Runner {
    pub stack: Vec<Behavior>,
}

/// The states the engine keeps itself in: every behavior on the stack is
/// well formed.
pub open spec fn runner_wf(r: Runner) -> bool {
    forall|i: int| 0 <= i < r.stack@.len() ==> behavior_wf(#[trigger] r.stack@[i])
}

impl Runner {
    /// An engine whose stack holds exactly the given root behavior.
    pub fn new(root: Behavior) -> (r: Runner)
        requires
            behavior_wf(root),
        ensures
            r.stack@ == seq![root],
            runner_wf(r),
    {
        let mut stack: Vec<Behavior> = Vec::new();
        stack.push(root);
        Runner { stack }
    }

    /// The current stack depth.
    pub fn depth(&self) -> (r: usize)
        ensures
            r == self.stack@.len(),
    {
        self.stack.len()
    }

    /// Apply one action to the stack, exactly as `apply_action_spec` says.
    pub fn apply_action(&mut self, a: Action) -> (r: ())
        requires
            runner_wf(*old(self)),
            match a {
                Action::Call(b) => behavior_wf(*b),
                Action::RootCall(b) => behavior_wf(*b),
                Action::TailCall(b) => behavior_wf(*b),
                _ => true,
            },
        ensures
            final(self).stack@ == apply_action_spec(old(self).stack@, a),
            runner_wf(*final(self)),
    {
        match a {
            Action::Yield(_) => {},
            Action::Return => {
                if self.stack.len() > 0 {
                    self.stack.pop();
                }
            },
            Action::Abort => {
                if self.stack.len() > 0 {
                    self.stack.pop();
                }
            },
            Action::Call(b) => {
                self.stack.push(*b);
            },
            Action::RootCall(b) => {
                self.stack.clear();
                self.stack.push(*b);
                proof {
                    assert(final(self).stack@ =~= seq![*b]);
                }
            },
            Action::TailCall(b) => {
                if self.stack.len() > 0 {
                    self.stack.pop();
                    self.stack.push(*b);
                }
            },
        }
    }

    /// Run one tick: resume the top behavior, apply its action, and repeat
    /// until a command is yielded. An empty stack, or a tick that exhausts
    /// its transition budget without yielding, is idle and emits nothing.
    pub fn step(&mut self, ctx: &Context) -> (r: Option<CarControls>)
        requires
            runner_wf(*old(self)),
            context_ok(*ctx),
        ensures
            runner_wf(*final(self)),
            old(self).stack@.len() == 0 ==> r is None && *final(self) == *old(self),
            r is Some ==> old(self).stack@.len() > 0,
            old(self).stack@.len() > 0 ==> match old(self).stack@.last() {
                Behavior::SkidRecover(s) => r == Some(skid_step_spec(s.target_loc, ctx.me)),
                Behavior::GetToFlatGround(_) => !ctx.me.on_flat_ground ==> r == Some(
                    forward_controls(),
                ),
                _ => true,
            },
    {
        let mut i: usize = 0;
        while i < TICK_TRANSITIONS_MAX
            invariant
                0 <= i <= TICK_TRANSITIONS_MAX,
                runner_wf(*self),
                context_ok(*ctx),
                old(self).stack@.len() == 0 ==> *self == *old(self),
                i == 0 ==> *self == *old(self),
                i > 0 ==> !(old(self).stack@.len() > 0 && (old(self).stack@.last()
                    is SkidRecover || (old(self).stack@.last() is GetToFlatGround
                    && !ctx.me.on_flat_ground))),
            decreases TICK_TRANSITIONS_MAX - i,
        {
            let n = self.stack.len();
            if n == 0 {
                return None;
            }
            let ghost pre_top = self.stack@.last();
            let action = {
                let top = &mut self.stack[n - 1];
                top.execute(ctx)
            };
            proof {
                assert(behavior_post(pre_top, self.stack@.last(), *ctx, action));
            }
            match action {
                Action::Yield(cmd) => {
                    return Some(cmd);
                },
                other => {
                    self.apply_action(other);
                },
            }
            i = i + 1;
        }
        None
    }
}

} // verus!
