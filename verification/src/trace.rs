//! Brings a recorded execution into trace order. The chain records the
//! top-level instructions of a transaction in one list and, apart from it,
//! the instructions that each of them invoked, grouped by the position of
//! the top-level instruction.

use vstd::prelude::*;
use crate::block::Instruction;

verus! {

/// The instructions that one top-level instruction invoked, directly or
/// through others, in execution order.
#[derive(Clone, Debug, PartialEq, Eq)]
pub struct InnerInstructions {
    /// The position of the top-level instruction.
    pub index: u32,
    pub instructions: Vec<Instruction>,
}

/// The instructions of the first `upto` groups that belong to the top-level
/// instruction at `index`, in the order of the groups.
pub open spec fn invoked_by(groups: Seq<InnerInstructions>, index: int, upto: int) -> Seq<
    Instruction,
>
    decreases upto,
{
    if upto <= 0 {
        Seq::empty()
    } else if groups[upto - 1].index == index {
        invoked_by(groups, index, upto - 1) + groups[upto - 1].instructions@
    } else {
        invoked_by(groups, index, upto - 1)
    }
}

/// The trace of the first `upto` top-level instructions: each of them,
/// followed by the instructions that it invoked.
pub open spec fn trace_of(
    top_level: Seq<Instruction>,
    groups: Seq<InnerInstructions>,
    upto: int,
) -> Seq<Instruction>
    decreases upto,
{
    if upto <= 0 {
        Seq::empty()
    } else {
        trace_of(top_level, groups, upto - 1).push(top_level[upto - 1]) + invoked_by(
            groups,
            upto - 1,
            groups.len() as int,
        )
    }
}

/// The instructions that a list of references points to.
pub open spec fn referents(list: Seq<&Instruction>) -> Seq<Instruction> {
    list.map_values(|r: &Instruction| *r)
}

/// Lists the instructions of a transaction in trace order: every top-level
/// instruction is followed by the instructions of the groups that name its
/// position. A group that names no top-level instruction is left out.
pub fn flatten_trace<'a>(
    top_level: &'a Vec<Instruction>,
    groups: &'a Vec<InnerInstructions>,
) -> (trace: Vec<&'a Instruction>)
    ensures
        referents(trace@) == trace_of(top_level@, groups@, top_level@.len() as int),
{
    let mut trace: Vec<&'a Instruction> = Vec::new();
    let mut i: usize = 0;
    while i < top_level.len()
        invariant
            i <= top_level@.len(),
            referents(trace@) == trace_of(top_level@, groups@, i as int),
        decreases top_level@.len() - i,
    {
        let ghost head = referents(trace@).push(top_level@[i as int]);
        trace.push(&top_level[i]);
        let mut g: usize = 0;
        while g < groups.len()
            invariant
                i < top_level@.len(),
                g <= groups@.len(),
                referents(trace@) == head + invoked_by(groups@, i as int, g as int),
            decreases groups@.len() - g,
        {
            let group = &groups[g];
            let ghost sofar = invoked_by(groups@, i as int, g as int);
            if group.index as usize == i {
                let mut k: usize = 0;
                while k < group.instructions.len()
                    invariant
                        k <= group.instructions@.len(),
                        referents(trace@) == head + (sofar + group.instructions@.take(k as int)),
                    decreases group.instructions@.len() - k,
                {
                    let ghost prior = trace@;
                    trace.push(&group.instructions[k]);
                    assert(referents(trace@) =~= referents(prior).push(
                        group.instructions@[k as int],
                    ));
                    k += 1;
                }
            }
            g += 1;
        }
        i += 1;
    }
    trace
}

} // verus!
