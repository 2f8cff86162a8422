//! The tree of nested instructions of one transaction, rebuilt from the flat
//! execution trace and numbered in pre-order.
//!
//! Nodes live in an arena in trace order. The position of a node in the arena
//! is its handle and its flat index; parent and children are handles.

use vstd::prelude::*;
use crate::block::{Instruction, Transaction};
use crate::error::BadInput;
use crate::pubkey::{pubkey_views, Pubkey};
use crate::transaction::{keys_valid, resolved_accounts, resolved_keys};

verus! {

/// The nearest position before `before` whose stack height is below `height`.
pub open spec fn nearest_shallower(heights: Seq<u32>, height: u32, before: int) -> Option<int>
    decreases before,
{
    if before <= 0 || before > heights.len() {
        None
    } else if heights[before - 1] < height {
        Some(before - 1)
    } else {
        nearest_shallower(heights, height, before - 1)
    }
}

/// The instruction that encloses instruction `i`: the nearest one before it
/// with a smaller stack height. A top-level instruction has none.
pub open spec fn enclosing(heights: Seq<u32>, i: int) -> Option<int> {
    if 0 <= i < heights.len() {
        nearest_shallower(heights, heights[i], i)
    } else {
        None
    }
}

/// The end of the chain of enclosing instructions that starts at `i`.
pub open spec fn root_ancestor(heights: Seq<u32>, i: int) -> int
    decreases i,
{
    match enclosing(heights, i) {
        Some(p) => if 0 <= p < i {
            root_ancestor(heights, p)
        } else {
            i
        },
        None => i,
    }
}

/// The instructions before `upto` that `parent` encloses directly, in trace
/// order; with `None`, the top-level instructions.
pub open spec fn inner_of(heights: Seq<u32>, parent: Option<int>, upto: int) -> Seq<int>
    decreases upto,
{
    if upto <= 0 {
        Seq::empty()
    } else {
        let rest = inner_of(heights, parent, upto - 1);
        if upto <= heights.len() && enclosing(heights, upto - 1) == parent {
            rest.push(upto - 1)
        } else {
            rest
        }
    }
}

/// The arena position that an optional handle stands for.
pub open spec fn position(handle: Option<usize>) -> Option<int> {
    match handle {
        Some(h) => Some(h as int),
        None => None,
    }
}

/// The arena positions that a list of handles stands for.
pub open spec fn positions(handles: Seq<usize>) -> Seq<int> {
    handles.map_values(|h: usize| h as int)
}

/// What `nearest_shallower` finds is below `height`, and nothing between it
/// and `before` is.
pub proof fn lemma_nearest_shallower(heights: Seq<u32>, height: u32, before: int)
    requires
        0 <= before <= heights.len(),
    ensures
        match nearest_shallower(heights, height, before) {
            Some(p) => 0 <= p < before && heights[p] < height && forall|j: int|
                p < j < before ==> heights[j] >= height,
            None => forall|j: int| 0 <= j < before ==> heights[j] >= height,
        },
    decreases before,
{
    if before > 0 && heights[before - 1] >= height {
        lemma_nearest_shallower(heights, height, before - 1);
    }
}

/// A position below `height` with nothing below `height` after it is the one
/// that `nearest_shallower` finds.
pub proof fn lemma_nearest_shallower_is(heights: Seq<u32>, height: u32, before: int, p: int)
    requires
        0 <= p < before <= heights.len(),
        heights[p] < height,
        forall|j: int| p < j < before ==> heights[j] >= height,
    ensures
        nearest_shallower(heights, height, before) == Some(p),
    decreases before,
{
    if before - 1 > p {
        lemma_nearest_shallower_is(heights, height, before - 1, p);
    }
}

/// Where nothing before `before` is below `height`, `nearest_shallower` finds nothing.
pub proof fn lemma_nearest_shallower_none(heights: Seq<u32>, height: u32, before: int)
    requires
        0 <= before <= heights.len(),
        forall|j: int| 0 <= j < before ==> heights[j] >= height,
    ensures
        nearest_shallower(heights, height, before) is None,
    decreases before,
{
    if before > 0 {
        lemma_nearest_shallower_none(heights, height, before - 1);
    }
}

/// The enclosing instruction comes earlier and is shallower, and every
/// instruction between the two is at least as deep as the enclosed one. A
/// top-level instruction is at most as deep as every earlier one.
pub proof fn lemma_enclosing(heights: Seq<u32>, i: int)
    requires
        0 <= i < heights.len(),
    ensures
        match enclosing(heights, i) {
            Some(p) => 0 <= p < i && heights[p] < heights[i] && forall|j: int|
                p < j < i ==> heights[j] >= heights[i],
            None => forall|j: int| 0 <= j < i ==> heights[j] >= heights[i],
        },
{
    lemma_nearest_shallower(heights, heights[i], i);
}

/// Every instruction that `parent` encloses comes after it and before `upto`,
/// and the list is strictly increasing.
pub proof fn lemma_inner_of(heights: Seq<u32>, parent: Option<int>, upto: int)
    requires
        upto <= heights.len(),
    ensures
        forall|k: int|
            0 <= k < inner_of(heights, parent, upto).len() ==> {
                let c = #[trigger] inner_of(heights, parent, upto)[k];
                &&& 0 <= c < upto
                &&& enclosing(heights, c) == parent
                &&& parent matches Some(p) ==> p < c
            },
        forall|k: int, l: int|
            0 <= k < l < inner_of(heights, parent, upto).len() ==> inner_of(
                heights,
                parent,
                upto,
            )[k] < inner_of(heights, parent, upto)[l],
        forall|c: int|
            0 <= c < upto && enclosing(heights, c) == parent ==> inner_of(
                heights,
                parent,
                upto,
            ).contains(c),
        parent matches Some(p) && upto <= p + 1 ==> inner_of(heights, parent, upto).len() == 0,
    decreases upto,
{
    if upto > 0 {
        lemma_inner_of(heights, parent, upto - 1);
        lemma_enclosing(heights, upto - 1);
        let rest = inner_of(heights, parent, upto - 1);
        let all = inner_of(heights, parent, upto);
        if enclosing(heights, upto - 1) == parent {
            assert(all[all.len() - 1] == upto - 1);
            assert forall|c: int|
                0 <= c < upto && enclosing(heights, c) == parent implies all.contains(c) by {
                if c < upto - 1 {
                    let k = choose|k: int| 0 <= k < rest.len() && rest[k] == c;
                    assert(all[k] == c);
                }
            }
        }
    }
}

/// One instruction of a transaction with its place in the tree.
#[derive(Debug)]
pub struct IndexedInstruction<'a> {
    /// The raw instruction.
    pub instruction: &'a Instruction,
    /// The handles of the instructions that this one invoked, in trace order.
    pub inner_instructions: Vec<usize>,
    /// The handle of the instruction that invoked this one.
    pub parent_instruction: Option<usize>,
    /// The address of the invoked program.
    pub program_id: Pubkey,
    /// The addresses of the accounts handed to the program, in order.
    pub accounts: Vec<Pubkey>,
    /// The flat index: the position of the instruction in the trace.
    pub index: i32,
}

impl<'a> IndexedInstruction<'a> {
    /// A node for an instruction that has no parent and no children yet.
    pub fn new(
        instruction: &'a Instruction,
        program_id: Pubkey,
        accounts: Vec<Pubkey>,
        index: i32,
    ) -> (node: IndexedInstruction<'a>)
        ensures
            node.instruction == instruction,
            node.index == index,
            node.program_id == program_id,
            node.accounts == accounts,
            node.parent_instruction is None,
            node.inner_instructions@ == Seq::<usize>::empty(),
    {
        IndexedInstruction {
            instruction,
            inner_instructions: Vec::new(),
            parent_instruction: None,
            program_id,
            accounts,
            index,
        }
    }

    /// The handles of the instructions that this one invoked, in trace order.
    pub fn inner_instructions(&self) -> (inner: &Vec<usize>)
        ensures
            *inner == self.inner_instructions,
    {
        &self.inner_instructions
    }

    /// The handle of the instruction that invoked this one; `None` for a
    /// top-level instruction.
    pub fn parent_instruction(&self) -> (parent: Option<usize>)
        ensures
            parent == self.parent_instruction,
    {
        self.parent_instruction
    }

    /// The address of the invoked program.
    pub fn program_id(&self) -> (key: Pubkey)
        ensures
            key == self.program_id,
    {
        self.program_id
    }

    /// Where the invoked program stands in the account table.
    pub fn program_id_index(&self) -> (index: u32)
        ensures
            index == self.instruction.program_id_index,
    {
        self.instruction.program_id_index
    }

    /// The addresses of the accounts handed to the program, in order.
    pub fn accounts(&self) -> (accounts: &Vec<Pubkey>)
        ensures
            *accounts == self.accounts,
    {
        &self.accounts
    }

    /// The instruction's payload.
    pub fn data(&self) -> (data: &Vec<u8>)
        ensures
            *data == self.instruction.data,
    {
        &self.instruction.data
    }

    /// The depth in the invocation stack.
    pub fn stack_height(&self) -> (height: Option<u32>)
        ensures
            height == Some(self.instruction.stack_height),
    {
        Some(self.instruction.stack_height)
    }
}

/// The indexed instructions of one transaction: the arena of nodes in trace
/// order, and the handles of the top-level instructions.
#[derive(Debug)]
pub struct InstructionForest<'a> {
    pub nodes: Vec<IndexedInstruction<'a>>,
    pub roots: Vec<usize>,
}

/// Whether an instruction names only accounts that a table of `table_len`
/// entries holds.
pub open spec fn names_known_accounts(instruction: Instruction, table_len: int) -> bool {
    &&& instruction.program_id_index < table_len
    &&& forall|k: int|
        0 <= k < instruction.accounts@.len() ==> (#[trigger] instruction.accounts@[k]) < table_len
}

/// Why no tree can be built for a transaction's trace, if anything.
pub open spec fn trace_fault(transaction: Transaction) -> Option<BadInput> {
    if transaction.meta is None {
        Some(BadInput::MissingMeta)
    } else if !keys_valid(transaction) {
        Some(BadInput::InconsistentAccounts)
    } else if exists|i: int|
        0 <= i < transaction.instructions@.len() && (
        #[trigger] transaction.instructions@[i]).stack_height == 0 {
        Some(BadInput::ZeroStackHeight)
    } else if exists|i: int|
        0 <= i < transaction.instructions@.len() && !names_known_accounts(
            #[trigger] transaction.instructions@[i],
            resolved_keys(transaction).len() as int,
        ) {
        Some(BadInput::InconsistentAccounts)
    } else {
        None
    }
}

impl<'a> InstructionForest<'a> {
    /// The stack heights of the nodes, in trace order.
    pub open spec fn heights(&self) -> Seq<u32> {
        Seq::new(self.nodes@.len(), |i: int| self.nodes@[i].instruction.stack_height)
    }

    /// The addresses of the programs that the nodes invoke, in trace order.
    pub open spec fn program_ids(&self) -> Seq<Seq<u8>> {
        Seq::new(self.nodes@.len(), |i: int| self.nodes@[i].program_id@)
    }

    /// The invariant of the forest: every node carries its position as flat
    /// index, its parent is the instruction that encloses it, its children
    /// are the instructions that it encloses directly, in trace order, and
    /// the roots are the instructions that nothing encloses.
    pub open spec fn well_formed(&self) -> bool {
        &&& self.nodes@.len() <= i32::MAX
        &&& forall|i: int|
            0 <= i < self.nodes@.len() ==> {
                let node = #[trigger] self.nodes@[i];
                &&& node.index == i
                &&& node.instruction.stack_height >= 1
                &&& position(node.parent_instruction) == enclosing(self.heights(), i)
                &&& positions(node.inner_instructions@) == inner_of(
                    self.heights(),
                    Some(i),
                    self.nodes@.len() as int,
                )
            }
        &&& positions(self.roots@) == inner_of(self.heights(), None, self.nodes@.len() as int)
    }

    /// Whether the forest is the tree of a transaction's trace, with every
    /// program and account resolved against the transaction's account table.
    pub open spec fn indexes(&self, transaction: Transaction) -> bool {
        &&& self.well_formed()
        &&& self.nodes@.len() == transaction.instructions@.len()
        &&& forall|i: int|
            0 <= i < self.nodes@.len() ==> {
                let node = #[trigger] self.nodes@[i];
                let raw = transaction.instructions@[i];
                &&& *node.instruction == raw
                &&& node.program_id@ == resolved_keys(transaction)[raw.program_id_index as int]
                &&& node.accounts@.len() == raw.accounts@.len()
                &&& forall|k: int|
                    0 <= k < raw.accounts@.len() ==> (#[trigger] node.accounts@[k])@
                        == resolved_keys(transaction)[raw.accounts@[k] as int]
            }
    }
}

/// Resolves the accounts that an instruction names against the account table.
fn resolve_instruction_accounts(instruction: &Instruction, table: &Vec<Pubkey>) -> (accounts: Option<
    Vec<Pubkey>,
>)
    ensures
        accounts is Some <==> (forall|k: int|
            0 <= k < instruction.accounts@.len() ==> (#[trigger] instruction.accounts@[k])
                < table@.len()),
        accounts matches Some(list) ==> {
            &&& list@.len() == instruction.accounts@.len()
            &&& forall|k: int|
                0 <= k < list@.len() ==> (#[trigger] list@[k]) == table@[instruction.accounts@[k] as int]
        },
{
    let mut list: Vec<Pubkey> = Vec::new();
    let mut k: usize = 0;
    while k < instruction.accounts.len()
        invariant
            k <= instruction.accounts@.len(),
            list@.len() == k,
            forall|j: int| 0 <= j < k ==> (#[trigger] instruction.accounts@[j]) < table@.len(),
            forall|j: int|
                0 <= j < k ==> (#[trigger] list@[j]) == table@[instruction.accounts@[j] as int],
        decreases instruction.accounts@.len() - k,
    {
        let at = instruction.accounts[k] as usize;
        if at >= table.len() {
            return None;
        }
        list.push(table[at]);
        k += 1;
    }
    Some(list)
}

/// Whether `node` is the indexed form of instruction `j` of a transaction
/// once the first `upto` instructions of the trace have been placed.
spec fn node_placed(
    node: IndexedInstruction,
    transaction: Transaction,
    j: int,
    upto: int,
) -> bool {
    let raw = transaction.instructions@[j];
    let keys = resolved_keys(transaction);
    &&& node.index == j
    &&& *node.instruction == raw
    &&& position(node.parent_instruction) == enclosing(transaction.heights(), j)
    &&& positions(node.inner_instructions@) == inner_of(transaction.heights(), Some(j), upto)
    &&& node.program_id@ == keys[raw.program_id_index as int]
    &&& node.accounts@.len() == raw.accounts@.len()
    &&& forall|k: int|
        0 <= k < raw.accounts@.len() ==> (#[trigger] node.accounts@[k])@ == keys[raw.accounts@[k] as int]
}

/// Whether `nodes` holds the first `upto` instructions of a transaction.
spec fn placed(nodes: Seq<IndexedInstruction>, transaction: Transaction, upto: int) -> bool {
    &&& nodes.len() == upto
    &&& forall|j: int| 0 <= j < upto ==> node_placed(#[trigger] nodes[j], transaction, j, upto)
}

/// Whether `chain` is the chain of instructions that are still open after
/// the first `upto` instructions: it ends in the last instruction placed,
/// each entry is enclosed by the one before it, and the first is top-level.
spec fn open_chain(heights: Seq<u32>, chain: Seq<int>, upto: int) -> bool {
    &&& (chain.len() == 0) == (upto == 0)
    &&& upto > 0 ==> chain[chain.len() - 1] == upto - 1
    &&& forall|a: int| 0 <= a < chain.len() ==> 0 <= #[trigger] chain[a] < upto
    &&& chain.len() > 0 ==> enclosing(heights, chain[0]) is None
    &&& forall|a: int|
        0 < a < chain.len() ==> enclosing(heights, #[trigger] chain[a]) == Some(chain[a - 1])
}

/// Whether every instruction after the first `len` entries of the chain and
/// before `i` is at least `height` deep.
spec fn cleared(heights: Seq<u32>, chain: Seq<int>, len: int, i: int, height: u32) -> bool {
    forall|x: int|
        (if len > 0 {
            chain[len - 1]
        } else {
            -1
        }) < x < i ==> #[trigger] heights[x] >= height
}

/// Dropping the last open instruction, which is at least `height` deep, keeps
/// everything after the rest of the chain at least `height` deep.
proof fn lemma_close_one(heights: Seq<u32>, chain: Seq<int>, len: int, i: int, height: u32)
    requires
        0 < len <= chain.len(),
        i <= heights.len(),
        open_chain(heights, chain, i),
        cleared(heights, chain, len, i, height),
        heights[chain[len - 1]] >= height,
    ensures
        cleared(heights, chain, len - 1, i, height),
{
    lemma_enclosing(heights, chain[len - 1]);
}

/// Once the chain has been cut back to the instructions that are shallower
/// than instruction `i`, its last entry encloses `i`, and with `i` at its end
/// it is the chain after `i + 1` instructions.
proof fn lemma_open_next(heights: Seq<u32>, chain: Seq<int>, len: int, i: int)
    requires
        0 <= len <= chain.len(),
        0 <= i < heights.len(),
        open_chain(heights, chain, i),
        cleared(heights, chain, len, i, heights[i]),
        len > 0 ==> heights[chain[len - 1]] < heights[i],
    ensures
        enclosing(heights, i) == (if len > 0 {
            Some(chain[len - 1])
        } else {
            None
        }),
        open_chain(heights, chain.take(len).push(i), i + 1),
{
    if len > 0 {
        lemma_nearest_shallower_is(heights, heights[i], i, chain[len - 1]);
    } else {
        lemma_nearest_shallower_none(heights, heights[i], i);
    }
}

/// Placing instruction `i` under the instruction that encloses it keeps the
/// arena in shape.
proof fn lemma_place(
    transaction: Transaction,
    before: Seq<IndexedInstruction>,
    after: Seq<IndexedInstruction>,
    i: int,
)
    requires
        0 <= i < transaction.instructions@.len(),
        placed(before, transaction, i),
        after.len() == i + 1,
        node_placed(after[i], transaction, i, i + 1),
        forall|j: int|
            0 <= j < i && Some(j) != enclosing(transaction.heights(), i) ==> #[trigger] after[j]
                == before[j],
        enclosing(transaction.heights(), i) matches Some(p) ==> {
            &&& 0 <= p < i
            &&& after[p].index == before[p].index
            &&& after[p].instruction == before[p].instruction
            &&& after[p].parent_instruction == before[p].parent_instruction
            &&& after[p].program_id == before[p].program_id
            &&& after[p].accounts == before[p].accounts
            &&& positions(after[p].inner_instructions@) == positions(
                before[p].inner_instructions@,
            ).push(i)
        },
    ensures
        placed(after, transaction, i + 1),
{
}

/// Rebuilds the tree of nested instructions from a transaction's trace.
///
/// Every instruction becomes a node whose flat index is its position in the
/// trace. Its parent is the nearest earlier instruction with a smaller stack
/// height; an instruction with none is a root. A trace that skips a level is
/// accepted as it is. The trace is refused where the meta record is missing,
/// an address of the account table is not 32 bytes long, an instruction has
/// stack height 0, or an instruction names an account outside the table.
pub fn get_indexed_instructions<'a>(transaction: &'a Transaction) -> (result: Result<
    InstructionForest<'a>,
    BadInput,
>)
    requires
        transaction.instructions@.len() <= i32::MAX,
    ensures
        match result {
            Ok(forest) => trace_fault(*transaction) is None && forest.indexes(*transaction),
            Err(kind) => trace_fault(*transaction) == Some(kind),
        },
{
    let table = match resolved_accounts(transaction) {
        Ok(table) => table,
        Err(kind) => {
            return Err(kind);
        },
    };
    let ghost heights = transaction.heights();
    let ghost keys = resolved_keys(*transaction);
    let count = transaction.instructions.len();

    let mut i: usize = 0;
    while i < count
        invariant
            i <= count == transaction.instructions@.len(),
            transaction.meta is Some,
            keys_valid(*transaction),
            forall|j: int| 0 <= j < i ==> (#[trigger] transaction.instructions@[j]).stack_height != 0,
        decreases count - i,
    {
        if transaction.instructions[i].stack_height == 0 {
            return Err(BadInput::ZeroStackHeight);
        }
        i += 1;
    }

    let mut nodes: Vec<IndexedInstruction<'a>> = Vec::new();
    let mut roots: Vec<usize> = Vec::new();
    // The instructions that are still open: each entry is enclosed by the one before it.
    let mut stack: Vec<usize> = Vec::new();

    let mut i: usize = 0;
    while i < count
        invariant
            i <= count == transaction.instructions@.len() <= i32::MAX,
            heights == transaction.heights(),
            keys == resolved_keys(*transaction),
            transaction.meta is Some,
            keys_valid(*transaction),
            pubkey_views(table@) == keys,
            table@.len() == keys.len(),
            forall|j: int|
                0 <= j < count ==> (#[trigger] transaction.instructions@[j]).stack_height != 0,
            forall|j: int|
                0 <= j < i ==> names_known_accounts(
                    #[trigger] transaction.instructions@[j],
                    keys.len() as int,
                ),
            placed(nodes@, *transaction, i as int),
            positions(roots@) == inner_of(heights, None, i as int),
            open_chain(heights, positions(stack@), i as int),
        decreases count - i,
    {
        let instruction = &transaction.instructions[i];
        let height = instruction.stack_height;

        let program_at = instruction.program_id_index as usize;
        if program_at >= table.len() {
            return Err(BadInput::InconsistentAccounts);
        }
        let accounts = match resolve_instruction_accounts(instruction, &table) {
            Some(accounts) => accounts,
            None => {
                return Err(BadInput::InconsistentAccounts);
            },
        };
        let program_id = table[program_at];
        assert(pubkey_views(table@)[program_at as int] == program_id@);

        let ghost chain = positions(stack@);
        assert forall|a: int| 0 <= a < stack@.len() implies (#[trigger] stack@[a]) < i by {
            assert(chain[a] == stack@[a] as int);
        }
        while stack.len() > 0 && transaction.instructions[stack[stack.len() - 1]].stack_height
            >= height
            invariant
                i < count == transaction.instructions@.len(),
                heights == transaction.heights(),
                height == heights[i as int],
                open_chain(heights, chain, i as int),
                stack@.len() <= chain.len(),
                positions(stack@) == chain.take(stack@.len() as int),
                cleared(heights, chain, stack@.len() as int, i as int, height),
                forall|a: int| 0 <= a < stack@.len() ==> (#[trigger] stack@[a]) < i,
            decreases stack@.len(),
        {
            proof {
                assert(positions(stack@)[stack@.len() - 1] == chain[stack@.len() - 1]);
                lemma_close_one(heights, chain, stack@.len() as int, i as int, height);
            }
            stack.pop();
        }
        proof {
            if stack@.len() > 0 {
                assert(positions(stack@)[stack@.len() - 1] == chain[stack@.len() - 1]);
            }
            lemma_open_next(heights, chain, stack@.len() as int, i as int);
            lemma_inner_of(heights, Some(i as int), i + 1);
        }
        let mut node = IndexedInstruction::new(instruction, program_id, accounts, i as i32);
        let ghost before = nodes@;
        if stack.len() > 0 {
            let parent = stack[stack.len() - 1];
            node.parent_instruction = Some(parent);
            nodes[parent].inner_instructions.push(i);
            assert(positions(nodes@[parent as int].inner_instructions@) =~= positions(
                before[parent as int].inner_instructions@,
            ).push(i as int));
        } else {
            roots.push(i);
        }
        assert(positions(node.inner_instructions@) =~= inner_of(heights, Some(i as int), i + 1));
        nodes.push(node);
        proof {
            lemma_place(*transaction, before, nodes@, i as int);
        }
        stack.push(i);
        assert(positions(stack@) =~= chain.take(stack@.len() - 1).push(i as int));
        i += 1;
    }
    let forest = InstructionForest { nodes, roots };
    assert(forest.heights() =~= heights);
    Ok(forest)
}

impl<'a> IndexedInstruction<'a> {
    /// The root of the tree that this instruction stands in, found by walking
    /// up the parents; `None` where the instruction is a root itself.
    pub fn top_instruction(&self, forest: &InstructionForest<'a>) -> (top: Option<usize>)
        requires
            forest.well_formed(),
            0 <= self.index < forest.nodes@.len(),
            forest.nodes@[self.index as int] == *self,
        ensures
            self.parent_instruction is None ==> top is None,
            self.parent_instruction is Some ==> position(top) == Some(
                root_ancestor(forest.heights(), self.index as int),
            ),
    {
        let ghost heights = forest.heights();
        let mut top = match self.parent_instruction {
            Some(parent) => parent,
            None => {
                return None;
            },
        };
        proof {
            lemma_enclosing(heights, self.index as int);
        }
        let mut next = forest.nodes[top].parent_instruction;
        while next.is_some()
            invariant
                forest.well_formed(),
                heights == forest.heights(),
                0 <= top < forest.nodes@.len(),
                next == forest.nodes@[top as int].parent_instruction,
                root_ancestor(heights, top as int) == root_ancestor(heights, self.index as int),
            decreases top,
        {
            proof {
                lemma_enclosing(heights, top as int);
            }
            top = next.unwrap();
            next = forest.nodes[top].parent_instruction;
        }
        Some(top)
    }
}

/// The positions from `from` up to, not including, `to`.
pub open spec fn span(from: int, to: int) -> Seq<int> {
    Seq::new((to - from) as nat, |i: int| from + i)
}

/// The depth-first pre-order traversal of the tree below and including node `k`.
pub open spec fn preorder_of(nodes: Seq<IndexedInstruction>, k: int) -> Seq<int>
    decreases nodes.len() - k, 1int, 0int,
{
    if 0 <= k < nodes.len() {
        seq![k] + preorder_list(nodes, k, positions(nodes[k].inner_instructions@))
    } else {
        Seq::empty()
    }
}

/// The traversals of the trees below the listed nodes, one after the other.
/// Only nodes after position `floor` are followed.
pub open spec fn preorder_list(nodes: Seq<IndexedInstruction>, floor: int, list: Seq<int>) -> Seq<int>
    decreases nodes.len() - floor, 0int, list.len(),
{
    if list.len() == 0 || floor < -1 {
        Seq::empty()
    } else {
        let last = list.last();
        preorder_list(nodes, floor, list.drop_last()) + (if floor < last < nodes.len() {
            preorder_of(nodes, last)
        } else {
            Seq::empty()
        })
    }
}

/// A forest of indexed instructions that can be walked in depth-first order.
pub trait IndexedInstructions {
    /// Whether the forest is in shape, so that it can be walked.
    spec fn in_shape(&self) -> bool;

    /// The handles of all instructions in depth-first pre-order: every
    /// instruction, followed by the traversals of its children in order.
    spec fn preorder(&self) -> Seq<int>;

    /// Walks the forest depth-first from its roots and lists every
    /// instruction before the instructions that it invoked.
    fn flattened(&self) -> (handles: Vec<usize>)
        requires
            self.in_shape(),
        ensures
            positions(handles@) == self.preorder(),
    ;
}

/// Appends the pre-order traversal of the tree below and including `node`.
fn visit(forest: &InstructionForest, node: usize, handles: &mut Vec<usize>)
    requires
        forest.well_formed(),
        node < forest.nodes@.len(),
    ensures
        positions(final(handles)@) == positions(old(handles)@) + preorder_of(
            forest.nodes@,
            node as int,
        ),
    decreases forest.nodes@.len() - node,
{
    handles.push(node);
    let children = &forest.nodes[node].inner_instructions;
    let ghost list = positions(children@);
    proof {
        lemma_inner_of(forest.heights(), Some(node as int), forest.nodes@.len() as int);
    }
    let mut c: usize = 0;
    while c < children.len()
        invariant
            forest.well_formed(),
            node < forest.nodes@.len(),
            c <= children@.len(),
            children == forest.nodes@[node as int].inner_instructions,
            list == positions(children@),
            forall|k: int| 0 <= k < list.len() ==> node < #[trigger] list[k] < forest.nodes@.len(),
            positions(handles@) == positions(old(handles)@) + seq![node as int] + preorder_list(
                forest.nodes@,
                node as int,
                list.take(c as int),
            ),
        decreases children@.len() - c,
    {
        let child = children[c];
        assert(list[c as int] == child);
        visit(forest, child, handles);
        assert(list.take(c + 1).drop_last() =~= list.take(c as int));
        c += 1;
    }
    assert(list.take(c as int) =~= list);
}

impl<'a> IndexedInstructions for InstructionForest<'a> {
    open spec fn in_shape(&self) -> bool {
        self.well_formed()
    }

    open spec fn preorder(&self) -> Seq<int> {
        preorder_list(self.nodes@, -1, positions(self.roots@))
    }

    fn flattened(&self) -> (handles: Vec<usize>) {
        let mut handles: Vec<usize> = Vec::new();
        let ghost list = positions(self.roots@);
        proof {
            lemma_inner_of(self.heights(), None, self.nodes@.len() as int);
        }
        let mut r: usize = 0;
        while r < self.roots.len()
            invariant
                self.well_formed(),
                r <= self.roots@.len(),
                list == positions(self.roots@),
                forall|k: int| 0 <= k < list.len() ==> 0 <= #[trigger] list[k] < self.nodes@.len(),
                positions(handles@) == preorder_list(self.nodes@, -1, list.take(r as int)),
            decreases self.roots@.len() - r,
        {
            let root = self.roots[r];
            assert(list[r as int] == root);
            visit(self, root, &mut handles);
            assert(list.take(r + 1).drop_last() =~= list.take(r as int));
            r += 1;
        }
        assert(list.take(r as int) =~= list);
        handles
    }
}

/// The first position at or after `from` that is at most `height` deep, or
/// the length of the trace if there is none.
pub open spec fn next_not_deeper(heights: Seq<u32>, height: u32, from: int) -> int
    decreases heights.len() - from,
{
    if from < 0 || from >= heights.len() {
        heights.len() as int
    } else if heights[from] <= height {
        from
    } else {
        next_not_deeper(heights, height, from + 1)
    }
}

/// Where the tree below instruction `k` ends: the first later instruction
/// that is not deeper than `k`.
pub open spec fn subtree_end(heights: Seq<u32>, k: int) -> int {
    next_not_deeper(heights, heights[k], k + 1)
}

proof fn lemma_next_not_deeper(heights: Seq<u32>, height: u32, from: int)
    requires
        0 <= from <= heights.len(),
    ensures
        from <= next_not_deeper(heights, height, from) <= heights.len(),
        forall|j: int| from <= j < next_not_deeper(heights, height, from) ==> heights[j] > height,
        next_not_deeper(heights, height, from) < heights.len() ==> heights[next_not_deeper(
            heights,
            height,
            from,
        )] <= height,
    decreases heights.len() - from,
{
    if from < heights.len() && heights[from] > height {
        lemma_next_not_deeper(heights, height, from + 1);
    }
}

/// An instruction that `parent` encloses is at most the last entry of the
/// list of such instructions.
proof fn lemma_inner_bound(heights: Seq<u32>, parent: Option<int>, upto: int, x: int)
    requires
        0 <= x < upto <= heights.len(),
        enclosing(heights, x) == parent,
    ensures
        inner_of(heights, parent, upto).len() > 0,
        x <= inner_of(heights, parent, upto).last(),
{
    lemma_inner_of(heights, parent, upto);
    // The list holds `x`, and it is increasing.
    assert(inner_of(heights, parent, upto).contains(x));
}

/// Where the tree below `c` ends inside the tree of the instruction that
/// encloses `c`, the next instruction has the same parent as `c`.
proof fn lemma_next_sibling(heights: Seq<u32>, parent: Option<int>, c: int)
    requires
        0 <= c < heights.len(),
        enclosing(heights, c) == parent,
        subtree_end(heights, c) < heights.len(),
        parent matches Some(p) ==> 0 <= p < heights.len() && heights[subtree_end(heights, c)]
            > heights[p],
    ensures
        enclosing(heights, subtree_end(heights, c)) == parent,
{
    let e = subtree_end(heights, c);
    lemma_next_not_deeper(heights, heights[c], c + 1);
    lemma_enclosing(heights, c);
    match parent {
        Some(p) => {
            lemma_nearest_shallower_is(heights, heights[e], e, p);
        },
        None => {
            lemma_nearest_shallower_none(heights, heights[e], e);
        },
    }
}

/// The position below which `parent` encloses nothing: its own, or -1.
spec fn floor_of(parent: Option<int>) -> int {
    match parent {
        Some(p) => p,
        None => -1,
    }
}

/// The first instruction that `parent` encloses comes right after `parent`.
proof fn lemma_first_inner(heights: Seq<u32>, parent: Option<int>, x: int)
    requires
        0 <= x < heights.len(),
        enclosing(heights, x) == parent,
        inner_of(heights, parent, x).len() == 0,
    ensures
        x == floor_of(parent) + 1,
{
    lemma_enclosing(heights, x);
    let y = floor_of(parent) + 1;
    if y < x {
        match parent {
            Some(p) => {
                lemma_nearest_shallower_is(heights, heights[y], y, p);
            },
            None => {
                lemma_nearest_shallower_none(heights, heights[y], y);
            },
        }
        lemma_inner_bound(heights, parent, x, y);
    }
}

/// An instruction that `parent` encloses, and that is not the first such,
/// starts where the tree of the one before it ends.
proof fn lemma_later_inner(heights: Seq<u32>, parent: Option<int>, x: int)
    requires
        0 <= x < heights.len(),
        enclosing(heights, x) == parent,
        inner_of(heights, parent, x).len() > 0,
    ensures
        subtree_end(heights, inner_of(heights, parent, x).last()) == x,
{
    let rest = inner_of(heights, parent, x);
    let c = rest.last();
    let end_c = subtree_end(heights, c);
    lemma_enclosing(heights, x);
    lemma_inner_of(heights, parent, x);
    lemma_next_not_deeper(heights, heights[c], c + 1);
    if end_c < x {
        lemma_next_sibling(heights, parent, c);
        lemma_inner_bound(heights, parent, x, end_c);
    }
}

/// Whether every node lists as its children the instructions that it
/// encloses directly.
spec fn children_listed(nodes: Seq<IndexedInstruction>, heights: Seq<u32>) -> bool {
    &&& nodes.len() == heights.len()
    &&& forall|k: int|
        0 <= k < nodes.len() ==> positions((#[trigger] nodes[k]).inner_instructions@) == inner_of(
            heights,
            Some(k),
            nodes.len() as int,
        )
}

/// The tree below `k` ends right after `k` if `k` encloses nothing, and
/// where the tree of the last instruction that `k` encloses ends otherwise.
proof fn lemma_last_inner(heights: Seq<u32>, k: int)
    requires
        0 <= k < heights.len(),
    ensures
        k < subtree_end(heights, k) <= heights.len(),
        inner_of(heights, Some(k), heights.len() as int).len() == 0 ==> subtree_end(heights, k) == k
            + 1,
        inner_of(heights, Some(k), heights.len() as int).len() > 0 ==> subtree_end(
            heights,
            inner_of(heights, Some(k), heights.len() as int).last(),
        ) == subtree_end(heights, k),
{
    let n = heights.len() as int;
    let list = inner_of(heights, Some(k), n);
    let e = subtree_end(heights, k);
    lemma_next_not_deeper(heights, heights[k], k + 1);
    lemma_inner_of(heights, Some(k), n);
    if list.len() == 0 {
        if k + 1 < n && heights[k + 1] > heights[k] {
            lemma_nearest_shallower_is(heights, heights[k + 1], k + 1, k);
            lemma_inner_bound(heights, Some(k), n, k + 1);
        }
    } else {
        let c = list.last();
        let end_c = subtree_end(heights, c);
        lemma_enclosing(heights, c);
        lemma_next_not_deeper(heights, heights[c], c + 1);
        if end_c < e {
            lemma_next_sibling(heights, Some(k), c);
            lemma_inner_bound(heights, Some(k), n, end_c);
        }
    }
}

/// The trees of the top-level instructions cover the whole trace.
proof fn lemma_last_root(heights: Seq<u32>)
    ensures
        inner_of(heights, None, heights.len() as int).len() == 0 ==> heights.len() == 0,
        inner_of(heights, None, heights.len() as int).len() > 0 ==> subtree_end(
            heights,
            inner_of(heights, None, heights.len() as int).last(),
        ) == heights.len(),
{
    let n = heights.len() as int;
    let list = inner_of(heights, None, n);
    lemma_inner_of(heights, None, n);
    if list.len() == 0 {
        if n > 0 {
            lemma_nearest_shallower_none(heights, heights[0], 0);
            lemma_inner_bound(heights, None, n, 0);
        }
    } else {
        let c = list.last();
        lemma_next_not_deeper(heights, heights[c], c + 1);
        if subtree_end(heights, c) < n {
            lemma_next_sibling(heights, None, c);
            lemma_inner_bound(heights, None, n, subtree_end(heights, c));
        }
    }
}

/// The traversal of a node is the stretch of the trace from the node to the
/// end of its tree.
proof fn lemma_preorder_tree(nodes: Seq<IndexedInstruction>, heights: Seq<u32>, k: int)
    requires
        children_listed(nodes, heights),
        0 <= k < nodes.len(),
    ensures
        preorder_of(nodes, k) == span(k, subtree_end(heights, k)),
        k < subtree_end(heights, k) <= nodes.len(),
    decreases nodes.len() - k, 1int, 0int,
{
    lemma_preorder_inner(nodes, heights, Some(k), nodes.len() as int);
    lemma_last_inner(heights, k);
}

/// The traversal of a list with one more node at its end.
proof fn lemma_preorder_push(nodes: Seq<IndexedInstruction>, floor: int, rest: Seq<int>, x: int)
    requires
        -1 <= floor < x < nodes.len(),
    ensures
        preorder_list(nodes, floor, rest.push(x)) == preorder_list(nodes, floor, rest)
            + preorder_of(nodes, x),
{
    assert(rest.push(x).drop_last() =~= rest);
}

/// The traversals of the instructions that `parent` encloses before `upto`
/// make up the stretch of the trace from just after `parent` to the end of
/// the tree of the last of them.
proof fn lemma_preorder_inner(
    nodes: Seq<IndexedInstruction>,
    heights: Seq<u32>,
    parent: Option<int>,
    upto: int,
)
    requires
        children_listed(nodes, heights),
        0 <= upto <= nodes.len(),
        parent matches Some(p) ==> 0 <= p < nodes.len(),
    ensures
        preorder_list(nodes, floor_of(parent), inner_of(heights, parent, upto)) == span(
            floor_of(parent) + 1,
            if inner_of(heights, parent, upto).len() == 0 {
                floor_of(parent) + 1
            } else {
                subtree_end(heights, inner_of(heights, parent, upto).last())
            },
        ),
    decreases nodes.len() - floor_of(parent), 0int, upto,
{
    if upto > 0 {
        let x = upto - 1;
        let rest = inner_of(heights, parent, x);
        lemma_preorder_inner(nodes, heights, parent, x);
        if enclosing(heights, x) == parent {
            lemma_enclosing(heights, x);
            lemma_preorder_push(nodes, floor_of(parent), rest, x);
            lemma_preorder_tree(nodes, heights, x);
            if rest.len() == 0 {
                lemma_first_inner(heights, parent, x);
            } else {
                lemma_later_inner(heights, parent, x);
            }
        }
    }
}

impl<'a> InstructionForest<'a> {
    /// The flat indices of the nodes, in arena order.
    pub open spec fn flat_indices(&self) -> Seq<int> {
        Seq::new(self.nodes@.len(), |i: int| self.nodes@[i].index as int)
    }

    /// Flat indices are dense: over the nodes of a forest they are the
    /// numbers from 0 up to the number of instructions, each exactly once.
    pub proof fn lemma_flat_indices_dense(&self)
        requires
            self.well_formed(),
        ensures
            self.flat_indices() == span(0, self.nodes@.len() as int),
            self.flat_indices().to_multiset() == span(0, self.nodes@.len() as int).to_multiset(),
    {
        assert(self.flat_indices() =~= span(0, self.nodes@.len() as int));
    }

    /// Flat indices are the pre-order numbering: walking the forest
    /// depth-first from its roots visits the nodes in the order of their flat
    /// indices, so one node has the smaller flat index exactly if it is
    /// visited first.
    pub proof fn lemma_preorder_is_flat_order(&self)
        requires
            self.well_formed(),
        ensures
            self.preorder() == span(0, self.nodes@.len() as int),
            forall|a: int, b: int|
                0 <= a < self.nodes@.len() && 0 <= b < self.nodes@.len() ==> ((
                #[trigger] self.nodes@[self.preorder()[a]]).index < (
                #[trigger] self.nodes@[self.preorder()[b]]).index <==> a < b),
    {
        lemma_preorder_inner(self.nodes@, self.heights(), None, self.nodes@.len() as int);
        lemma_last_root(self.heights());
    }

    /// A node comes before each of its children and is shallower than they
    /// are, and its children are listed by strictly increasing flat index.
    pub proof fn lemma_children_follow(&self, i: int)
        requires
            self.well_formed(),
            0 <= i < self.nodes@.len(),
        ensures
            ({
                let inner = self.nodes@[i].inner_instructions@;
                &&& forall|k: int|
                    0 <= k < inner.len() ==> {
                        let child = self.nodes@[(#[trigger] inner[k]) as int];
                        &&& i < inner[k] < self.nodes@.len()
                        &&& child.parent_instruction == Some(i as usize)
                        &&& self.nodes@[i].instruction.stack_height < child.instruction.stack_height
                    }
                &&& forall|k: int, l: int|
                    0 <= k < l < inner.len() ==> self.nodes@[inner[k] as int].index
                        < self.nodes@[inner[l] as int].index
            }),
    {
        let heights = self.heights();
        let inner = self.nodes@[i].inner_instructions@;
        lemma_inner_of(heights, Some(i), self.nodes@.len() as int);
        assert forall|k: int| 0 <= k < inner.len() implies {
            let child = self.nodes@[(#[trigger] inner[k]) as int];
            &&& i < inner[k] < self.nodes@.len()
            &&& child.parent_instruction == Some(i as usize)
            &&& self.nodes@[i].instruction.stack_height < child.instruction.stack_height
        } by {
            assert(positions(inner)[k] == inner[k] as int);
            lemma_enclosing(heights, inner[k] as int);
        }
        assert forall|k: int, l: int| 0 <= k < l < inner.len() implies self.nodes@[inner[k] as int].index
            < self.nodes@[inner[l] as int].index by {
            assert(positions(inner)[k] == inner[k] as int);
            assert(positions(inner)[l] == inner[l] as int);
        }
    }

    /// Whether the trace never steps more than one level down at once.
    pub open spec fn no_level_skipped(&self) -> bool {
        forall|i: int|
            0 < i < self.nodes@.len() ==> (#[trigger] self.nodes@[i]).instruction.stack_height
                <= self.nodes@[i - 1].instruction.stack_height + 1
    }

    /// In a trace that skips no level, every instruction that has a parent is
    /// exactly one level below it; if the trace also starts at height 1,
    /// every root has height 1.
    pub proof fn lemma_strict_nesting(&self, i: int)
        requires
            self.well_formed(),
            self.no_level_skipped(),
            0 <= i < self.nodes@.len(),
        ensures
            self.nodes@[i].parent_instruction matches Some(p) ==> p < i
                && self.nodes@[i].instruction.stack_height
                == self.nodes@[p as int].instruction.stack_height + 1,
            self.nodes@[i].parent_instruction is None && self.nodes@[0].instruction.stack_height
                == 1 ==> self.nodes@[i].instruction.stack_height == 1,
    {
        let heights = self.heights();
        lemma_enclosing(heights, i);
        if let Some(p) = enclosing(heights, i) {
            // The step from the parent to the instruction after it is at most one level.
            assert(self.nodes@[p + 1].instruction.stack_height
                <= self.nodes@[p].instruction.stack_height + 1);
        }
    }
}

} // verus!
