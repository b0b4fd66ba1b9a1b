//! The graph of the nodes of a pipeline.
//!
//! A node names its inputs when it is added, and only nodes that are in
//! the graph already can be named. So every edge leads from an earlier
//! node to a later one, and the graph has no cycle.

use crate::pipeline_processing::error::{ConfigFault, Error};
use crate::pipeline_processing::node::NodeID;
use vstd::prelude::*;

verus! {

/// Whether every input named in `inputs` is a node before `bound`.
pub open spec fn all_before(inputs: Seq<NodeID>, bound: int) -> bool {
    forall|k: int| 0 <= k < inputs.len() ==> (#[trigger] inputs[k]) < bound
}

/// Whether node `consumer` takes input from node `producer`.
pub open spec fn feeds(graph: Seq<Vec<NodeID>>, producer: NodeID, consumer: int) -> bool {
    0 <= consumer < graph.len() && graph[consumer]@.contains(producer)
}

/// The nodes of a pipeline, each with the nodes it takes its input from.
#[derive(Debug)]
pub struct ProcessingGraph {
    inputs: Vec<Vec<NodeID>>,
}

impl View for ProcessingGraph {
    type V = Seq<Vec<NodeID>>;

    /// For each node, in the order in which the nodes were added, the
    /// nodes it takes its input from.
    closed spec fn view(&self) -> Seq<Vec<NodeID>> {
        self.inputs@
    }
}

impl ProcessingGraph {
    /// Every node takes its input from nodes that were added before it.
    pub open spec fn wf(&self) -> bool {
        forall|i: int| 0 <= i < self@.len() ==> all_before((#[trigger] self@[i])@, i)
    }

    /// A graph without nodes.
    pub fn new() -> (graph: Self)
        ensures
            graph.wf(),
            graph@.len() == 0,
    {
        ProcessingGraph { inputs: Vec::new() }
    }

    /// Number of nodes.
    pub fn len(&self) -> (len: usize)
        ensures
            len == self@.len(),
    {
        self.inputs.len()
    }

    /// Adds a node that takes its input from `inputs`, and says which
    /// number it got. A node cannot take input from a node that is not in
    /// the graph yet; the graph is then left as it was, and the first
    /// such input is reported.
    pub fn add(&mut self, inputs: Vec<NodeID>) -> (id: Result<NodeID, Error>)
        requires
            old(self).wf(),
        ensures
            final(self).wf(),
            match id {
                Ok(node) => {
                    &&& all_before(inputs@, old(self)@.len() as int)
                    &&& node == old(self)@.len()
                    &&& final(self)@ == old(self)@.push(inputs)
                },
                Err(e) => {
                    &&& final(self)@ == old(self)@
                    &&& exists|k: int|
                        {
                            &&& 0 <= k < inputs@.len()
                            &&& #[trigger] inputs@[k] >= old(self)@.len()
                            &&& all_before(inputs@.take(k), old(self)@.len() as int)
                            &&& e == Error::Config(
                                ConfigFault::UnknownInput {
                                    input: inputs@[k],
                                    nodes: old(self)@.len() as usize,
                                },
                            )
                        }
                },
            },
    {
        let count = self.inputs.len();
        let mut k: usize = 0;
        while k < inputs.len()
            invariant
                k <= inputs.len(),
                count == self.inputs.len(),
                self.inputs@ == old(self).inputs@,
                self.wf(),
                forall|j: int| 0 <= j < k ==> (#[trigger] inputs@[j]) < count,
            decreases inputs.len() - k,
        {
            if inputs[k] >= count {
                assert(all_before(inputs@.take(k as int), count as int));
                return Err(
                    Error::Config(ConfigFault::UnknownInput { input: inputs[k], nodes: count }),
                );
            }
            k = k + 1;
        }
        self.inputs.push(inputs);
        proof {
            assert forall|i: int| 0 <= i < self@.len() implies all_before(
                (#[trigger] self@[i])@,
                i,
            ) by {
                if i < count {
                    assert(self@[i] == old(self)@[i]);
                }
            }
        }
        Ok(count)
    }

    /// The nodes that node `id` takes its input from.
    pub fn inputs_of(&self, id: NodeID) -> (inputs: &Vec<NodeID>)
        requires
            id < self@.len(),
        ensures
            *inputs == self@[id as int],
    {
        &self.inputs[id]
    }

    /// The nodes that take input from node `id`, by rising number.
    pub fn is_input_to(&self, id: NodeID) -> (consumers: Vec<NodeID>)
        ensures
            forall|c: usize| #[trigger] consumers@.contains(c) <==> feeds(self@, id, c as int),
            forall|a: int, b: int|
                0 <= a < b < consumers@.len() ==> (#[trigger] consumers@[a]) < (
                #[trigger] consumers@[b]),
    {
        let mut consumers: Vec<NodeID> = Vec::new();
        let mut i: usize = 0;
        while i < self.inputs.len()
            invariant
                i <= self.inputs.len(),
                forall|c: usize|
                    #[trigger] consumers@.contains(c) <==> c < i && feeds(self@, id, c as int),
                forall|a: int, b: int|
                    0 <= a < b < consumers@.len() ==> (#[trigger] consumers@[a]) < (
                    #[trigger] consumers@[b]),
            decreases self.inputs.len() - i,
        {
            let found = names(&self.inputs[i], id);
            let ghost before = consumers@;
            if found {
                consumers.push(i);
                proof {
                    assert(consumers@ == before.push(i));
                    assert forall|c: usize| #[trigger]
                        consumers@.contains(c) <==> c < i + 1 && feeds(self@, id, c as int) by {
                        if consumers@.contains(c) {
                            let w = choose|w: int| 0 <= w < consumers@.len() && consumers@[w] == c;
                            if w < before.len() {
                                assert(before[w] == c);
                                assert(before.contains(c));
                            }
                        }
                        if c < i + 1 && feeds(self@, id, c as int) {
                            if c == i {
                                assert(consumers@[before.len() as int] == i);
                            } else {
                                assert(before.contains(c));
                                let w = choose|w: int| 0 <= w < before.len() && before[w] == c;
                                assert(consumers@[w] == c);
                            }
                        }
                    }
                    assert forall|a: int, b: int|
                        0 <= a < b < consumers@.len() implies (#[trigger] consumers@[a]) < (
                    #[trigger] consumers@[b]) by {
                        if b == before.len() {
                            assert(before.contains(before[a]));
                        }
                    }
                }
            }
            i = i + 1;
        }
        consumers
    }
}

/// Whether `inputs` names the node `id`.
fn names(inputs: &Vec<NodeID>, id: NodeID) -> (found: bool)
    ensures
        found == inputs@.contains(id),
{
    let mut k: usize = 0;
    while k < inputs.len()
        invariant
            k <= inputs.len(),
            forall|j: int| 0 <= j < k ==> inputs@[j] != id,
        decreases inputs.len() - k,
    {
        if inputs[k] == id {
            return true;
        }
        k = k + 1;
    }
    false
}

/// No node takes input from itself or from a later node, so following
/// inputs from any node leads to ever earlier nodes and ends.
pub proof fn lemma_edges_point_forward(graph: ProcessingGraph, producer: NodeID, consumer: int)
    requires
        graph.wf(),
        feeds(graph@, producer, consumer),
    ensures
        producer < consumer,
{
    let inputs = graph@[consumer]@;
    let k = choose|k: int| 0 <= k < inputs.len() && inputs[k] == producer;
    assert(inputs[k] < consumer);
}

} // verus!
