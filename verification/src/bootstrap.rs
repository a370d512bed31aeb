//! Start-up wiring of compile-time product extensions.
use vstd::prelude::*;

use crate::command::{CommandRegistry, Extension};

verus! {

/// The registry passes through `states`, one more than there are `extensions`, from `before` to
/// `after`, each extension registering into one state and leaving the next.
pub open spec fn registered_in_order(
    extensions: Seq<Box<dyn Extension>>,
    states: Seq<CommandRegistry>,
    before: CommandRegistry,
    after: CommandRegistry,
) -> bool {
    &&& states.len() == extensions.len() + 1
    &&& states[0] == before
    &&& states.last() == after
    &&& forall|i: int| 0 <= i < extensions.len() ==> #[trigger] extensions[i].registered(states[i], states[i + 1])
}

/// Registers compile-time product extensions into the command registry, in order (see
/// `registered_in_order`); the registry stays well formed.
pub fn register_extensions(registry: &mut CommandRegistry, extensions: Vec<Box<dyn Extension>>)
    requires
        old(registry).wf(),
    ensures
        final(registry).wf(),
        exists|states: Seq<CommandRegistry>| registered_in_order(extensions@, states, *old(registry), *final(registry)),
{
    let ghost mut states: Seq<CommandRegistry> = seq![*registry];
    let mut i: usize = 0;
    while i < extensions.len()
        invariant
            i <= extensions@.len(),
            registry.wf(),
            registered_in_order(extensions@.take(i as int), states, *old(registry), *registry),
        decreases extensions.len() - i,
    {
        let ghost before = *registry;
        extensions[i].register(registry);
        proof {
            let prev = states;
            states = states.push(*registry);
            assert forall|j: int| 0 <= j < i + 1 implies #[trigger] extensions@.take(i + 1)[j].registered(
                states[j],
                states[j + 1],
            ) by {
                if j < i {
                    assert(extensions@.take(i as int)[j].registered(prev[j], prev[j + 1]));
                    assert(extensions@.take(i + 1)[j] == extensions@.take(i as int)[j]);
                }
            }
        }
        i += 1;
    }
    assert(extensions@.take(extensions@.len() as int) =~= extensions@);
}

} // verus!
