use vstd::prelude::*;

use crate::cpu::mappers::TestMapper;
use crate::cpu::{lemma_push_all_stack_pointer, pop_n, push_all, stack_address, CPU};
use crate::memory::Memory;

verus! {

/// The stack slot `i` places below `stack_pointer` (wrapping in the page).
pub open spec fn slot_below(stack_pointer: u8, i: int) -> int {
    stack_address(((stack_pointer - i) % 256) as u8) as int
}

/// On flat memory, after `bytes` are pushed, the `i`-th of them sits `i`
/// slots below the starting stack pointer (as long as no slot is reused).
pub proof fn lemma_push_all_contents(s: CPU<TestMapper>, bytes: Seq<u8>)
    requires
        bytes.len() <= 256,
    ensures
        forall|i: int|
            0 <= i < bytes.len() ==> push_all(s, bytes).mapper.memory@[#[trigger] slot_below(
                s.stack_pointer,
                i,
            )] == bytes[i],
    decreases bytes.len(),
{
    if bytes.len() > 0 {
        let n = bytes.len() as int;
        let prev = push_all(s, bytes.drop_last());
        lemma_push_all_contents(s, bytes.drop_last());
        lemma_push_all_stack_pointer(s, bytes.drop_last());
        assert(stack_address(prev.stack_pointer) as int == slot_below(s.stack_pointer, n - 1));
        assert forall|i: int| 0 <= i < n implies push_all(s, bytes).mapper.memory@[#[trigger] slot_below(
            s.stack_pointer,
            i,
        )] == bytes[i] by {
            if i < n - 1 {
                assert(slot_below(s.stack_pointer, i) != slot_below(s.stack_pointer, n - 1));
                assert(bytes.drop_last()[i] == bytes[i]);
            }
        }
    }
}

/// On flat memory, the `j`-th of `k` pops returns the byte `j + 1` slots
/// above the starting stack pointer.
pub proof fn lemma_pop_n_contents(t: CPU<TestMapper>, k: nat)
    ensures
        pop_n(t, k).0.len() == k,
        forall|j: int|
            0 <= j < k ==> #[trigger] pop_n(t, k).0[j] == t.mapper.memory@[stack_address(
                ((t.stack_pointer + 1 + j) % 256) as u8,
            ) as int],
    decreases k,
{
    if k > 0 {
        let (v, t1) = t.pop_spec();
        lemma_pop_n_contents(t1, (k - 1) as nat);
        assert forall|j: int| 0 <= j < k implies #[trigger] pop_n(t, k).0[j] == t.mapper.memory@[stack_address(
            ((t.stack_pointer + 1 + j) % 256) as u8,
        ) as int] by {
            if j > 0 {
                let sp1 = ((t.stack_pointer + 1) % 256) as u8;
                assert(((sp1 + 1 + (j - 1)) % 256) == ((t.stack_pointer + 1 + j) % 256)) by {
                    vstd::arithmetic::div_mod::lemma_add_mod_noop(t.stack_pointer + 1, j, 256);
                    vstd::arithmetic::div_mod::lemma_mod_twice(t.stack_pointer + 1, 256);
                    vstd::arithmetic::div_mod::lemma_add_mod_noop(t.stack_pointer + 1, j, 256);
                }
            }
        }
    }
}

/// On flat memory, 256 pops after 256 pushes return the pushed bytes last
/// first: the final pop gives back the byte pushed first.
pub proof fn lemma_stack_round_trip(s: CPU<TestMapper>, bytes: Seq<u8>)
    requires
        bytes.len() == 256,
    ensures
        pop_n(push_all(s, bytes), 256).0 == bytes.reverse(),
        pop_n(push_all(s, bytes), 256).0[255] == bytes[0],
{
    let t = push_all(s, bytes);
    lemma_push_all_contents(s, bytes);
    lemma_push_all_stack_pointer(s, bytes);
    vstd::arithmetic::div_mod::lemma_mod_sub_multiples_vanish(s.stack_pointer as int, 256);
    lemma_pop_n_contents(t, 256);
    assert forall|j: int| 0 <= j < 256 implies #[trigger] pop_n(t, 256).0[j] == bytes.reverse()[j] by {
        assert(((t.stack_pointer + 1 + j) % 256) == ((s.stack_pointer - (255 - j)) % 256)) by {
            vstd::arithmetic::div_mod::lemma_mod_add_multiples_vanish(s.stack_pointer - (255 - j), 256);
        }
        assert(slot_below(s.stack_pointer, 255 - j) == stack_address(((t.stack_pointer + 1 + j) % 256) as u8) as int);
    }
    assert(pop_n(t, 256).0 =~= bytes.reverse());
}

} // verus!
