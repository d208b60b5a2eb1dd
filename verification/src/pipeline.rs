//! The recipe pipeline executor.
//!
//! Execution folds the input buffer through the recipe's modules in order
//! and stops at the first failure; the modules after the failing one are
//! never invoked. The displayed output of a failed run is the textual form
//! of the error, not the partial buffer.

use vstd::prelude::*;
use vstd::slice::slice_to_vec;
use vstd::utf8::encode_utf8;

use crate::errors::spec_message;
use crate::errors::ProcessError;
use crate::module::spec_process;
use crate::module::ModuleInstance;

verus! {

/// What executing the recipe on `input` yields: the left fold of the
/// modules' transforms, or the first error.
pub open spec fn spec_execute(ms: Seq<ModuleInstance>, input: Seq<u8>) -> Result<
    Seq<u8>,
    ProcessError,
>
    decreases ms.len(),
{
    if ms.len() == 0 {
        Ok(input)
    } else {
        match spec_process(ms[0], input) {
            Ok(o) => spec_execute(ms.skip(1), o),
            Err(e) => Err(e),
        }
    }
}

/// Applies each module of `recipe` to the accumulated buffer in list
/// order, short-circuiting on the first failure.
pub fn execute(recipe: &Vec<ModuleInstance>, input: &Vec<u8>) -> (r: Result<Vec<u8>, ProcessError>)
    ensures
        (match r {
            Ok(v) => spec_execute(recipe@, input@) matches Ok(b) && v@ == b,
            Err(e) => spec_execute(recipe@, input@) matches Err(e2) && e == e2,
        }),
{
    let mut acc: Vec<u8> = slice_to_vec(input.as_slice());
    let mut idx: usize = 0;
    proof {
        assert(recipe@.skip(0) =~= recipe@);
    }
    while idx < recipe.len()
        invariant
            idx <= recipe@.len(),
            spec_execute(recipe@, input@) == spec_execute(recipe@.skip(idx as int), acc@),
        decreases recipe@.len() - idx,
    {
        let m: &ModuleInstance = &recipe[idx];
        proof {
            assert(recipe@.skip(idx as int)[0] == recipe@[idx as int]);
            assert(recipe@.skip(idx as int).skip(1) =~= recipe@.skip(idx as int + 1));
        }
        match m.process(acc.as_slice()) {
            Ok(next) => {
                acc = next;
            },
            Err(e) => {
                return Err(e);
            },
        }
        idx += 1;
    }
    proof {
        assert(recipe@.skip(recipe@.len() as int).len() == 0);
    }
    Ok(acc)
}

/// The bytes the recipe's output pane shows for `input`: the final buffer
/// of a successful run, or the message text of the first error.
pub fn display_output(recipe: &Vec<ModuleInstance>, input: &Vec<u8>) -> (r: Vec<u8>)
    ensures
        (match spec_execute(recipe@, input@) {
            Ok(b) => r@ == b,
            Err(e) => r@ == encode_utf8(spec_message(e)),
        }),
{
    match execute(recipe, input) {
        Ok(v) => v,
        Err(e) => e.message_bytes(),
    }
}

} // verus!
