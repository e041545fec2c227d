//! Composition of string transforms, applied left to right.
use vstd::prelude::*;

verus! {

/// `steps` records applying the functions `fs` one after another, first to
/// last: `steps[0]` is the input and each function maps one step to the next.
pub open spec fn is_chain<F: Fn(String) -> String>(fs: Seq<F>, steps: Seq<String>) -> bool {
    &&& steps.len() == fs.len() + 1
    &&& forall|k: int| 0 <= k < fs.len() ==> #[trigger] fs[k].ensures((steps[k],), steps[k + 1])
}

/// `output` is what applying the functions `fs` one after another, first to
/// last, can make of `input`.
pub open spec fn chained<F: Fn(String) -> String>(fs: Seq<F>, input: String, output: String) -> bool {
    exists|steps: Seq<String>| is_chain(fs, steps) && steps[0] == input && steps.last() == output
}

/// The composition of `functions`, applied left to right.
pub fn chain_functions<F: Fn(String) -> String>(functions: Vec<F>) -> (f: impl Fn(String) -> String)
    requires
        forall|k: int, s: String| 0 <= k < functions@.len() ==> #[trigger] functions@[k].requires((s,)),
    ensures
        forall|s: String| #[trigger] f.requires((s,)),
        forall|s: String, r: String| #[trigger] f.ensures((s,), r) ==> chained(functions@, s, r),
{
    move |input: String| -> (r: String)
        ensures
            chained(functions@, input, r),
        {
            let ghost mut steps: Seq<String> = seq![input];
            let mut value = input;
            let mut i: usize = 0;
            while i < functions.len()
                invariant
                    i <= functions.len(),
                    forall|k: int, s: String| 0 <= k < functions@.len() ==> #[trigger] functions@[k].requires((s,)),
                    is_chain(functions@.take(i as int), steps),
                    steps[0] == input,
                    steps.last() == value,
                decreases functions.len() - i,
            {
                let ghost before = steps;
                value = (functions[i])(value);
                proof {
                    steps = steps.push(value);
                    let fs = functions@.take(i + 1);
                    assert forall|k: int| 0 <= k < fs.len() implies #[trigger] fs[k].ensures((steps[k],), steps[k + 1]) by {
                        if k < i {
                            assert(fs[k] == functions@.take(i as int)[k]);
                            assert(steps[k] == before[k] && steps[k + 1] == before[k + 1]);
                        } else {
                            assert(fs[k] == functions@[i as int]);
                        }
                    }
                }
                i = i + 1;
            }
            assert(functions@.take(functions.len() as int) =~= functions@);
            value
        }
}

} // verus!
