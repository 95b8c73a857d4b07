use vstd::prelude::*;

verus! {

/// The alignment and size handed to `memalign` for an allocation of
/// `size` bytes aligned to `align`: the alignment is raised to at least
/// that of a pointer-sized word, and both are cut to 32 bits.
pub fn memalign_args(align: usize, size: usize) -> (args: (u32, u32))
    ensures
        args.0 == (if align >= vstd::layout::size_of::<usize>() {
            align
        } else {
            vstd::layout::size_of::<usize>() as usize
        }) as u32,
        args.1 == size as u32,
{
    let word: usize = core::mem::size_of::<usize>();
    let a: usize = if align >= word {
        align
    } else {
        word
    };
    (a as u32, size as u32)
}

} // verus!
