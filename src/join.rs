use vstd::prelude::*;

verus! {

/// The characters of `args` put one after another, with one space between
/// each two neighbouring arguments and none at either end.
pub open spec fn joined(args: Seq<String>) -> Seq<char>
    decreases args.len(),
{
    if args.len() == 0 {
        Seq::empty()
    } else if args.len() == 1 {
        args[0]@
    } else {
        joined(args.drop_last()) + seq![' '] + args.last()@
    }
}

/// Joins the arguments with single spaces.
pub fn join_arguments(arguments: &[String]) -> (r: String)
    ensures
        r@ == joined(arguments@),
{
    let mut out = String::new();
    let mut i: usize = 0;
    while i < arguments.len()
        invariant
            i <= arguments@.len(),
            out@ == joined(arguments@.subrange(0, i as int)),
        decreases arguments@.len() - i,
    {
        let ghost before = arguments@.subrange(0, i as int);
        let ghost after = arguments@.subrange(0, i + 1);
        assert(after.drop_last() =~= before);
        if i > 0 {
            out.append(" ");
            proof {
                reveal_strlit(" ");
            }
        }
        out.append(arguments[i].as_str());
        assert(out@ =~= joined(after));
        i = i + 1;
    }
    assert(arguments@.subrange(0, i as int) =~= arguments@);
    out
}

} // verus!
