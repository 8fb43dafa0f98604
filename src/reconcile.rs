//! Which outputs need their panels adjusted after the host replaces its
//! picture of the workspaces.
use vstd::prelude::*;

verus! {

/// One workspace as the host reports it.
#[derive(Debug, Clone, Copy, PartialEq, Eq, Structural)]
pub struct WorkspaceInfo {
    /// The output the workspace is shown on.
    pub output: u64,
    /// Whether a toplevel on it is maximized.
    pub has_maximized: bool,
}

/// Whether output `o` shows a workspace with a maximized toplevel.
pub open spec fn output_is_maximized(ws: Seq<WorkspaceInfo>, o: u64) -> bool {
    exists|i: int| 0 <= i < ws.len() && #[trigger] ws[i].output == o && ws[i].has_maximized
}

/// The outputs, in order, whose maximized status differs between `before`
/// and `after`.
pub open spec fn flipped_outputs(
    outputs: Seq<u64>,
    before: Seq<WorkspaceInfo>,
    after: Seq<WorkspaceInfo>,
) -> Seq<u64>
    decreases outputs.len(),
{
    if outputs.len() == 0 {
        seq![]
    } else {
        let rest = flipped_outputs(outputs.drop_last(), before, after);
        let o = outputs.last();
        if output_is_maximized(before, o) != output_is_maximized(after, o) {
            rest.push(o)
        } else {
            rest
        }
    }
}

/// Whether output `o` shows a workspace with a maximized toplevel.
pub fn is_maximized(ws: &Vec<WorkspaceInfo>, o: u64) -> (b: bool)
    ensures
        b == output_is_maximized(ws@, o),
{
    let mut i: usize = 0;
    while i < ws.len()
        invariant
            i <= ws@.len(),
            forall|k: int| 0 <= k < i ==> !(#[trigger] ws@[k].output == o && ws@[k].has_maximized),
        decreases ws@.len() - i,
    {
        if ws[i].output == o && ws[i].has_maximized {
            return true;
        }
        i = i + 1;
    }
    false
}

/// The host replaced its workspaces `before` by `after`: returns, in the
/// order of `outputs`, the outputs whose panels must adjust because their
/// maximized status flipped.
pub fn maximized_changes(
    outputs: &Vec<u64>,
    before: &Vec<WorkspaceInfo>,
    after: &Vec<WorkspaceInfo>,
) -> (r: Vec<u64>)
    ensures
        r@ == flipped_outputs(outputs@, before@, after@),
{
    let mut out: Vec<u64> = Vec::new();
    let mut i: usize = 0;
    while i < outputs.len()
        invariant
            i <= outputs@.len(),
            out@ == flipped_outputs(outputs@.take(i as int), before@, after@),
        decreases outputs@.len() - i,
    {
        let o = outputs[i];
        assert(outputs@.take(i + 1).drop_last() =~= outputs@.take(i as int));
        if is_maximized(before, o) != is_maximized(after, o) {
            out.push(o);
        }
        i = i + 1;
    }
    assert(outputs@.take(i as int) =~= outputs@);
    out
}

} // verus!
