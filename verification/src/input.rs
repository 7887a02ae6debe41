//! Accumulation of input-file content into the template variable buffer.
//!
//! Zero or more input files feed the `input` template variable. Each file
//! that could be read contributes a labeled block: a blank line, a marker
//! line naming the file, then its content. A file that could not be read
//! contributes nothing; its path is reported beside the buffer so the caller
//! can surface a warning, and the operation still succeeds.

use crate::substitution::vars_view;
use vstd::prelude::*;
use vstd::string::StringExecFns;

verus! {

/// The labeled block a readable input file contributes to the buffer: a
/// blank line, a marker line naming the file, then its content.
pub open spec fn input_block(path: Seq<char>, content: Seq<char>) -> Seq<char> {
    "\n\n--- Content from "@ + path + " ---\n"@ + content
}

/// The accumulated buffer over a list of read attempts: the blocks of the
/// readable files in order; an unreadable file contributes nothing.
pub open spec fn accumulated_content(files: Seq<(String, Option<String>)>) -> Seq<char>
    decreases files.len(),
{
    if files.len() == 0 {
        Seq::empty()
    } else {
        let init = accumulated_content(files.drop_last());
        match files.last().1 {
            Some(content) => init + input_block(files.last().0@, content@),
            None => init,
        }
    }
}

/// The paths of the files that could not be read, in order.
pub open spec fn skipped_paths(files: Seq<(String, Option<String>)>) -> Seq<Seq<char>>
    decreases files.len(),
{
    if files.len() == 0 {
        Seq::empty()
    } else {
        let init = skipped_paths(files.drop_last());
        match files.last().1 {
            Some(_) => init,
            None => init.push(files.last().0@),
        }
    }
}

/// Combine the input files' content into one buffer, each readable file's
/// text behind a separator header naming its path. Every entry pairs a
/// file's path with its content, or `None` where the read failed; the paths
/// of the failed reads come back beside the buffer, for warnings.
pub fn accumulate_input_content(files: &Vec<(String, Option<String>)>) -> (r: (String, Vec<
    String,
>))
    ensures
        r.0@ == accumulated_content(files@),
        r.1@.map_values(|p: String| p@) == skipped_paths(files@),
{
    let mut buffer = String::new();
    let mut skipped: Vec<String> = Vec::new();
    let mut i: usize = 0;
    proof {
        assert(files@.take(0) =~= Seq::<(String, Option<String>)>::empty());
        assert(skipped@.map_values(|p: String| p@) =~= Seq::<Seq<char>>::empty());
    }
    while i < files.len()
        invariant
            i <= files@.len(),
            buffer@ == accumulated_content(files@.take(i as int)),
            skipped@.map_values(|p: String| p@) == skipped_paths(files@.take(i as int)),
        decreases files@.len() - i,
    {
        let ghost prefix = files@.take(i as int);
        let ghost next_prefix = files@.take(i + 1);
        proof {
            assert(next_prefix.drop_last() =~= prefix);
            assert(next_prefix.last() == files@[i as int]);
        }
        match &files[i].1 {
            Some(content) => {
                buffer.append("\n\n--- Content from ");
                buffer.append(files[i].0.as_str());
                buffer.append(" ---\n");
                buffer.append(content.as_str());
            },
            None => {
                let ghost before = skipped@;
                skipped.push(files[i].0.clone());
                proof {
                    assert(skipped@.map_values(|p: String| p@) =~= before.map_values(
                        |p: String| p@,
                    ).push(files@[i as int].0@));
                }
            },
        }
        i += 1;
    }
    proof {
        assert(files@.take(files@.len() as int) =~= files@);
    }
    (buffer, skipped)
}

/// The variable list for the prompt-processing mode: the accumulated input
/// buffer bound to the `input` template variable.
pub fn make_input_vars(input_content: String) -> (r: Vec<(String, String)>)
    ensures
        vars_view(r@) == seq![("input"@, input_content@)],
{
    let mut vars: Vec<(String, String)> = Vec::new();
    vars.push((String::from_str("input"), input_content));
    proof {
        assert(vars_view(vars@) =~= seq![("input"@, input_content@)]);
    }
    vars
}

} // verus!
