//! Configuration-override merging.
//!
//! Overrides are raw `key=value` strings collected from the command line.
//! Entries given before the operating-mode selector (global scope) are merged
//! in front of the entries given after it (mode scope), so that a later
//! key-by-key resolver lets mode-scope entries win on conflict.

use vstd::prelude::*;

verus! {

/// Raw `key=value` configuration overrides collected from the command line.
/// No syntax of the individual entries is checked at this layer; the merge is
/// purely structural and a downstream resolver applies the entries in order.
#[derive(Debug, Clone, PartialEq, Eq)]
pub struct CliConfigOverrides {
    pub raw_overrides: Vec<String>,
}

/// Prepend root-level overrides so they have lower precedence than overrides
/// supplied after the subcommand: the merged list is the global list followed
/// by the mode-scope list, each in its original order.
pub fn prepend_config_flags(
    subcommand_config_overrides: &mut CliConfigOverrides,
    cli_config_overrides: CliConfigOverrides,
)
    ensures
        final(subcommand_config_overrides).raw_overrides@ == cli_config_overrides.raw_overrides@
            + old(subcommand_config_overrides).raw_overrides@,
{
    let mut merged = cli_config_overrides.raw_overrides;
    let mut tail: Vec<String> = Vec::new();
    core::mem::swap(&mut subcommand_config_overrides.raw_overrides, &mut tail);
    merged.append(&mut tail);
    subcommand_config_overrides.raw_overrides = merged;
}

/// Law: merging a global override list with a mode-scope override list
/// concatenates them. The result has the combined length, keeps the relative
/// order within each input list, and places every global entry before every
/// mode-scope entry.
pub proof fn lemma_merge_overrides(global: Seq<String>, mode_scope: Seq<String>)
    ensures
        (global + mode_scope).len() == global.len() + mode_scope.len(),
        forall|i: int| 0 <= i < global.len() ==> (global + mode_scope)[i] == global[i],
        forall|i: int|
            0 <= i < mode_scope.len() ==> (global + mode_scope)[global.len() + i]
                == mode_scope[i],
{
}

} // verus!
