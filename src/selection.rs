//! Which chunks of a raw replay to show, by what the caller asked for.
use vstd::prelude::*;

use crate::envelope::RawReplay;

verus! {

/// Why the asked-for chunks cannot be shown.
#[derive(Debug, Clone, Copy, PartialEq, Eq, Structural)]
pub enum ShowError {
    /// The replay has no battle-info chunk.
    NoBattleInfo,
    /// The replay has no results chunk.
    NoBattleResults,
}

/// The indices of the chunks to show: all of them by default, only the battle info, or
/// only the results. Battle info wins where both are asked for.
pub fn chunks_to_show(raw: &RawReplay, battle_info_only: bool, results_only: bool) -> (r: Result<
    Vec<usize>,
    ShowError,
>)
    requires
        raw.wf(),
    ensures
        !battle_info_only && !results_only ==> (r matches Ok(v) && v@ == Seq::new(
            raw.data_chunks as nat,
            |i: int| i as usize,
        )),
        battle_info_only && raw.data_chunks >= 1 ==> (r matches Ok(v) && v@ == seq![0usize]),
        battle_info_only && raw.data_chunks == 0 ==> r == Err::<Vec<usize>, ShowError>(
            ShowError::NoBattleInfo,
        ),
        !battle_info_only && results_only && raw.data_chunks >= 2 ==> (r matches Ok(v) && v@
            == seq![1usize]),
        !battle_info_only && results_only && raw.data_chunks < 2 ==> r == Err::<
            Vec<usize>,
            ShowError,
        >(ShowError::NoBattleResults),
{
    if !battle_info_only && !results_only {
        let n = raw.data.len();
        let mut v: Vec<usize> = Vec::new();
        let mut i: usize = 0;
        while i < n
            invariant
                i <= n,
                n == raw.data_chunks,
                v@ == Seq::new(i as nat, |k: int| k as usize),
            decreases n - i,
        {
            v.push(i);
            i = i + 1;
            assert(v@ =~= Seq::new(i as nat, |k: int| k as usize));
        }
        Ok(v)
    } else if battle_info_only {
        if raw.data.len() == 0 {
            Err(ShowError::NoBattleInfo)
        } else {
            Ok(vec![0usize])
        }
    } else if raw.data.len() >= 2 {
        Ok(vec![1usize])
    } else {
        Err(ShowError::NoBattleResults)
    }
}

} // verus!
