//! The typed extractor: which chunk holds which document, and how a replay fails.
use vstd::prelude::*;

use crate::envelope::{decode_envelope, read_raw, RawReplay, ReadError};
use crate::models::{BattleInfo, BattleResults};

verus! {

/// Why a replay could not be decoded.
#[derive(Debug)]
pub enum ReplayError {
    /// The input does not start with the replay magic number.
    InvalidFormat,
    /// The input ended before a declared length was satisfied.
    TruncatedInput,
    /// The envelope declares no chunks, so there is no battle info.
    MissingBattleInfo,
    /// The envelope declares a results chunk that its chunk sequence lacks.
    InconsistentEnvelope,
    /// The battle-info chunk does not decode; the decoder's diagnostic.
    MalformedBattleInfo(String),
    /// The results chunk does not decode; the decoder's diagnostic.
    MalformedBattleResults(String),
}

/// The error of the replay taxonomy that a framing error stands for.
pub open spec fn spec_from_read_error(e: ReadError) -> ReplayError {
    match e {
        ReadError::InvalidFormat => ReplayError::InvalidFormat,
        ReadError::TruncatedInput => ReplayError::TruncatedInput,
    }
}

impl ReplayError {
    /// The error of the replay taxonomy that a framing error stands for.
    pub fn from_read_error(e: ReadError) -> (r: ReplayError)
        ensures
            r == spec_from_read_error(e),
    {
        match e {
            ReadError::InvalidFormat => ReplayError::InvalidFormat,
            ReadError::TruncatedInput => ReplayError::TruncatedInput,
        }
    }
}

/// A decoded replay: the battle info and, where the replay holds them, the results.
#[derive(Debug)]
pub struct Replay {
    pub battle_info: BattleInfo,
    pub results: Option<BattleResults>,
}

/// The payload of the battle-info chunk, the first one.
pub fn battle_info_chunk(raw: &RawReplay) -> (r: Result<&Vec<u8>, ReplayError>)
    ensures
        raw.data@.len() == 0 ==> r matches Err(ReplayError::MissingBattleInfo),
        raw.data@.len() > 0 ==> (r matches Ok(p) && *p == raw.data@[0].payload),
{
    if raw.data.len() == 0 {
        Err(ReplayError::MissingBattleInfo)
    } else {
        Ok(&raw.data[0].payload)
    }
}

/// The payload of the results chunk, the second one: none where at most one chunk is
/// declared, and an error where one is declared but missing.
pub fn results_chunk(raw: &RawReplay) -> (r: Result<Option<&Vec<u8>>, ReplayError>)
    ensures
        raw.data_chunks <= 1 ==> r matches Ok(None),
        raw.data_chunks > 1 && raw.data@.len() < 2 ==> r matches Err(
            ReplayError::InconsistentEnvelope,
        ),
        raw.data_chunks > 1 && raw.data@.len() >= 2 ==> (r matches Ok(Some(p)) && *p
            == raw.data@[1].payload),
{
    if raw.data_chunks <= 1 {
        Ok(None)
    } else if raw.data.len() < 2 {
        Err(ReplayError::InconsistentEnvelope)
    } else {
        Ok(Some(&raw.data[1].payload))
    }
}

/// A raw replay that keeps its declared chunk count, as every one the envelope reader
/// returns does, never leaves a declared results chunk missing.
pub proof fn lemma_read_replay_is_consistent<FI, FR>(
    raw: RawReplay,
    decode_info: FI,
    decode_results: FR,
    r: Result<Replay, ReplayError>,
) where
    FI: Fn(&Vec<u8>) -> Result<BattleInfo, String>,
    FR: Fn(&Vec<u8>) -> Result<BattleResults, String>,

    requires
        raw.wf(),
        extraction_result(raw, decode_info, decode_results, r),
    ensures
        !(r matches Err(ReplayError::InconsistentEnvelope)),
{
}

/// What extraction returns for `raw` with the given decoders: the battle info that the
/// first chunk decodes to, with the results that the second decodes to where two or more
/// chunks are declared, or the error of the first step that fails.
pub open spec fn extraction_result<FI, FR>(
    raw: RawReplay,
    decode_info: FI,
    decode_results: FR,
    r: Result<Replay, ReplayError>,
) -> bool where
    FI: Fn(&Vec<u8>) -> Result<BattleInfo, String>,
    FR: Fn(&Vec<u8>) -> Result<BattleResults, String>,
 {
    if raw.data@.len() == 0 {
        r matches Err(ReplayError::MissingBattleInfo)
    } else {
        exists|info: Result<BattleInfo, String>|
            #[trigger] decode_info.ensures((&raw.data@[0].payload,), info) && match info {
                Err(m) => r == Err::<Replay, ReplayError>(ReplayError::MalformedBattleInfo(m)),
                Ok(bi) => if raw.data_chunks <= 1 {
                    r == Ok::<Replay, ReplayError>(Replay { battle_info: bi, results: None })
                } else if raw.data@.len() < 2 {
                    r matches Err(ReplayError::InconsistentEnvelope)
                } else {
                    exists|res: Result<BattleResults, String>|
                        #[trigger] decode_results.ensures((&raw.data@[1].payload,), res)
                            && match res {
                            Err(m) => r == Err::<Replay, ReplayError>(
                                ReplayError::MalformedBattleResults(m),
                            ),
                            Ok(br) => r == Ok::<Replay, ReplayError>(
                                Replay { battle_info: bi, results: Some(br) },
                            ),
                        }
                },
            }
    }
}

/// Decodes the documents of a raw replay with the given document decoders: the battle
/// info from the first chunk, and the results from the second where two or more chunks
/// are declared. A decoder's error becomes the malformed-document error of its chunk.
pub fn extract<FI, FR>(raw: &RawReplay, decode_info: FI, decode_results: FR) -> (r: Result<
    Replay,
    ReplayError,
>) where
    FI: Fn(&Vec<u8>) -> Result<BattleInfo, String>,
    FR: Fn(&Vec<u8>) -> Result<BattleResults, String>,

    requires
        forall|p: &Vec<u8>| decode_info.requires((p,)),
        forall|p: &Vec<u8>| decode_results.requires((p,)),
    ensures
        extraction_result(*raw, decode_info, decode_results, r),
{
    let info_chunk = match battle_info_chunk(raw) {
        Ok(p) => p,
        Err(e) => return Err(e),
    };
    let info = decode_info(info_chunk);
    let ghost info_copy = info;
    let battle_info = match info {
        Ok(bi) => bi,
        Err(m) => {
            assert(decode_info.ensures((&raw.data@[0].payload,), info_copy));
            return Err(ReplayError::MalformedBattleInfo(m));
        },
    };
    let results = match results_chunk(raw) {
        Ok(None) => None,
        Ok(Some(p)) => {
            let res = decode_results(p);
            let ghost res_copy = res;
            match res {
                Ok(br) => Some(br),
                Err(m) => {
                    assert(decode_info.ensures((&raw.data@[0].payload,), info_copy));
                    assert(decode_results.ensures((&raw.data@[1].payload,), res_copy));
                    return Err(ReplayError::MalformedBattleResults(m));
                },
            }
        },
        Err(e) => return Err(e),
    };
    Ok(Replay { battle_info, results })
}

/// Reads the envelope of a replay without its tail and decodes its documents with the
/// given decoders.
pub fn read_and_parse<FI, FR>(bytes: &[u8], decode_info: FI, decode_results: FR) -> (r: Result<
    Replay,
    ReplayError,
>) where
    FI: Fn(&Vec<u8>) -> Result<BattleInfo, String>,
    FR: Fn(&Vec<u8>) -> Result<BattleResults, String>,

    requires
        forall|p: &Vec<u8>| decode_info.requires((p,)),
        forall|p: &Vec<u8>| decode_results.requires((p,)),
    ensures
        match decode_envelope(bytes@) {
            Err(e) => r == Err::<Replay, ReplayError>(spec_from_read_error(e)),
            Ok(_) => exists|raw: RawReplay|
                #[trigger] raw.read_from(bytes@, true) && extraction_result(
                    raw,
                    decode_info,
                    decode_results,
                    r,
                ),
        },
{
    match read_raw(bytes, true) {
        Ok(raw) => {
            let r = extract(&raw, decode_info, decode_results);
            assert(raw.read_from(bytes@, true));
            r
        },
        Err(e) => Err(ReplayError::from_read_error(e)),
    }
}

} // verus!
