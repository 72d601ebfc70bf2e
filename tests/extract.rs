use std::collections::HashMap;

use wot_replays::envelope::RawReplay;
use wot_replays::extract::{battle_info_chunk, extract, results_chunk, ReplayError};
use wot_replays::models::{BattleInfo, BattleResults, DataChunk};
use wot_replays::read_and_parse;
use wot_replays::timestamp::parse_timestamp;

fn envelope(count: u32, chunks: &[&[u8]]) -> Vec<u8> {
    let mut b = vec![0x12, 0x32, 0x34, 0x11];
    b.extend(count.to_le_bytes());
    for c in chunks {
        b.extend((c.len() as u32).to_le_bytes());
        b.extend_from_slice(c);
    }
    b
}

fn field(v: &serde_json::Value, k: &str) -> Result<String, String> {
    v.get(k)
        .and_then(|x| x.as_str())
        .map(|s| s.to_string())
        .ok_or_else(|| format!("missing field `{}`", k))
}

/// A small decoder for tests: reads a few fields of the battle-info document.
fn decode_info(p: &Vec<u8>) -> Result<BattleInfo, String> {
    let v: serde_json::Value = serde_json::from_slice(p).map_err(|e| e.to_string())?;
    let date = field(&v, "dateTime")?;
    Ok(BattleInfo {
        player_vehicle: field(&v, "playerVehicle")?,
        client_version_from_xml: String::new(),
        client_version_from_exe: String::new(),
        region_code: String::new(),
        server_name: field(&v, "serverName")?,
        map_name: field(&v, "mapName")?,
        map_display_name: String::new(),
        server_settings: serde_json::Value::Null,
        gameplay_id: String::new(),
        battle_type: 1,
        has_mods: false,
        date_time: parse_timestamp(&date).ok_or_else(|| "bad dateTime".to_string())?,
        player_id: v.get("playerID").and_then(|x| x.as_u64()).ok_or("missing field `playerID`")?,
        player_name: field(&v, "playerName")?,
        vehicles: HashMap::new(),
    })
}

fn results_missing_field(_p: &Vec<u8>) -> Result<BattleResults, String> {
    Err("missing field `common` at line 1 column 120".to_string())
}

const INFO: &[u8] = br#"{"playerVehicle":"ussr-R158_LT_432","serverName":"RU4","mapName":"karelia","dateTime":"12.04.2021 21:44:00","playerID":42,"playerName":"tanker"}"#;

#[test]
fn zero_chunks_is_missing_battle_info() {
    let bytes = envelope(0, &[]);
    let r = read_and_parse(&bytes, decode_info, results_missing_field);
    assert!(matches!(r, Err(ReplayError::MissingBattleInfo)));
}

#[test]
fn one_chunk_has_no_results() {
    let bytes = envelope(1, &[INFO]);
    let replay = read_and_parse(&bytes, decode_info, results_missing_field).unwrap();
    assert!(replay.results.is_none());
    assert_eq!(replay.battle_info.player_name, "tanker");
    assert_eq!(replay.battle_info.player_id, 42);
    assert_eq!(replay.battle_info.map_name, "karelia");
    assert_eq!(replay.battle_info.date_time.hour, 21);
}

#[test]
fn end_to_end_player_name() {
    let mut bytes = vec![0x12, 0x32, 0x34, 0x11, 0x01, 0x00, 0x00, 0x00];
    bytes.extend((INFO.len() as u32).to_le_bytes());
    bytes.extend_from_slice(INFO);
    let replay = read_and_parse(&bytes, decode_info, results_missing_field).unwrap();
    assert!(replay.results.is_none());
    assert_eq!(replay.battle_info.player_name, "tanker");
}

#[test]
fn malformed_results_name_the_field() {
    let bytes = envelope(2, &[INFO, br#"[{"arenaUniqueID":1},{},{}]"#]);
    match read_and_parse(&bytes, decode_info, results_missing_field) {
        Err(ReplayError::MalformedBattleResults(m)) => assert!(m.contains("common")),
        _ => panic!("expected malformed results"),
    }
}

#[test]
fn malformed_battle_info_keeps_diagnostic() {
    let bytes = envelope(2, &[b"{not json", b"[]"]);
    match read_and_parse(&bytes, decode_info, results_missing_field) {
        Err(ReplayError::MalformedBattleInfo(m)) => assert!(!m.is_empty()),
        _ => panic!("expected malformed battle info"),
    }
    let bad_date = envelope(1, &[br#"{"playerVehicle":"a","serverName":"b","mapName":"c","dateTime":"2021-04-12 21:44:00","playerID":1,"playerName":"d"}"#]);
    assert!(matches!(
        read_and_parse(&bad_date, decode_info, results_missing_field),
        Err(ReplayError::MalformedBattleInfo(_))
    ));
}

#[test]
fn framing_errors_pass_through() {
    let mut bytes = envelope(1, &[INFO]);
    bytes[3] = 0;
    assert!(matches!(
        read_and_parse(&bytes, decode_info, results_missing_field),
        Err(ReplayError::InvalidFormat)
    ));
    let short = envelope(3, &[INFO]);
    assert!(matches!(
        read_and_parse(&short, decode_info, results_missing_field),
        Err(ReplayError::TruncatedInput)
    ));
}

#[test]
fn declared_results_without_chunk_is_inconsistent() {
    let raw = RawReplay {
        magic: 0x11343212,
        data_chunks: 2,
        data: vec![DataChunk { length: INFO.len() as u32, payload: INFO.to_vec() }],
        replay: vec![],
    };
    assert!(matches!(results_chunk(&raw), Err(ReplayError::InconsistentEnvelope)));
    assert!(matches!(
        extract(&raw, decode_info, results_missing_field),
        Err(ReplayError::InconsistentEnvelope)
    ));
    assert_eq!(battle_info_chunk(&raw).unwrap(), &INFO.to_vec());
}

#[test]
fn results_chunk_absent_for_one_chunk() {
    let raw = RawReplay {
        magic: 0x11343212,
        data_chunks: 1,
        data: vec![DataChunk { length: 1, payload: vec![b'x'] }],
        replay: vec![],
    };
    assert!(matches!(results_chunk(&raw), Ok(None)));
    let empty = RawReplay { magic: 0x11343212, data_chunks: 0, data: vec![], replay: vec![] };
    assert!(matches!(battle_info_chunk(&empty), Err(ReplayError::MissingBattleInfo)));
}
