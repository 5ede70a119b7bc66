use metrics_datadog_exporter::payload::{
    metric_requests, split_and_compress_series, split_and_compress_series_within, split_series,
    split_series_within, DataDogApiPost, MAX_DECOMPRESSED_PAYLOAD, MAX_PAYLOAD_BYTES,
};
use metrics_datadog_exporter::Error;
use std::io::Read;

fn gunzip(bytes: &[u8]) -> Vec<u8> {
    let mut decoder = flate2::read::GzDecoder::new(bytes);
    let mut out = Vec::new();
    decoder.read_to_end(&mut out).unwrap();
    out
}

fn post(series: &[Vec<u8>]) -> Vec<u8> {
    DataDogApiPost { series }.to_vec()
}

fn encoded(n: usize) -> Vec<Vec<u8>> {
    (0..n)
        .map(|i| format!("{{\"metric\":\"m{}\"}}", i).into_bytes())
        .collect()
}

#[test]
fn ceilings_are_those_of_the_api() {
    assert_eq!(MAX_PAYLOAD_BYTES, 3_200_000);
    assert_eq!(MAX_DECOMPRESSED_PAYLOAD, 62_914_560);
}

#[test]
fn post_of_no_series_is_an_empty_array() {
    assert_eq!(post(&[]), b"{\"series\":[]}".to_vec());
}

#[test]
fn post_frames_and_joins_the_series() {
    assert_eq!(post(&[b"{}".to_vec()]), b"{\"series\":[{}]}".to_vec());
    assert_eq!(
        post(&[b"{\"a\":1}".to_vec(), b"{}".to_vec(), b"{\"b\":[2]}".to_vec()]),
        b"{\"series\":[{\"a\":1},{},{\"b\":[2]}]}".to_vec()
    );
}

#[test]
fn post_is_the_json_that_serde_json_writes() {
    let series = encoded(3);
    let body = post(&series);
    let parsed: serde_json::Value = serde_json::from_slice(&body).unwrap();
    let mut object = serde_json::Map::new();
    let items: Vec<serde_json::Value> = (0..3)
        .map(|i| {
            let mut item = serde_json::Map::new();
            item.insert(
                "metric".to_string(),
                serde_json::Value::String(format!("m{}", i)),
            );
            serde_json::Value::Object(item)
        })
        .collect();
    object.insert("series".to_string(), serde_json::Value::Array(items));
    let expected = serde_json::Value::Object(object);
    assert_eq!(parsed, expected);
    assert_eq!(body, serde_json::to_vec(&expected).unwrap());
}

#[test]
fn a_batch_under_the_ceiling_is_one_chunk() {
    let series = encoded(5);
    let whole = post(&series);
    let chunks = split_series_within(&series, whole.len() + 1).unwrap();
    assert_eq!(chunks, vec![whole]);
}

#[test]
fn a_batch_at_the_ceiling_is_split() {
    let series = encoded(4);
    let whole = post(&series);
    let chunks = split_series_within(&series, whole.len()).unwrap();
    assert_eq!(chunks, vec![post(&series[..2]), post(&series[2..])]);
}

#[test]
fn chunking_emits_chunks_under_the_ceiling_that_hold_every_series_once() {
    let series = encoded(9);
    let limit = 40;
    assert!(post(&series).len() >= limit);
    let chunks = split_series_within(&series, limit).unwrap();
    assert!(chunks.len() >= 2);
    let mut seen: Vec<serde_json::Value> = Vec::new();
    for chunk in &chunks {
        assert!(chunk.len() < limit);
        let parsed: serde_json::Value = serde_json::from_slice(chunk).unwrap();
        seen.extend(parsed["series"].as_array().unwrap().iter().cloned());
    }
    let expected: Vec<serde_json::Value> = series
        .iter()
        .map(|s| serde_json::from_slice(s).unwrap())
        .collect();
    assert_eq!(seen, expected);
}

#[test]
fn chunking_bisects_at_the_middle() {
    let series = encoded(5);
    assert_eq!(post(&series[..1]).len(), 28);
    assert_eq!(post(&series[..2]).len(), 44);
    assert_eq!(post(&series[2..]).len(), 60);
    let chunks = split_series_within(&series, 45).unwrap();
    assert_eq!(
        chunks,
        vec![
            post(&series[0..2]),
            post(&series[2..3]),
            post(&series[3..5])
        ]
    );
    let chunks = split_series_within(&series, 29).unwrap();
    assert_eq!(
        chunks,
        vec![
            post(&series[0..1]),
            post(&series[1..2]),
            post(&series[2..3]),
            post(&series[3..4]),
            post(&series[4..5])
        ]
    );
}

#[test]
fn a_single_series_over_the_ceiling_is_an_error() {
    let series = encoded(1);
    let result = split_series_within(&series, 28);
    assert!(matches!(result, Err(Error::SeriesTooLarge)));
    let series = encoded(6);
    let result = split_series_within(&series, 20);
    assert!(matches!(result, Err(Error::SeriesTooLarge)));
}

#[test]
fn an_empty_batch_over_the_ceiling_is_an_error() {
    assert!(matches!(split_series_within(&[], 13), Err(Error::SeriesTooLarge)));
    assert!(matches!(split_series_within(&[], 0), Err(Error::SeriesTooLarge)));
    assert_eq!(split_series_within(&[], 14).unwrap(), vec![post(&[])]);
}

#[test]
fn split_series_uses_the_api_ceiling() {
    let series = encoded(10);
    assert_eq!(split_series(&series).unwrap(), vec![post(&series)]);
    let big: Vec<Vec<u8>> = (0..4).map(|_| vec![b'1'; 1_000_000]).collect();
    let chunks = split_series(&big).unwrap();
    assert_eq!(chunks, vec![post(&big[..2]), post(&big[2..])]);
    assert!(chunks.iter().all(|c| c.len() < MAX_PAYLOAD_BYTES));
    let huge = vec![vec![b'1'; MAX_PAYLOAD_BYTES]];
    assert!(matches!(split_series(&huge), Err(Error::SeriesTooLarge)));
}

#[test]
fn compression_correctness_chunks_decompress_to_the_plain_posts() {
    let series = encoded(8);
    let chunks = split_and_compress_series(&series).unwrap();
    assert_eq!(chunks.len(), 1);
    assert_ne!(chunks[0], post(&series));
    assert_eq!(&chunks[0][..2], &[0x1f, 0x8b]);
    assert_eq!(gunzip(&chunks[0]), post(&series));
    assert_eq!(vec![gunzip(&chunks[0])], split_series(&series).unwrap());
}

#[test]
fn compressed_chunks_over_the_wire_ceiling_are_split_and_compressed_anew() {
    let series = encoded(8);
    let whole = split_and_compress_series_within(&series, 1000, 1000).unwrap();
    assert_eq!(whole.len(), 1);
    let limit = whole[0].len();
    let chunks = split_and_compress_series_within(&series, 1000, limit).unwrap();
    assert!(chunks.len() >= 2);
    let mut seen: Vec<serde_json::Value> = Vec::new();
    for chunk in &chunks {
        assert!(chunk.len() < limit);
        let parsed: serde_json::Value = serde_json::from_slice(&gunzip(chunk)).unwrap();
        seen.extend(parsed["series"].as_array().unwrap().iter().cloned());
    }
    let expected: Vec<serde_json::Value> = series
        .iter()
        .map(|s| serde_json::from_slice(s).unwrap())
        .collect();
    assert_eq!(seen, expected);
    assert_eq!(gunzip(&chunks[0]), post(&series[..4]));
}

#[test]
fn posts_over_the_raw_ceiling_are_split_before_compression() {
    let series = encoded(4);
    let whole = post(&series);
    let chunks = split_and_compress_series_within(&series, whole.len() - 1, 1000).unwrap();
    assert_eq!(chunks.len(), 2);
    assert_eq!(gunzip(&chunks[0]), post(&series[..2]));
    assert_eq!(gunzip(&chunks[1]), post(&series[2..]));
    let chunks = split_and_compress_series_within(&series, whole.len(), 1000).unwrap();
    assert_eq!(chunks.len(), 1);
    assert_eq!(gunzip(&chunks[0]), whole);
}

#[test]
fn a_single_series_over_a_compression_ceiling_is_an_error() {
    let series = encoded(1);
    assert!(matches!(
        split_and_compress_series_within(&series, 27, 1000),
        Err(Error::SeriesTooLarge)
    ));
    assert!(matches!(
        split_and_compress_series_within(&series, 1000, 10),
        Err(Error::SeriesTooLarge)
    ));
    assert!(matches!(
        split_and_compress_series_within(&encoded(3), 1000, 10),
        Err(Error::SeriesTooLarge)
    ));
}

#[test]
fn compression_is_repeatable() {
    let series = encoded(6);
    assert_eq!(
        split_and_compress_series(&series).unwrap(),
        split_and_compress_series(&series).unwrap()
    );
}

#[test]
fn metric_requests_compresses_when_asked() {
    let series = encoded(3);
    assert_eq!(metric_requests(&series, false).unwrap(), vec![post(&series)]);
    let compressed = metric_requests(&series, true).unwrap();
    assert_eq!(compressed.len(), 1);
    assert_eq!(gunzip(&compressed[0]), post(&series));
    assert_eq!(compressed, split_and_compress_series(&series).unwrap());
}
