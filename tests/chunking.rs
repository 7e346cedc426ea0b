use spotify_client::album::albums_requests;
use spotify_client::chunk::{chunk, concat_results};
use spotify_client::track::tracks_requests;

fn ids(n: usize) -> Vec<String> {
    (0..n).map(|i| format!("id{}", i)).collect()
}

fn ids_of(query: &[(String, String)]) -> Vec<String> {
    assert_eq!(query.len(), 1);
    assert_eq!(query[0].0, "ids");
    query[0].1.split(',').map(|s| s.to_string()).collect()
}

#[test]
fn chunked_batch() {
    let all = ids(130);
    let requests = tracks_requests(all.clone());
    let sizes: Vec<usize> = requests.iter().map(|r| ids_of(&r.query).len()).collect();
    assert_eq!(sizes, vec![50, 50, 30]);
    let sent: Vec<String> = requests.iter().flat_map(|r| ids_of(&r.query)).collect();
    assert_eq!(sent, all);
    assert!(requests.iter().all(|r| r.url == "https://api.spotify.com/v1/tracks"));
    let results: Vec<Vec<String>> = requests.iter().map(|r| ids_of(&r.query)).collect();
    let flat = concat_results(results);
    assert_eq!(flat.len(), 130);
    assert_eq!(flat, all);
}

#[test]
fn repeated_ids_are_kept() {
    let mut all = ids(60);
    all.push("id3".to_string());
    let requests = tracks_requests(all.clone());
    let sent: Vec<String> = requests.iter().flat_map(|r| ids_of(&r.query)).collect();
    assert_eq!(sent.iter().filter(|s| *s == "id3").count(), 2);
    assert_eq!(sent.len(), 61);
}

#[test]
fn chunk_edges() {
    assert_eq!(chunk(Vec::<u8>::new(), 20), vec![Vec::<u8>::new()]);
    assert_eq!(chunk(vec![1, 2, 3, 4], 2), vec![vec![1, 2], vec![3, 4]]);
    assert_eq!(chunk(vec![1, 2, 3], 5), vec![vec![1, 2, 3]]);
    assert_eq!(albums_requests(ids(100)).len(), 5);
    assert_eq!(albums_requests(ids(101)).len(), 6);
}

#[test]
fn concat_keeps_chunk_order() {
    assert_eq!(concat_results(vec![vec![1, 2], vec![], vec![3]]), vec![1, 2, 3]);
    assert_eq!(concat_results(Vec::<Vec<u8>>::new()), Vec::<u8>::new());
}
