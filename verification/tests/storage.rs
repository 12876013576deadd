use sha2::{Digest, Sha256};

use jetstream_proto::storage::codec::{encode_be, u64_from_be, u64_to_be};
use jetstream_proto::storage::merkle::{hash_leaf, hash_node, merkle_append, merkle_root, node_key, sibling_slots};
use jetstream_proto::storage::queue::{decode_counter, latest_key, next_slot, queue_len, version_key};

fn sha(parts: &[&[u8]]) -> Vec<u8> {
    let mut h = Sha256::new();
    for p in parts {
        h.update(p);
    }
    h.finalize().to_vec()
}

#[test]
fn be_bytes_match_std() {
    for v in [0u64, 1, 255, 256, 0x0102_0304_0506_0708, u64::MAX] {
        let b = u64_to_be(v);
        assert_eq!(b, v.to_be_bytes().to_vec());
        assert_eq!(u64_from_be(&b), v);
    }
    assert_eq!(encode_be(0x1234, 3), vec![0x00, 0x12, 0x34]);
}

#[test]
fn counters_decode() {
    assert_eq!(decode_counter(&None), Some(0));
    assert_eq!(decode_counter(&Some(7u64.to_be_bytes().to_vec())), Some(7));
    assert_eq!(decode_counter(&Some(vec![1, 2, 3])), None);
}

#[test]
fn queue_positions() {
    assert_eq!(queue_len(0, 2), 2);
    assert_eq!(queue_len(2, 2), 0);
    assert_eq!(queue_len(5, 3), 0);
    assert_eq!(next_slot(0), 1);
    assert_eq!(next_slot(41), 42);
}

#[test]
fn object_keys() {
    assert_eq!(version_key("doc", 2), "doc:2");
    assert_eq!(latest_key("doc"), "doc:latest");
    assert_eq!(node_key(3, 17), "3:17");
}

#[test]
fn leaf_and_node_hashes_are_prefixed_sha256() {
    let leaf = hash_leaf(b"data1");
    assert_eq!(leaf, sha(&[&[0u8], b"data1"]));
    assert_ne!(leaf, b"data1".to_vec());
    let node = hash_node(&vec![1u8; 32], &vec![2u8; 32]);
    assert_eq!(node, sha(&[&[1u8], &[1u8; 32], &[2u8; 32]]));
}

#[test]
fn first_leaf_is_its_own_root() {
    let up = merkle_append(0, b"data1", &vec![]);
    assert_eq!(up.nodes.len(), 1);
    assert_eq!(up.nodes[0].0, 0);
    assert_eq!(up.nodes[0].1, 0);
    assert_eq!(up.root, sha(&[&[0u8], b"data1"]));
    assert!(sibling_slots(0).is_empty());
}

#[test]
fn second_leaf_hashes_with_its_left_sibling() {
    let leaf0 = sha(&[&[0u8], b"data1"]);
    let slots = sibling_slots(1);
    assert_eq!(slots, vec![Some((0u32, 0u64))]);
    let up = merkle_append(1, b"data2", &vec![Some(leaf0.clone())]);
    let leaf1 = sha(&[&[0u8], b"data2"]);
    assert_eq!(up.nodes.len(), 2);
    assert_eq!((up.nodes[0].0, up.nodes[0].1), (0, 1));
    assert_eq!(up.nodes[0].2, leaf1);
    assert_eq!((up.nodes[1].0, up.nodes[1].1), (1, 0));
    let root = sha(&[&[1u8], &leaf0, &leaf1]);
    assert_eq!(up.nodes[1].2, root);
    assert_eq!(up.root, root);
    assert_eq!(up.root.len(), 32);
}

#[test]
fn even_index_pairs_with_zero_hash() {
    // leaf 2: index 2 is even at level 0 (zero right sibling), index 1 is odd at level 1
    let slots = sibling_slots(2);
    assert_eq!(slots, vec![None, Some((1u32, 0u64))]);
    let left = vec![7u8; 32];
    let up = merkle_append(2, b"x", &vec![None, Some(left.clone())]);
    let leaf = sha(&[&[0u8], b"x"]);
    let lvl1 = sha(&[&[1u8], &leaf, &[0u8; 32]]);
    let lvl2 = sha(&[&[1u8], &left, &lvl1]);
    assert_eq!(up.nodes.len(), 3);
    assert_eq!(up.nodes[1].2, lvl1);
    assert_eq!((up.nodes[2].0, up.nodes[2].1), (2, 0));
    assert_eq!(up.root, lvl2);
}

#[test]
fn missing_sibling_counts_as_zero() {
    let with_none = merkle_append(1, b"y", &vec![None]);
    let with_zero = merkle_append(1, b"y", &vec![Some(vec![0u8; 32])]);
    assert_eq!(with_none.root, with_zero.root);
}

#[test]
fn test_merkle_append() {
    let first = merkle_append(0, b"data1", &vec![]);
    let root1 = first.root.clone();
    // The second leaf reads the first leaf as its left sibling
    let slots = sibling_slots(1);
    assert_eq!(slots, vec![Some((0u32, 0u64))]);
    let second = merkle_append(1, b"data2", &vec![Some(first.nodes[0].2.clone())]);
    let root2 = second.root;
    assert_ne!(root1, root2);
    assert_eq!(root2.len(), 32);
}

#[test]
fn merkle_root_is_highest_stored_node() {
    assert_eq!(merkle_root(0, &vec![vec![1u8; 32]]), vec![0u8; 32]);
    assert_eq!(merkle_root(3, &vec![]), vec![0u8; 32]);
    assert_eq!(merkle_root(3, &vec![vec![1u8; 32], vec![2u8; 32], vec![3u8; 32]]), vec![3u8; 32]);
}

#[test]
fn merkle_root_reads_back_last_append() {
    // A store keyed by level and index, written as the log's appends write it
    let mut store: std::collections::HashMap<(u32, u64), Vec<u8>> = std::collections::HashMap::new();
    let mut last_root = Vec::new();
    for count in 0..6u64 {
        let sibs: Vec<Option<Vec<u8>>> = sibling_slots(count)
            .into_iter()
            .map(|slot| slot.and_then(|(l, i)| store.get(&(l, i)).cloned()))
            .collect();
        let data = format!("leaf{}", count);
        let up = merkle_append(count, data.as_bytes(), &sibs);
        for (l, i, h) in &up.nodes {
            store.insert((*l, *i), h.clone());
        }
        last_root = up.root.clone();
        // Read index 0 level by level until a level has none
        let mut column = Vec::new();
        let mut level = 0u32;
        while let Some(h) = store.get(&(level, 0)) {
            column.push(h.clone());
            level += 1;
        }
        assert_eq!(merkle_root(count + 1, &column), last_root);
    }
    assert_eq!(last_root.len(), 32);
}
