use lazyproarcconvert::digest::{compute_blake3, hash_file, ContentHasher, CHUNK_SIZE, DIGEST_HEX_LEN};

fn sample(len: usize, seed: u8) -> Vec<u8> {
    let mut data = Vec::with_capacity(len);
    let mut value = seed;
    for i in 0..len {
        value = value.wrapping_mul(31).wrapping_add((i % 251) as u8).wrapping_add(7);
        data.push(value);
    }
    data
}

#[test]
fn empty_input_has_the_known_digest() {
    assert_eq!(
        compute_blake3(&[]),
        "af1349b9f5f9a1a6a0404dea36dcc9499bcb25c9adc112b7cc9a93cae41f3262"
    );
}

#[test]
fn abc_has_the_known_digest() {
    assert_eq!(
        hash_file(b"abc"),
        "6437b3ac38465133ffb63b75273a8db548c558465d79db03fd359c6cd5bd9d85"
    );
}

#[test]
fn digest_is_lowercase_hex_of_fixed_length() {
    let digest = compute_blake3(&sample(1000, 3));
    assert_eq!(digest.chars().count(), DIGEST_HEX_LEN);
    assert!(digest.chars().all(|c| c.is_ascii_digit() || ('a'..='f').contains(&c)));
}

#[test]
fn chunked_hashing_agrees_with_hashing_at_once() {
    for len in [1, CHUNK_SIZE - 1, CHUNK_SIZE, CHUNK_SIZE + 1, 3 * CHUNK_SIZE + 17] {
        let data = sample(len, 11);
        assert_eq!(compute_blake3(&data), blake3::hash(&data).to_hex().to_string());
    }
}

#[test]
fn same_bytes_give_the_same_digest() {
    let data = sample(5000, 42);
    let copy = data.clone();
    assert_eq!(hash_file(&data), hash_file(&copy));
    assert_eq!(hash_file(&data), hash_file(&data));
}

#[test]
fn one_changed_byte_changes_the_digest() {
    let data = sample(5000, 42);
    let mut changed = data.clone();
    changed[2500] ^= 1;
    assert_ne!(hash_file(&data), hash_file(&changed));
}

#[test]
fn pieces_do_not_matter_to_the_hasher() {
    let data = sample(1000, 5);
    let mut in_two = ContentHasher::new();
    in_two.update(&data[..300]);
    in_two.update(&data[300..]);
    let mut in_three = ContentHasher::new();
    in_three.update(&data[..1]);
    in_three.update(&data[1..999]);
    in_three.update(&data[999..]);
    assert_eq!(in_two.finalize(), compute_blake3(&data));
    assert_eq!(in_three.finalize(), compute_blake3(&data));
}

#[test]
fn update_changes_what_is_hashed() {
    let mut hasher = ContentHasher::new();
    let before = hasher.finalize();
    hasher.update(b"x");
    assert_ne!(hasher.finalize(), before);
}

#[test]
fn finalize_leaves_the_hasher_usable() {
    let mut hasher = ContentHasher::new();
    hasher.update(b"ab");
    let first = hasher.finalize();
    assert_eq!(hasher.finalize(), first);
    hasher.update(b"c");
    assert_eq!(hasher.finalize(), hash_file(b"abc"));
}

#[test]
fn feed_gives_no_digest_before_the_end() {
    let data = sample(20000, 9);
    let mut stream = ContentHasher::new();
    for piece in data.chunks(CHUNK_SIZE) {
        assert_eq!(stream.feed(piece), None);
    }
    assert_eq!(stream.feed(&[]), Some(compute_blake3(&data)));
}

#[test]
fn feed_of_an_empty_source_gives_the_digest_of_nothing() {
    let mut stream = ContentHasher::new();
    assert_eq!(stream.feed(&[]), Some(compute_blake3(&[])));
}
