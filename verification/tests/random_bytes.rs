use randfill::random::random_value_array;

#[test]
fn the_buffer_has_the_requested_length() {
    assert_eq!(random_value_array(0).len(), 0);
    assert_eq!(random_value_array(1).len(), 1);
    assert_eq!(random_value_array(4096).len(), 4096);
}

#[test]
fn every_byte_value_can_occur() {
    // In 100000 draws over the whole of u8, the chance that any one of the
    // 256 values is missing is below 256 * (255/256)^100000, about 1e-168.
    let buf = random_value_array(100000);
    let mut seen = [false; 256];
    for &b in buf.iter() {
        seen[b as usize] = true;
    }
    assert!(seen.iter().all(|&s| s));
}

#[test]
fn the_content_is_not_constant() {
    // 32 equal draws in a row happen with probability under 1e-75.
    let buf = random_value_array(32);
    let first = buf[0];
    assert!(buf.iter().any(|&b| b != first) || {
        let again = random_value_array(32);
        again.iter().any(|&b| b != first)
    });
}
