use droplink::checksum::Checksum;

#[test]
fn checksum_of_known_inputs() {
    let empty = Checksum::new();
    assert_eq!(
        empty.finish(),
        "e3b0c44298fc1c149afbf4c8996fb92427ae41e4649b934ca495991b7852b855"
    );
    let mut abc = Checksum::new();
    abc.absorb(b"abc");
    assert_eq!(
        abc.finish(),
        "ba7816bf8f01cfea414140de5dae2223b00361a396177a9cb410ff61f20015ad"
    );
}

#[test]
fn checksum_does_not_depend_on_chunking() {
    let data: Vec<u8> = (0..200_000u32).map(|i| (i % 251) as u8).collect();
    let mut whole = Checksum::new();
    whole.absorb(&data);
    let mut chunked = Checksum::new();
    for chunk in data.chunks(65536) {
        chunked.absorb(chunk);
    }
    let a = whole.finish();
    assert_eq!(a, chunked.finish());
    assert_eq!(a.len(), 64);
}
