use huntsman::digest::{hex_lower, sha256_hex, Sha256Stream};
use huntsman::scanner::Scanner;

#[test]
fn sha256_known_vectors() {
    assert_eq!(sha256_hex(b""), "e3b0c44298fc1c149afbf4c8996fb92427ae41e4649b934ca495991b7852b855");
    assert_eq!(sha256_hex(b"abc"), "ba7816bf8f01cfea414140de5dae2223b00361a396177a9cb410ff61f20015ad");
}

#[test]
fn chunked_feeding_matches_one_shot() {
    let data: Vec<u8> = (0..1000u32).map(|i| (i * 7 % 251) as u8).collect();
    let mut s = Sha256Stream::new();
    for chunk in data.chunks(97) {
        s.update(chunk);
    }
    let d = s.finish();
    assert_eq!(d.len(), 32);
    assert_eq!(hex_lower(&d), sha256_hex(&data));
}

#[test]
fn hex_lower_prints_two_digits_per_byte() {
    assert_eq!(hex_lower(&[0x00, 0x0f, 0xa0, 0xff]), "000fa0ff");
    assert_eq!(hex_lower(&[]), "");
}

#[test]
fn lookup_digest_finds_a_listed_file() {
    let feed = "type,value,malware\nsha256,BA7816BF8F01CFEA414140DE5DAE2223B00361A396177A9CB410FF61F20015AD,Sample\nstring,keepme,Sample\n";
    let scanner = Scanner::from_csv(feed).unwrap();
    let mut s = Sha256Stream::new();
    s.update(b"ab");
    s.update(b"c");
    assert_eq!(scanner.lookup_digest(s).unwrap().malware, "Sample");
    let mut other = Sha256Stream::new();
    other.update(b"abd");
    assert!(scanner.lookup_digest(other).is_none());
}
