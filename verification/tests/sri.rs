use oxidoc::sri::generate_sri_hash;

#[test]
fn sri_hash_of_empty_input() {
    assert_eq!(
        generate_sri_hash(b""),
        "sha384-OLBgp1GsljhM2TJ+sbHjaiH9txEUvgdDTAzHv2P24donTt6/529l+9Ua0vFImLlb"
    );
}

#[test]
fn sri_hash_shape() {
    let h = generate_sri_hash(b"body { color: red; }");
    assert!(h.starts_with("sha384-"));
    assert_eq!(h.len(), 71);
    assert_ne!(h, generate_sri_hash(b""));
}

#[test]
fn sri_hash_format() {
    let content = b"body { color: red; }";
    let sri = generate_sri_hash(content);
    assert!(sri.starts_with("sha384-"));
    assert!(sri.len() > 50);
}

#[test]
fn sri_hash_consistency() {
    let content = b"const x = 1;";
    let sri1 = generate_sri_hash(content);
    let sri2 = generate_sri_hash(content);
    assert_eq!(sri1, sri2);
}

#[test]
fn sri_hash_different_content() {
    let content1 = b"a { color: blue; }";
    let content2 = b"a { color: green; }";
    let sri1 = generate_sri_hash(content1);
    let sri2 = generate_sri_hash(content2);
    assert_ne!(sri1, sri2);
}

#[test]
fn sri_hash_empty_content() {
    let empty = b"";
    let sri = generate_sri_hash(empty);
    assert!(sri.starts_with("sha384-"));
}

#[test]
fn sri_hash_large_content() {
    let large: Vec<u8> = vec![b'x'; 100_000];
    let sri = generate_sri_hash(&large);
    assert!(sri.starts_with("sha384-"));
}
