use apvm::name::decode;
use apvm::name::encode;

#[test]
fn encode_known_values() {
  assert_eq!(encode(""), "");
  assert_eq!(encode("f"), "Zg");
  assert_eq!(encode("fo"), "Zm8");
  assert_eq!(encode("foo"), "Zm9v");
  assert_eq!(encode("2.15.0"), "Mi4xNS4w");
  assert_eq!(encode("main"), "bWFpbg");
}

#[test]
fn encode_uses_url_safe_alphabet() {
  // U+FBFF is the bytes EF AF BF, whose last two sextets are 62 and 63
  assert_eq!(encode("\u{fbff}"), "76-_");
  let name = encode("feature/some-branch?x=1");
  assert!(!name.contains('/'));
  assert!(name.chars().all(|c| c.is_ascii_alphanumeric() || c == '-' || c == '_'));
}

#[test]
fn decode_roundtrip() {
  for s in ["", "a", "ab", "abc", "2.15.0", "git/branch", "/Users/me/atlaspack", "héllo wörld", "日本"] {
    assert_eq!(decode(&encode(s)), Some(s.to_string()));
  }
}

#[test]
fn decode_rejects_invalid_names() {
  // a single trailing character
  assert_eq!(decode("Zm9vY"), None);
  // characters outside the alphabet
  assert_eq!(decode("Zm9v+A"), None);
  assert_eq!(decode("Zm9v.A"), None);
  // unused bits set in the last group
  assert_eq!(decode("Zh"), None);
  assert_eq!(decode("Zm9"), None);
  // bytes that are not UTF-8
  assert_eq!(decode("_w"), None);
}

#[test]
fn encoding_is_injective_on_samples() {
  assert_ne!(encode("1.0.0"), encode("1.0.1"));
  assert_ne!(encode("a"), encode("a "));
}
