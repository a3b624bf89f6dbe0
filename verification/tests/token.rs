use testbed::errors::ErrorMessage;
use testbed::token::{RunnerToken, TokenCodec};

fn payload(access_key: &str) -> RunnerToken {
    RunnerToken { access_key: access_key.to_string() }
}

#[test]
fn token_of_abc() {
    let codec = TokenCodec::new(0x5eed);
    assert_eq!(codec.encode(&payload("abc")), "616263415e4fd1bb652c9e");
}

#[test]
fn token_of_a_single_letter() {
    let codec = TokenCodec::new(1);
    assert_eq!(codec.encode(&payload("a")), "610000010000000215");
}

#[test]
fn token_of_the_empty_key_is_the_seal_alone() {
    assert_eq!(TokenCodec::new(0).encode(&payload("")), "0000000000000000");
    assert_eq!(TokenCodec::new(7).encode(&payload("")), "0000000000000007");
}

#[test]
fn token_of_a_key_beyond_ascii() {
    let codec = TokenCodec::new(0x5eed);
    assert_eq!(codec.encode(&payload("héllo")), "68c3a96c6c6fe1aae257b99f020e");
}

#[test]
fn token_under_the_largest_key() {
    let codec = TokenCodec::new(u64::MAX);
    assert_eq!(codec.encode(&payload("abc")), "616263f8a3f3fffc339fa4");
}

#[test]
fn a_token_is_read_back() {
    let codec = TokenCodec::new(0x5eed);
    for key in ["abc", "", "a", "héllo", "with space", "0123456789abcdef", "日本語"] {
        let token = codec.encode(&payload(key));
        assert_eq!(codec.decode(&token), Ok(payload(key)));
    }
}

#[test]
fn a_changed_token_is_refused() {
    let codec = TokenCodec::new(0x5eed);
    // the key changed from abc to abd, the seal left as it was
    assert_eq!(codec.decode("616264415e4fd1bb652c9e"), Err(ErrorMessage::InvalidToken));
    // the last digit of the seal changed
    assert_eq!(codec.decode("616263415e4fd1bb652c9f"), Err(ErrorMessage::InvalidToken));
}

#[test]
fn a_cut_token_is_refused() {
    let codec = TokenCodec::new(0x5eed);
    assert_eq!(codec.decode("616263415e4fd1bb652c9"), Err(ErrorMessage::InvalidToken));
    assert_eq!(codec.decode("616263415e4fd1bb652c"), Err(ErrorMessage::InvalidToken));
    assert_eq!(codec.decode("415e4fd1bb652c9e"), Err(ErrorMessage::InvalidToken));
    assert_eq!(codec.decode("6162"), Err(ErrorMessage::InvalidToken));
    assert_eq!(codec.decode(""), Err(ErrorMessage::InvalidToken));
}

#[test]
fn a_malformed_token_is_refused() {
    let codec = TokenCodec::new(0x5eed);
    assert_eq!(codec.decode("not a token"), Err(ErrorMessage::InvalidToken));
    assert_eq!(codec.decode("616263415E4FD1BB652C9E"), Err(ErrorMessage::InvalidToken));
    assert_eq!(codec.decode("g16263415e4fd1bb652c9e"), Err(ErrorMessage::InvalidToken));
    assert_eq!(codec.decode("616263415e4fd1bb652c9é"), Err(ErrorMessage::InvalidToken));
    assert_eq!(codec.decode(" 616263415e4fd1bb652c9e"), Err(ErrorMessage::InvalidToken));
}

#[test]
fn a_token_whose_key_is_not_text_is_refused() {
    // ff is no UTF-8; the seal is the right one for that byte under the key 1
    let codec = TokenCodec::new(1);
    assert_eq!(codec.decode("ff00000100000002b3"), Err(ErrorMessage::InvalidToken));
}

#[test]
fn a_token_of_another_codec_is_refused() {
    let issued = TokenCodec::new(0x5eed).encode(&payload("abc"));
    assert_eq!(TokenCodec::new(0x5eee).decode(&issued), Err(ErrorMessage::InvalidToken));
}

#[test]
fn different_keys_have_different_tokens() {
    let codec = TokenCodec::new(42);
    assert_ne!(codec.encode(&payload("abc")), codec.encode(&payload("abd")));
    assert_ne!(codec.encode(&payload("abc")), codec.encode(&payload("abcd")));
}
