use whisper_rs::error::WhisperError;
use whisper_rs::tokens::{
    join_texts, native_capacity, prepare_tokenize, tokens_from_native, vocab_token,
    NATIVE_COUNT_MAX,
};

#[test]
fn native_capacity_clamps_to_c_int() {
    assert_eq!(native_capacity(0), 0);
    assert_eq!(native_capacity(1024), 1024);
    assert_eq!(native_capacity(0x7fff_ffff), 0x7fff_ffff);
    assert_eq!(native_capacity(usize::MAX), NATIVE_COUNT_MAX);
}

#[test]
fn prepare_tokenize_builds_the_request() {
    let q = prepare_tokenize("ask not what your country can do for you", 1024).unwrap();
    let mut expected = b"ask not what your country can do for you".to_vec();
    expected.push(0);
    assert_eq!(q.text, expected);
    assert_eq!(q.capacity, 1024);
}

#[test]
fn prepare_tokenize_refuses_embedded_null() {
    assert!(matches!(
        prepare_tokenize("ask not\0", 1024),
        Err(WhisperError::InvalidArgument)
    ));
}

#[test]
fn tokens_from_native_keeps_reported_prefix() {
    assert_eq!(
        tokens_from_native(3, vec![50257, 1265, 407, 0, 0], 5),
        Ok(vec![50257, 1265, 407])
    );
    assert_eq!(tokens_from_native(0, vec![0, 0], 2), Ok(vec![]));
    assert_eq!(tokens_from_native(2, vec![8, 9], 2), Ok(vec![8, 9]));
}

#[test]
fn tokens_from_native_negative_count_is_overflow() {
    assert_eq!(
        tokens_from_native(-9, vec![0; 4], 4),
        Err(WhisperError::TokenizationOverflow)
    );
    assert_eq!(
        tokens_from_native(-1, vec![], 0),
        Err(WhisperError::TokenizationOverflow)
    );
}

#[test]
fn tokens_from_native_distrusts_counts_past_the_room() {
    assert_eq!(
        tokens_from_native(5, vec![0; 4], 8),
        Err(WhisperError::TokenizationOverflow)
    );
    assert_eq!(
        tokens_from_native(3, vec![0; 4], 2),
        Err(WhisperError::TokenizationOverflow)
    );
}

#[test]
fn join_texts_concatenates_in_order() {
    let pieces = vec![
        String::from(" ask"),
        String::from(" not"),
        String::from(" what"),
    ];
    assert_eq!(join_texts(&pieces), " ask not what");
    assert_eq!(join_texts(&vec![]), "");
}

#[test]
fn token_pieces_read_back_to_the_text() {
    let text = " ask not what your country can do for you";
    let pieces: Vec<&[u8]> = vec![b" ask", b" no", b"t what", b" your country can do for you"];
    let texts: Vec<String> = pieces
        .iter()
        .map(|b| whisper_rs::marshal::found_text(Some(b)).unwrap().to_string())
        .collect();
    assert_eq!(join_texts(&texts), text);
}

#[test]
fn multibyte_piece_reads_back() {
    let pieces: Vec<&[u8]> = vec![b"caf", &[0xc3, 0xa9], b"!"];
    let texts: Vec<String> = pieces
        .iter()
        .map(|b| whisper_rs::marshal::found_text(Some(b)).unwrap().to_string())
        .collect();
    assert_eq!(join_texts(&texts), "café!");
}

#[test]
fn vocab_token_admits_ids_in_range() {
    assert_eq!(vocab_token(0, 51864), Ok(0));
    assert_eq!(vocab_token(51863, 51864), Ok(51863));
    assert_eq!(vocab_token(51864, 51864), Err(WhisperError::LookupFailed));
    assert_eq!(vocab_token(-1, 51864), Err(WhisperError::LookupFailed));
    assert_eq!(vocab_token(0, 0), Err(WhisperError::LookupFailed));
}
