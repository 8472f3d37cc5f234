use zk_withdraw::{normalize_calldata, parse_calldata, split_commas, CalldataError, Proof, U256};

fn w(n: u64) -> U256 {
    U256::from_u64(n)
}

#[test]
fn normalize_strips_quotes_brackets_spaces_newlines() {
    assert_eq!(normalize_calldata("[\"1a\", \"2b\"]\n[ \"3c\" ]"), "1a,2b3c");
    assert_eq!(normalize_calldata(""), "");
}

#[test]
fn split_keeps_empty_pieces() {
    assert_eq!(split_commas(""), vec![String::new()]);
    assert_eq!(split_commas("a,,b"), vec!["a".to_string(), String::new(), "b".to_string()]);
    assert_eq!(split_commas("a,"), vec!["a".to_string(), String::new()]);
}

#[test]
fn nine_tokens_scenario() {
    let text = "[\"1a\",\"2b\",\"3c\",\"4d\",\"5e\",\"6f\",\"70\",\"81\",\"92\"]";
    assert_eq!(normalize_calldata(text), "1a,2b,3c,4d,5e,6f,70,81,92");
    let p = parse_calldata(text).unwrap();
    assert_eq!(p.a, [w(0x1a), w(0x2b)]);
    assert_eq!(p.b, [[w(0x3c), w(0x4d)], [w(0x5e), w(0x6f)]]);
    assert_eq!(p.c, [w(0x70), w(0x81)]);
    assert_eq!(p.public, vec![w(0x92)]);
}

#[test]
fn eight_tokens_have_no_public_inputs() {
    let p = parse_calldata("1,2,3,4,5,6,7,8").unwrap();
    assert!(p.public.is_empty());
    assert_eq!(p.c, [w(7), w(8)]);
}

#[test]
fn seven_tokens_are_too_few() {
    assert_eq!(parse_calldata("1,2,3,4,5,6,7").unwrap_err(), CalldataError::TooFewWords(7));
}

#[test]
fn bad_token_is_reported_by_position() {
    assert_eq!(
        parse_calldata("1,2,zz,4,5,6,7,8,9").unwrap_err(),
        CalldataError::InvalidToken(2)
    );
    assert_eq!(parse_calldata("1,2,3,g").unwrap_err(), CalldataError::InvalidToken(3));
}

#[test]
fn prefixed_and_upper_case_hex() {
    let p = parse_calldata("[\"0x1A\",\"0xff\",\"3\",\"4\",\"5\",\"6\",\"7\",\"8\",\"0x\"]").unwrap();
    assert_eq!(p.a, [w(0x1a), w(0xff)]);
    assert_eq!(p.public, vec![w(0)]);
}

#[test]
fn full_width_word_and_overlong_token() {
    let max = "f".repeat(64);
    let text = format!("{},2,3,4,5,6,7,8", max);
    let p = parse_calldata(&text).unwrap();
    assert_eq!(p.a[0], U256 { limbs: [u64::MAX; 4] });
    let long = format!("{},2,3,4,5,6,7,8", "1".repeat(65));
    assert_eq!(parse_calldata(&long).unwrap_err(), CalldataError::InvalidToken(0));
}

#[test]
fn high_limb_order() {
    let p = parse_calldata("10000000000000000,2,3,4,5,6,7,8").unwrap();
    assert_eq!(p.a[0], U256 { limbs: [0, 1, 0, 0] });
}

#[test]
fn empty_calldata_is_one_zero_word() {
    assert_eq!(parse_calldata("").unwrap_err(), CalldataError::TooFewWords(1));
}

#[test]
fn words_are_laid_out_positionally() {
    let words: Vec<U256> = (1..=10).map(w).collect();
    let p = Proof::from_words(&words).unwrap();
    assert_eq!(p.a, [w(1), w(2)]);
    assert_eq!(p.b, [[w(3), w(4)], [w(5), w(6)]]);
    assert_eq!(p.c, [w(7), w(8)]);
    assert_eq!(p.public, vec![w(9), w(10)]);
    let short: Vec<U256> = (1..=3).map(w).collect();
    assert_eq!(Proof::from_words(&short).unwrap_err(), CalldataError::TooFewWords(3));
}

#[test]
fn default_proof_is_zero() {
    let p = Proof::default();
    assert_eq!(p.a, [U256::zero(), U256::zero()]);
    assert!(p.public.is_empty());
}
